//! Ferrum: the trust boundary of an embeddable script host.
//!
//! The library holds the capability model that gates file, network,
//! environment and process access, and the module resolver and loader that
//! turns import specifiers into cached source modules.

pub mod cli;
pub mod dependencies;
pub mod import_map;
pub mod json;
pub mod module_cache;
pub mod module_loader;
pub mod ops;
pub mod package_search;
pub mod paths;
pub mod permissions;
pub mod repl;
pub mod runtime;
pub mod text;
pub mod urls;

pub use cli::{Cli, Commands};
pub use module_loader::{ImportMap, ModuleLoader, ModuleLoaderConfig};
pub use permissions::{
    EnvPermission, NetPermission, Permissions, ReadPermission, RunPermission, WritePermission,
};
pub use repl::ReplConfig;
pub use runtime::{default_runtime_config, RuntimeConfig, RuntimeError, RuntimeResult};

use vstd::prelude::*;

verus! {

/// Version of the library.
pub const VERSION: &'static str = "0.1.0";

} // verus!
