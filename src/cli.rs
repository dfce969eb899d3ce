//! The command-line surface as plain data, and the permission grant it
//! implies. Parsing the command line happens outside the library, which
//! receives the parsed commands.

use vstd::prelude::*;
use vstd::string::*;

use crate::permissions::{PermissionState, Permissions};
use crate::text::{copy_strings, owned, views};

verus! {

/// The parsed command line.
#[derive(Debug, Clone)]
pub struct Cli {
    /// Enable verbose output.
    pub verbose: bool,
    /// Log level (trace, debug, info, warn, error).
    pub log_level: String,
    /// Subcommand to execute.
    pub command: Commands,
}

/// Cache subcommands.
#[derive(Debug, Clone, Copy, PartialEq, Eq, Structural)]
pub enum CacheCommands {
    /// Clear the module cache.
    Clear,
    /// Show cache information.
    Info,
    /// Prune unused cache entries.
    Prune,
}

/// Available commands.
#[derive(Debug, Clone)]
pub enum Commands {
    /// Run a JavaScript or TypeScript file.
    Run {
        /// Path to the script file.
        script: String,
        /// Arguments to pass to the script.
        args: Vec<String>,
        /// Allow file system read access.
        allow_read: bool,
        /// Allow file system read access to specific paths.
        allow_read_path: Option<Vec<String>>,
        /// Allow file system write access.
        allow_write: bool,
        /// Allow file system write access to specific paths.
        allow_write_path: Option<Vec<String>>,
        /// Allow network access.
        allow_net: bool,
        /// Allow network access to specific domains.
        allow_net_domain: Option<Vec<String>>,
        /// Allow environment variable access.
        allow_env: bool,
        /// Allow access to specific environment variables.
        allow_env_var: Option<Vec<String>>,
        /// Allow running subprocesses.
        allow_run: bool,
        /// Allow running specific commands.
        allow_run_command: Option<Vec<String>>,
        /// Allow all permissions.
        allow_all: bool,
        /// Disable permission checks (dangerous).
        unsafe_no_permissions: bool,
        /// Import map path.
        import_map: Option<String>,
        /// Enable inspector for debugging.
        inspect: bool,
        /// Inspector port.
        inspect_port: u16,
        /// Enable source map support.
        enable_source_maps: bool,
        /// Check script without executing.
        check: bool,
        /// Evaluate script from string instead of file.
        eval: Option<String>,
        /// Watch mode for development.
        watch: bool,
    },
    /// Start an interactive REPL.
    Repl {
        /// Allow all permissions in REPL.
        allow_all: bool,
        /// Enable source map support.
        enable_source_maps: bool,
    },
    /// Format JavaScript/TypeScript code.
    Fmt {
        /// Files or directories to format.
        files: Vec<String>,
        /// Check formatting without making changes.
        check: bool,
        /// Use single quotes.
        single_quote: bool,
        /// Use tabs.
        use_tabs: bool,
        /// Print output to stdout.
        stdout: bool,
    },
    /// Run tests.
    Test {
        /// Files or directories containing tests.
        files: Vec<String>,
        /// Allow all permissions for tests.
        allow_all: bool,
        /// Run tests matching the pattern.
        filter: Option<String>,
        /// Disable parallel test execution.
        no_parallel: bool,
        /// Show ignored tests.
        ignored: bool,
    },
    /// Bundle JavaScript/TypeScript modules.
    Bundle {
        /// Entry point file.
        input: String,
        /// Output file.
        output: String,
        /// Import map path.
        import_map: Option<String>,
        /// Output format (esm, cjs, iife).
        format: String,
        /// Minify output.
        minify: bool,
        /// Source map type (none, inline, external).
        source_map: String,
    },
    /// Install and run a script from a URL.
    Install {
        /// URL or package name to install.
        name: String,
        /// Arguments to pass to the script.
        args: Vec<String>,
        /// Allow all permissions.
        allow_all: bool,
        /// Force reinstallation.
        force: bool,
    },
    /// Cache management.
    Cache {
        /// Cache subcommand to execute.
        subcommand: CacheCommands,
    },
    /// Compile script to standalone executable.
    Compile {
        /// Input script file.
        input: String,
        /// Output executable path.
        output: String,
        /// Target architecture.
        target: Option<String>,
        /// Include source map.
        source_map: bool,
    },
    /// Show module dependency tree.
    Info {
        /// Module file or URL to analyze.
        module: String,
        /// Show import URLs.
        imports: bool,
        /// Show JSON output.
        json: bool,
    },
    /// Lint JavaScript/TypeScript code.
    Lint {
        /// Files or directories to lint.
        files: Vec<String>,
        /// Fix issues automatically.
        fix: bool,
        /// Show JSON output.
        json: bool,
    },
    /// Type check TypeScript code.
    Check {
        /// Files or directories to check.
        files: Vec<String>,
    },
    /// Documentation generator.
    Doc {
        /// Files to generate documentation for.
        files: Vec<String>,
        /// Output directory.
        output: String,
        /// Serve documentation.
        serve: bool,
        /// Port for documentation server.
        port: u16,
    },
    /// Upgrade to latest version.
    Upgrade {
        /// Version to upgrade to (defaults to latest).
        version: Option<String>,
        /// Use prerelease versions.
        prerelease: bool,
    },
    /// Show completions for a shell.
    Completions {
        /// Shell type (bash, elvish, fish, powershell, zsh).
        shell: String,
    },
}

/// A category state is what a full-grant flag and an optional allow-list
/// ask for: the flag wins, then the list, else denied.
pub open spec fn granted_as(st: PermissionState, all: bool, list: Option<Vec<String>>) -> bool {
    if all {
        st is Granted
    } else {
        match list {
            Some(l) => st matches PermissionState::GrantedPartial { paths } && views(paths@) == views(
                l@,
            ),
            None => st is Denied,
        }
    }
}

fn grant_state(all: bool, list: &Option<Vec<String>>) -> (r: PermissionState)
    ensures
        granted_as(r, all, *list),
{
    if all {
        PermissionState::Granted
    } else {
        match list {
            Some(l) => PermissionState::GrantedPartial { paths: copy_strings(l) },
            None => PermissionState::Denied,
        }
    }
}

impl Commands {
    /// Whether the command disables permission checks altogether (the
    /// dangerous escape hatch, which grants everything).
    pub fn permission_checks_disabled(&self) -> (r: bool)
        ensures
            r == (*self matches Commands::Run { unsafe_no_permissions, .. } && unsafe_no_permissions),
    {
        match self {
            Commands::Run { unsafe_no_permissions, .. } => *unsafe_no_permissions,
            _ => false,
        }
    }

    /// The permissions the command grants.
    pub fn permissions(&self) -> (r: Permissions)
        ensures
            match *self {
                Commands::Run {
                    allow_read,
                    allow_read_path,
                    allow_write,
                    allow_write_path,
                    allow_net,
                    allow_net_domain,
                    allow_env,
                    allow_env_var,
                    allow_run,
                    allow_run_command,
                    allow_all,
                    unsafe_no_permissions,
                    ..
                } => if unsafe_no_permissions || allow_all {
                    r.all_granted()
                } else {
                    &&& granted_as(r.read.state(), allow_read, allow_read_path)
                    &&& granted_as(r.write.state(), allow_write, allow_write_path)
                    &&& granted_as(r.net.state(), allow_net, allow_net_domain)
                    &&& granted_as(r.env.state(), allow_env, allow_env_var)
                    &&& granted_as(r.run.state(), allow_run, allow_run_command)
                },
                Commands::Repl { allow_all, .. } => if allow_all {
                    r.all_granted()
                } else {
                    r.all_denied()
                },
                Commands::Test { allow_all, .. } => if allow_all {
                    r.all_granted()
                } else {
                    &&& r.read.state() matches PermissionState::GrantedPartial { paths } && views(
                        paths@,
                    ) == seq!["."@]
                    &&& r.write.state() is Denied
                    &&& r.net.state() is Denied
                    &&& r.env.state() is Denied
                    &&& r.run.state() is Denied
                },
                Commands::Install { allow_all, .. } => if allow_all {
                    r.all_granted()
                } else {
                    &&& r.net.state() is Granted
                    &&& r.read.state() is Denied
                    &&& r.write.state() is Denied
                    &&& r.env.state() is Denied
                    &&& r.run.state() is Denied
                },
                _ => r.all_denied(),
            },
    {
        match self {
            Commands::Run {
                allow_all,
                allow_read,
                allow_read_path,
                allow_write,
                allow_write_path,
                allow_net,
                allow_net_domain,
                allow_env,
                allow_env_var,
                allow_run,
                allow_run_command,
                unsafe_no_permissions,
                ..
            } => {
                if *unsafe_no_permissions || *allow_all {
                    return Permissions::allow_all();
                }
                let mut perms = Permissions::default();
                match grant_state(*allow_read, allow_read_path) {
                    PermissionState::Granted => perms.read.grant_all(),
                    PermissionState::GrantedPartial { paths } => perms.read.grant_paths(paths),
                    _ => {},
                }
                match grant_state(*allow_write, allow_write_path) {
                    PermissionState::Granted => perms.write.grant_all(),
                    PermissionState::GrantedPartial { paths } => perms.write.grant_paths(paths),
                    _ => {},
                }
                match grant_state(*allow_net, allow_net_domain) {
                    PermissionState::Granted => perms.net.grant_all(),
                    PermissionState::GrantedPartial { paths } => perms.net.grant_addresses(paths),
                    _ => {},
                }
                match grant_state(*allow_env, allow_env_var) {
                    PermissionState::Granted => perms.env.grant_all(),
                    PermissionState::GrantedPartial { paths } => perms.env.grant_vars(paths),
                    _ => {},
                }
                match grant_state(*allow_run, allow_run_command) {
                    PermissionState::Granted => perms.run.grant_all(),
                    PermissionState::GrantedPartial { paths } => perms.run.grant_commands(paths),
                    _ => {},
                }
                perms
            },
            Commands::Repl { allow_all, .. } => {
                if *allow_all {
                    Permissions::allow_all()
                } else {
                    Permissions::default()
                }
            },
            Commands::Test { allow_all, .. } => {
                if *allow_all {
                    Permissions::allow_all()
                } else {
                    let mut perms = Permissions::default();
                    let mut here: Vec<String> = Vec::new();
                    here.push(owned("."));
                    assert(views(here@) =~= seq!["."@]);
                    perms.read.grant_paths(here);
                    perms
                }
            },
            Commands::Install { allow_all, .. } => {
                if *allow_all {
                    Permissions::allow_all()
                } else {
                    let mut perms = Permissions::default();
                    perms.net.grant_all();
                    perms
                }
            },
            _ => Permissions::default(),
        }
    }

    /// The script arguments (for `run` and `install`).
    pub fn script_args(&self) -> (r: Option<&[String]>)
        ensures
            match *self {
                Commands::Run { args, .. } => r matches Some(a) && a@ == args@,
                Commands::Install { args, .. } => r matches Some(a) && a@ == args@,
                _ => r is None,
            },
    {
        match self {
            Commands::Run { args, .. } => Some(args.as_slice()),
            Commands::Install { args, .. } => Some(args.as_slice()),
            _ => None,
        }
    }

    /// The script path (for `run`, `info`, and the first file of `check`).
    pub fn script_path(&self) -> (r: Option<&str>)
        ensures
            match *self {
                Commands::Run { script, .. } => r matches Some(s) && s@ == script@,
                Commands::Info { module, .. } => r matches Some(s) && s@ == module@,
                Commands::Check { files } => if files@.len() > 0 {
                    r matches Some(s) && s@ == files@[0]@
                } else {
                    r is None
                },
                _ => r is None,
            },
    {
        match self {
            Commands::Run { script, .. } => Some(script.as_str()),
            Commands::Info { module, .. } => Some(module.as_str()),
            Commands::Check { files } => {
                if files.len() > 0 {
                    Some(files[0].as_str())
                } else {
                    None
                }
            },
            _ => None,
        }
    }

    /// The inspector port, when the inspector is enabled.
    pub fn inspect_enabled(&self) -> (r: Option<u16>)
        ensures
            match *self {
                Commands::Run { inspect, inspect_port, .. } => r == if inspect {
                    Some(inspect_port)
                } else {
                    None
                },
                _ => r is None,
            },
    {
        match self {
            Commands::Run { inspect, inspect_port, .. } => {
                if *inspect {
                    Some(*inspect_port)
                } else {
                    None
                }
            },
            _ => None,
        }
    }

    /// Whether watch mode is enabled.
    pub fn watch_mode(&self) -> (r: bool)
        ensures
            r == (*self matches Commands::Run { watch, .. } && watch),
    {
        match self {
            Commands::Run { watch, .. } => *watch,
            _ => false,
        }
    }

    /// The import map path (for `run` and `bundle`).
    pub fn import_map(&self) -> (r: Option<&String>)
        ensures
            match *self {
                Commands::Run { import_map, .. } => match import_map {
                    Some(p) => r matches Some(q) && *q == p,
                    None => r is None,
                },
                Commands::Bundle { import_map, .. } => match import_map {
                    Some(p) => r matches Some(q) && *q == p,
                    None => r is None,
                },
                _ => r is None,
            },
    {
        match self {
            Commands::Run { import_map, .. } => import_map.as_ref(),
            Commands::Bundle { import_map, .. } => import_map.as_ref(),
            _ => None,
        }
    }
}

} // verus!
