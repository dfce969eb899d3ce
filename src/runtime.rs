//! Runtime configuration and statistics. The script engine itself is a
//! collaborator outside the library.

use vstd::prelude::*;

verus! {

/// Errors that can occur during runtime operations.
#[derive(Debug, Clone)]
pub enum RuntimeError {
    /// Script execution error.
    ExecutionError(String),
    /// Script compilation error.
    CompilationError(String),
    /// Runtime initialization error.
    InitializationError(String),
    /// Permission denied for operation.
    PermissionDenied(String),
    /// Operation timeout.
    Timeout(String),
    /// Module loading error.
    ModuleError(String),
    /// Unknown error occurred.
    Unknown(String),
}

/// Result type for runtime operations.
pub type RuntimeResult<T> = Result<T, RuntimeError>;

/// Configuration for the script runtime.
#[derive(Debug, Clone, Copy)]
pub struct RuntimeConfig {
    /// Whether to allow native modules.
    pub allow_native: bool,
    /// Maximum stack size in bytes (0 = no limit).
    pub max_stack_size: usize,
    /// Execution timeout in milliseconds (0 = no timeout).
    pub timeout_ms: u64,
    /// Whether to enable the inspector for debugging.
    pub enable_inspector: bool,
    /// Initial heap size in MB.
    pub initial_heap_size: usize,
    /// Maximum heap size in MB (0 = no limit).
    pub max_heap_size: usize,
}

impl Default for RuntimeConfig {
    fn default() -> (r: Self)
        ensures
            !r.allow_native,
            r.max_stack_size == 0,
            r.timeout_ms == 0,
            !r.enable_inspector,
            r.initial_heap_size == 8,
            r.max_heap_size == 0,
    {
        RuntimeConfig {
            allow_native: false,
            max_stack_size: 0,
            timeout_ms: 0,
            enable_inspector: false,
            initial_heap_size: 8,
            max_heap_size: 0,
        }
    }
}

/// Script execution statistics.
#[derive(Debug, Clone, Copy)]
pub struct RuntimeStats {
    /// Number of scripts executed.
    pub scripts_executed: usize,
    /// Total execution time in milliseconds.
    pub total_execution_time_ms: u64,
    /// Number of errors encountered.
    pub error_count: usize,
    /// Current memory usage in bytes.
    pub memory_usage_bytes: usize,
}

impl Default for RuntimeStats {
    fn default() -> (r: Self)
        ensures
            r.scripts_executed == 0,
            r.total_execution_time_ms == 0,
            r.error_count == 0,
            r.memory_usage_bytes == 0,
    {
        RuntimeStats {
            scripts_executed: 0,
            total_execution_time_ms: 0,
            error_count: 0,
            memory_usage_bytes: 0,
        }
    }
}

/// The default runtime configuration.
pub fn default_runtime_config() -> (r: RuntimeConfig)
    ensures
        !r.allow_native,
        r.max_stack_size == 0,
        r.timeout_ms == 0,
        !r.enable_inspector,
        r.initial_heap_size == 8,
        r.max_heap_size == 0,
{
    RuntimeConfig::default()
}

} // verus!
