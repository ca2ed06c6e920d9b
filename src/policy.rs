//! The security policy as it is written in the configuration document.

use vstd::prelude::*;

verus! {

/// The whole policy document.
#[derive(Clone, Debug)]
pub struct SecurityConfig {
    pub file_operations: FileOperationsConfig,
    pub system_commands: SystemCommandsConfig,
    pub environment: EnvironmentConfig,
}

/// Rules on file paths and contents.
#[derive(Clone, Debug)]
pub struct FileOperationsConfig {
    pub allowed_extensions: AllowedExtensions,
    /// Globs of paths that are always denied.
    pub blocked_paths: Vec<String>,
    /// Globs of which a path must match at least one.
    pub allowed_directories: Vec<String>,
    /// The largest file that may be read or written, in MiB.
    pub max_file_size_mb: u64,
}

/// Extensions, each with its leading dot (`.txt`), allowed per operation.
#[derive(Clone, Debug)]
pub struct AllowedExtensions {
    pub read: Vec<String>,
    pub write: Vec<String>,
}

/// Rules on host commands.
#[derive(Clone, Debug)]
pub struct SystemCommandsConfig {
    /// The global switch: when off, every command is denied.
    pub enabled: bool,
    /// Executable names that may be run, compared exactly.
    pub allowlist: Vec<String>,
    /// Substrings that veto a command line.
    pub blocked_patterns: Vec<String>,
    pub timeout_seconds: u64,
}

/// Limits on the execution environment.
#[derive(Clone, Debug)]
pub struct EnvironmentConfig {
    pub sandbox_user: String,
    pub max_execution_time_ms: u64,
    /// The most bytes of standard output, and of standard error, that a
    /// command result keeps.
    pub max_output_bytes: usize,
}

/// Bytes in one MiB.
pub const BYTES_PER_MB: u64 = 1048576;

/// The largest size limit in MiB whose value in bytes fits in a `u64`.
pub const MAX_FILE_SIZE_MB: u64 = 17592186044415;

} // verus!
