//! Policy enforcement for a request-mediating sandbox: glob pattern
//! compilation, path and command validation, and the decisions that the file
//! and command executors take around the operating system calls.

mod audio;
mod executor;
mod path;
mod pattern;
mod policy;
mod text;
mod validator;

pub use audio::{
    AudioProcessor, VoiceGatewayServer, bytes_content, low_byte, high_byte, sample_of, le_bytes,
    samples_of, lemma_sample_bytes, lemma_le_bytes_index, lemma_samples_round_trip,
};
pub use executor::{
    ToolError, FileInfo, FileExecutor, denied, resolved, utf8_lossy, CommandResult, RunOutcome, bounded,
    truncate_output, SystemExecutor, lemma_oversize_write_rejected, utf8_len, utf8_size,
    fit_text, lemma_utf8_size_prefix, cut_text, captured_text, captured_cut, capture,
};
pub use path::{
    view_components, push_component, scan_path, join_components, is_absolute, normalize,
    normalize_path,
};
pub use pattern::{
    CompiledPattern, glob_to_regex, glob_regex, glob_body, glob_piece, is_regex_meta,
    regex_prefix, regex_source, regex_accepts, regex_is_match,
};
pub use policy::{
    SecurityConfig, FileOperationsConfig, AllowedExtensions, SystemCommandsConfig,
    EnvironmentConfig, BYTES_PER_MB, MAX_FILE_SIZE_MB,
};
pub use text::{split_words, words, unicode_whitespace, is_whitespace, contains_sub, view_strings};
pub use validator::{
    Denial, PolicyError, SecurityValidator, home_expandable, expansion_of, last_index_of,
    file_name, extension, dotted, decide, decide_path, any_matches, any_occurs, lemma_last_index_of,
    lemma_blocked_path_denied, lemma_outside_allowed_dirs_denied, lemma_no_extension_denied,
    lemma_read_decision_repeatable, lemma_unlisted_command_denied, lemma_disabled_commands_denied,
};
