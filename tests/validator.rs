use tool_executor::{
    AllowedExtensions, CompiledPattern, Denial, EnvironmentConfig, FileOperationsConfig,
    PolicyError, SecurityConfig, SecurityValidator, SystemCommandsConfig, glob_to_regex,
    normalize_path, is_whitespace, decide_path,
};

fn strings(v: &[&str]) -> Vec<String> {
    v.iter().map(|s| s.to_string()).collect()
}

fn create_test_config() -> SecurityConfig {
    SecurityConfig {
        file_operations: FileOperationsConfig {
            allowed_extensions: AllowedExtensions {
                read: vec![".txt".to_string()],
                write: vec![".txt".to_string()],
            },
            blocked_paths: vec!["/etc/*".to_string()],
            allowed_directories: vec!["/tmp/*".to_string()],
            max_file_size_mb: 10,
        },
        system_commands: SystemCommandsConfig {
            enabled: true,
            allowlist: vec!["ls".to_string(), "pwd".to_string()],
            blocked_patterns: vec!["rm -rf".to_string()],
            timeout_seconds: 10,
        },
        environment: EnvironmentConfig {
            sandbox_user: "test".to_string(),
            max_execution_time_ms: 5000,
            max_output_bytes: 1048576,
        },
    }
}

#[test]
fn test_blocked_path() {
    let config = create_test_config();
    let validator = SecurityValidator::from_config(config).unwrap();

    let result = validator.validate_file_read("/etc/passwd");
    assert!(result.is_err());
}

#[test]
fn test_allowed_path() {
    let config = create_test_config();
    let validator = SecurityValidator::from_config(config).unwrap();

    let result = validator.validate_file_read("/tmp/test.txt");
    assert!(result.is_ok());
}

#[test]
fn test_command_allowlist() {
    let config = create_test_config();
    let validator = SecurityValidator::from_config(config).unwrap();

    assert!(validator.validate_command("ls -la").is_ok());
    assert!(validator.validate_command("whoami").is_err());
}

#[test]
fn test_blocked_pattern() {
    let config = create_test_config();
    let validator = SecurityValidator::from_config(config).unwrap();

    let result = validator.validate_command("rm -rf /");
    assert!(result.is_err());
}

#[test]
fn read_scenario_reasons() {
    let v = SecurityValidator::from_config(create_test_config()).unwrap();
    assert_eq!(v.validate_file_read("/etc/passwd"), Err(Denial::Blocked));
    assert_eq!(v.validate_file_read("/tmp/test.txt"), Ok(()));
    assert_eq!(v.validate_file_read("/tmp/test"), Err(Denial::NoExtension));
}

#[test]
fn command_scenario_reasons() {
    let v = SecurityValidator::from_config(create_test_config()).unwrap();
    assert_eq!(v.validate_command("ls -la"), Ok(()));
    assert_eq!(v.validate_command("whoami"), Err(Denial::NotAllowlisted));
    assert_eq!(v.validate_command("rm -rf /"), Err(Denial::NotAllowlisted));
}

#[test]
fn blocked_substring_overrides_allowlist() {
    let v = SecurityValidator::from_config(create_test_config()).unwrap();
    assert_eq!(v.validate_command("ls -la; rm -rf /"), Err(Denial::BlockedPattern));
}

#[test]
fn empty_and_blank_commands() {
    let v = SecurityValidator::from_config(create_test_config()).unwrap();
    assert_eq!(v.validate_command(""), Err(Denial::EmptyCommand));
    assert_eq!(v.validate_command(" \t "), Err(Denial::EmptyCommand));
    assert_eq!(v.validate_command("  pwd  "), Ok(()));
}

#[test]
fn command_name_is_case_sensitive() {
    let v = SecurityValidator::from_config(create_test_config()).unwrap();
    assert_eq!(v.validate_command("LS"), Err(Denial::NotAllowlisted));
    assert_eq!(v.validate_command("lsx"), Err(Denial::NotAllowlisted));
}

#[test]
fn disabled_commands_are_denied() {
    let mut config = create_test_config();
    config.system_commands.enabled = false;
    let v = SecurityValidator::from_config(config).unwrap();
    assert_eq!(v.validate_command("ls -la"), Err(Denial::CommandsDisabled));
    assert_eq!(v.validate_command("whoami"), Err(Denial::CommandsDisabled));
    assert_eq!(v.validate_command(""), Err(Denial::CommandsDisabled));
    assert!(!v.is_commands_enabled());
}

#[test]
fn blocked_takes_precedence_over_allowed() {
    let mut config = create_test_config();
    config.file_operations.allowed_directories = strings(&["*"]);
    config.file_operations.blocked_paths = strings(&["/tmp/secret*"]);
    let v = SecurityValidator::from_config(config).unwrap();
    assert_eq!(v.validate_file_read("/tmp/secret.txt"), Err(Denial::Blocked));
    assert_eq!(v.validate_file_write("/tmp/secret.txt"), Err(Denial::Blocked));
    assert_eq!(v.validate_file_read("/tmp/public.txt"), Ok(()));
}

#[test]
fn outside_allowed_directories_is_denied() {
    let v = SecurityValidator::from_config(create_test_config()).unwrap();
    assert_eq!(v.validate_file_read("/home/user/a.txt"), Err(Denial::NotAllowlisted));
    assert_eq!(v.validate_file_write("/var/a.txt"), Err(Denial::NotAllowlisted));
}

#[test]
fn extension_rules() {
    let mut config = create_test_config();
    config.file_operations.allowed_extensions.write = strings(&[".md"]);
    let v = SecurityValidator::from_config(config).unwrap();
    assert_eq!(v.validate_file_read("/tmp/a.md"), Err(Denial::ExtensionNotAllowed));
    assert_eq!(v.validate_file_write("/tmp/a.md"), Ok(()));
    assert_eq!(v.validate_file_write("/tmp/a.txt"), Err(Denial::ExtensionNotAllowed));
    assert_eq!(v.validate_file_read("/tmp/.bashrc"), Err(Denial::NoExtension));
    assert_eq!(v.validate_file_read("/tmp/a.tar.txt"), Ok(()));
    assert_eq!(v.validate_file_read("/tmp/dir.txt/file"), Err(Denial::NoExtension));
    assert_eq!(v.validate_file_read("/tmp/a."), Err(Denial::ExtensionNotAllowed));
}

#[test]
fn repeated_reads_agree() {
    let v = SecurityValidator::from_config(create_test_config()).unwrap();
    for p in ["/etc/passwd", "/tmp/test.txt", "/tmp/test", "/var/x.txt"] {
        assert_eq!(v.validate_file_read(p), v.validate_file_read(p));
    }
}

#[test]
fn matching_is_anchored() {
    let mut config = create_test_config();
    config.file_operations.blocked_paths = strings(&["/etc/passwd"]);
    config.file_operations.allowed_directories = strings(&["*"]);
    config.file_operations.allowed_extensions.read = strings(&[".txt", ".bak"]);
    let v = SecurityValidator::from_config(config).unwrap();
    assert_eq!(v.validate_file_read("/etc/passwd"), Err(Denial::Blocked));
    assert_eq!(v.validate_file_read("/etc/passwd_backup.bak"), Ok(()));
    assert_eq!(v.validate_file_read("/x/etc/passwd"), Err(Denial::NoExtension));
}

#[test]
fn glob_translation_escapes_meta_characters() {
    assert_eq!(glob_to_regex("/tmp/*.txt"), "(?s)^/tmp/.*\\.txt$");
    assert_eq!(glob_to_regex("a?b"), "(?s)^a.b$");
    assert_eq!(glob_to_regex("c++(1)[x]"), "(?s)^c\\+\\+\\(1\\)\\[x\\]$");
    assert_eq!(glob_to_regex(""), "(?s)^$");
}

#[test]
fn compiled_pattern_matches_whole_candidate() {
    let p = CompiledPattern::compile("/data/c++(v?)/*").unwrap();
    assert_eq!(p.glob(), "/data/c++(v?)/*");
    assert!(p.matches("/data/c++(v2)/notes.txt"));
    assert!(p.matches("/data/c++(v2)/"));
    assert!(!p.matches("/data/cc(v2)/notes.txt"));
    assert!(!p.matches("/data/c++(v22)/notes.txt"));
    assert!(!p.matches("x/data/c++(v2)/a"));
    let q = CompiledPattern::compile("/tmp/?").unwrap();
    assert!(q.matches("/tmp/\u{e9}"));
    assert!(!q.matches("/tmp/ab"));
    let star = CompiledPattern::compile("/tmp/*").unwrap();
    assert!(star.matches("/tmp/a\nb"));
}

#[test]
fn home_shorthand_is_expanded_before_matching() {
    let mut config = create_test_config();
    config.file_operations.blocked_paths = strings(&["~*"]);
    config.file_operations.allowed_directories = strings(&["*"]);
    let v = SecurityValidator::from_config(config).unwrap();
    assert_eq!(v.validate_file_read("~/notes.txt"), Ok(()));
    assert_eq!(v.validate_file_read("~other/notes.txt"), Err(Denial::Blocked));
}

#[test]
fn oversized_limit_is_refused() {
    let mut config = create_test_config();
    config.file_operations.max_file_size_mb = u64::MAX;
    assert!(matches!(
        SecurityValidator::from_config(config),
        Err(PolicyError::FileSizeLimitTooLarge)
    ));
}

#[test]
fn getters_report_the_policy() {
    let v = SecurityValidator::from_config(create_test_config()).unwrap();
    assert_eq!(v.get_max_file_size(), 10 * 1024 * 1024);
    assert_eq!(v.get_command_timeout(), 10);
    assert_eq!(v.get_allowed_read_extensions(), &[".txt".to_string()][..]);
    assert!(v.is_commands_enabled());
    assert_eq!(v.config().environment.sandbox_user, "test");
}

#[test]
fn relative_segments_are_resolved_before_matching() {
    let v = SecurityValidator::from_config(create_test_config()).unwrap();
    assert_eq!(v.validate_file_read("/tmp/../etc/passwd.txt"), Err(Denial::Blocked));
    assert_eq!(v.validate_file_write("/tmp/a/../../etc/x.txt"), Err(Denial::Blocked));
    assert_eq!(v.validate_file_read("/tmp/./sub//test.txt"), Ok(()));
    assert_eq!(v.validate_file_read("tmp/test.txt"), Err(Denial::NotAllowlisted));
}

#[test]
fn canonical_forms() {
    assert_eq!(normalize_path("/a/./b/../c/"), "/a/c");
    assert_eq!(normalize_path("/../x"), "/x");
    assert_eq!(normalize_path("../a/.."), "..");
    assert_eq!(normalize_path("../../b"), "../../b");
    assert_eq!(normalize_path("/"), "/");
    assert_eq!(normalize_path(""), "");
    assert_eq!(normalize_path("/tmp/test.txt"), "/tmp/test.txt");
}

#[test]
fn whitespace_matches_std() {
    for code in 0u32..0x3100 {
        if let Some(c) = char::from_u32(code) {
            assert_eq!(is_whitespace(c), c.is_whitespace(), "U+{:04X}", code);
        }
    }
    assert_eq!(is_whitespace('\u{feff}'), '\u{feff}'.is_whitespace());
}

#[test]
fn test_policy_loads() {
    assert!(SecurityValidator::from_config(create_test_config()).is_ok());
}

#[test]
fn decision_after_matching() {
    let exts = vec![".txt".to_string()];
    assert_eq!(decide_path(true, false, "/etc/passwd", &exts), Err(Denial::Blocked));
    assert_eq!(decide_path(true, true, "/tmp/a.txt", &exts), Err(Denial::Blocked));
    assert_eq!(decide_path(false, true, "/tmp/test.txt", &exts), Ok(()));
    assert_eq!(decide_path(false, true, "/tmp/test", &exts), Err(Denial::NoExtension));
    assert_eq!(decide_path(false, false, "/tmp/test.txt", &exts), Err(Denial::NotAllowlisted));
    assert_eq!(decide_path(false, true, "/tmp/test.md", &exts), Err(Denial::ExtensionNotAllowed));
}
