use std::sync::Arc;
use tool_executor::{
    AllowedExtensions, Denial, EnvironmentConfig, FileExecutor, FileOperationsConfig,
    RunOutcome, SecurityConfig, SecurityValidator, SystemCommandsConfig, SystemExecutor,
    ToolError, truncate_output, cut_text, capture,
};

fn policy(max_output_bytes: usize) -> Arc<SecurityValidator> {
    let config = SecurityConfig {
        file_operations: FileOperationsConfig {
            allowed_extensions: AllowedExtensions {
                read: vec![".txt".to_string()],
                write: vec![".txt".to_string()],
            },
            blocked_paths: vec!["/etc/*".to_string()],
            allowed_directories: vec!["/tmp/*".to_string()],
            max_file_size_mb: 1,
        },
        system_commands: SystemCommandsConfig {
            enabled: true,
            allowlist: vec!["ls".to_string(), "sleep".to_string()],
            blocked_patterns: vec!["rm -rf".to_string()],
            timeout_seconds: 2,
        },
        environment: EnvironmentConfig {
            sandbox_user: "test".to_string(),
            max_execution_time_ms: 5000,
            max_output_bytes,
        },
    };
    Arc::new(SecurityValidator::from_config(config).unwrap())
}

#[test]
fn write_one_byte_over_limit_is_rejected() {
    let files = FileExecutor::new(policy(16));
    let max = 1024 * 1024;
    assert_eq!(
        files.check_write("/tmp/out.txt", max as usize + 1),
        Err(ToolError::SizeExceeded { size: max + 1, max })
    );
    assert_eq!(files.check_write("/tmp/out.txt", max as usize), Ok("/tmp/out.txt".to_string()));
}

#[test]
fn write_denial_comes_before_size() {
    let files = FileExecutor::new(policy(16));
    assert_eq!(
        files.check_write("/etc/out.txt", 10 * 1024 * 1024),
        Err(ToolError::Denied(Denial::Blocked))
    );
}

#[test]
fn read_checks() {
    let files = FileExecutor::new(policy(16));
    assert_eq!(files.check_read("/tmp/in.txt"), Ok("/tmp/in.txt".to_string()));
    assert_eq!(files.check_read("/tmp/x/../in.txt"), Ok("/tmp/in.txt".to_string()));
    assert_eq!(files.check_read("/tmp/../etc/in.txt"), Err(ToolError::Denied(Denial::Blocked)));
    assert_eq!(files.check_read("/etc/hosts"), Err(ToolError::Denied(Denial::Blocked)));
    assert_eq!(files.check_read_target(false, 0), Err(ToolError::NotFound));
    assert_eq!(
        files.check_read_target(true, 1024 * 1024 + 1),
        Err(ToolError::SizeExceeded { size: 1024 * 1024 + 1, max: 1024 * 1024 })
    );
    assert_eq!(files.check_read_target(true, 1024 * 1024), Ok(()));
}

#[test]
fn listing_checks() {
    let files = FileExecutor::new(policy(16));
    assert_eq!(files.check_list_target(false, false), Err(ToolError::NotFound));
    assert_eq!(files.check_list_target(true, false), Err(ToolError::NotADirectory));
    assert_eq!(files.check_list_target(true, true), Ok(()));
}

#[test]
fn prepare_splits_without_a_shell() {
    let cmds = SystemExecutor::new(policy(16));
    let (program, args) = cmds.prepare("  ls   -la\t/tmp ").unwrap();
    assert_eq!(program, "ls");
    assert_eq!(args, vec!["-la".to_string(), "/tmp".to_string()]);
    assert_eq!(cmds.prepare("whoami"), Err(ToolError::Denied(Denial::NotAllowlisted)));
    assert_eq!(cmds.prepare("ls /tmp && rm -rf /"), Err(ToolError::Denied(Denial::BlockedPattern)));
    assert_eq!(cmds.timeout_seconds(), 2);
}

#[test]
fn timeout_outcomes() {
    let cmds = SystemExecutor::new(policy(16));
    assert!(matches!(
        cmds.finish(RunOutcome::TimedOut { killed: true }),
        Err(ToolError::ExecutionTimeout)
    ));
    assert!(matches!(
        cmds.finish(RunOutcome::TimedOut { killed: false }),
        Err(ToolError::OrphanRisk)
    ));
    assert!(matches!(cmds.finish(RunOutcome::SpawnFailed), Err(ToolError::SpawnFailed)));
}

#[test]
fn finished_output_is_bounded() {
    let cmds = SystemExecutor::new(policy(4));
    let r = cmds
        .finish(RunOutcome::Exited {
            stdout: b"hello".to_vec(),
            stderr: b"err".to_vec(),
            code: None,
            success: false,
        })
        .unwrap();
    assert_eq!(r.stdout, "hell");
    assert_eq!(r.stderr, "err");
    assert_eq!(r.exit_code, -1);
    assert!(!r.success);
    assert!(r.truncated);
}

#[test]
fn finished_output_is_decoded() {
    let cmds = SystemExecutor::new(policy(16));
    let r = cmds
        .finish(RunOutcome::Exited {
            stdout: vec![b'o', b'k', 0xff],
            stderr: Vec::new(),
            code: Some(3),
            success: true,
        })
        .unwrap();
    assert_eq!(r.stdout, "ok\u{fffd}");
    assert_eq!(r.stderr, "");
    assert_eq!(r.exit_code, 3);
    assert!(r.success);
    assert!(!r.truncated);
}

#[test]
fn truncation_edges() {
    assert_eq!(truncate_output(&vec![1, 2, 3], 3), (vec![1, 2, 3], false));
    assert_eq!(truncate_output(&vec![1, 2, 3], 0), (vec![], true));
    assert_eq!(truncate_output(&vec![], 0), (vec![], false));
}

#[test]
fn write_to_oversize_allowed_path_returns_no_path() {
    let files = FileExecutor::new(policy(16));
    let max = 1024 * 1024;
    assert!(matches!(
        files.check_write("/tmp/a/../b.txt", max + 1),
        Err(ToolError::SizeExceeded { .. })
    ));
    assert_eq!(files.check_write("/tmp/a/../b.txt", 3), Ok("/tmp/b.txt".to_string()));
}

#[test]
fn resolved_paths_are_checked_again() {
    let files = FileExecutor::new(policy(16));
    assert_eq!(
        files.check_resolved_read("/tmp/a.txt", "/tmp/a.txt"),
        Ok("/tmp/a.txt".to_string())
    );
    assert_eq!(
        files.check_resolved_read("/tmp/link.txt", "/etc/shadow.txt"),
        Err(ToolError::Denied(Denial::Blocked))
    );
    assert_eq!(
        files.check_resolved_read("/tmp/link.txt", "/tmp/real/file.txt"),
        Ok("/tmp/real/file.txt".to_string())
    );
    assert_eq!(
        files.check_resolved_write("/tmp/link.txt", "/var/x.txt", 1),
        Err(ToolError::Denied(Denial::NotAllowlisted))
    );
    assert_eq!(
        files.check_resolved_write("/tmp/b.txt", "/tmp/b.txt", 1),
        Ok("/tmp/b.txt".to_string())
    );
}

#[test]
fn decoded_output_stays_within_limit() {
    let cmds = SystemExecutor::new(policy(4));
    let r = cmds
        .finish(RunOutcome::Exited {
            stdout: vec![0xff, 0xfe, b'a'],
            stderr: "h\u{e9}llo".as_bytes().to_vec(),
            code: Some(0),
            success: true,
        })
        .unwrap();
    assert!(r.stdout.len() <= 4);
    assert_eq!(r.stdout, "\u{fffd}");
    assert_eq!(r.stderr, "h\u{e9}l");
    assert!(r.truncated);
}

#[test]
fn text_cut_at_character_boundary() {
    assert_eq!(cut_text("abc", 3), ("abc".to_string(), false));
    assert_eq!(cut_text("abcd", 3), ("abc".to_string(), true));
    assert_eq!(cut_text("a\u{20ac}b", 3), ("a".to_string(), true));
    assert_eq!(cut_text("a\u{20ac}b", 4), ("a\u{20ac}".to_string(), true));
    assert_eq!(cut_text("\u{1f600}", 0), ("".to_string(), true));
    assert_eq!(capture(&vec![0xe2, 0x82, 0xac, b'z'], 2), (String::new(), true));
    assert_eq!(capture(&vec![0xe2, 0x82, 0xac, b'z'], 3), ("\u{20ac}".to_string(), true));
    assert_eq!(capture(&b"ok".to_vec(), 2), ("ok".to_string(), false));
}
