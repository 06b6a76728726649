use xtask::invocation::{
    clippy_command_args, denies_warnings, diagnostic_line, resolve_program, ClippyArgs,
};
use xtask::outcome::{finish, ClippyError, ProcessOutcome};
use xtask::rules::migratory_rules_to_allow;

fn args(fix: bool, package: Option<&str>) -> ClippyArgs {
    ClippyArgs {
        fix,
        package: package.map(|p| p.to_string()),
    }
}

fn allow_count(v: &[String]) -> usize {
    v.iter().filter(|a| a.as_str() == "--allow").count()
}

#[test]
fn no_fix_whole_workspace_full_vector() {
    let v = clippy_command_args(&args(false, None), true);
    let mut expected: Vec<String> = [
        "clippy",
        "--workspace",
        "--release",
        "--all-targets",
        "--all-features",
        "--",
        "--deny",
        "warnings",
    ]
    .iter()
    .map(|s| s.to_string())
    .collect();
    for rule in migratory_rules_to_allow() {
        expected.push("--allow".to_string());
        expected.push(rule.to_string());
    }
    for s in ["--deny", "clippy::dbg_macro", "--deny", "clippy::todo"] {
        expected.push(s.to_string());
    }
    assert_eq!(v, expected);
}

#[test]
fn fix_with_package_vector() {
    let v = clippy_command_args(&args(true, Some("editor")), true);
    assert_eq!(
        v,
        vec![
            "clippy",
            "--package",
            "editor",
            "--release",
            "--all-targets",
            "--all-features",
            "--fix",
            "--",
            "--deny",
            "warnings",
            "--deny",
            "clippy::dbg_macro",
            "--deny",
            "clippy::todo",
        ]
    );
    assert_eq!(allow_count(&v), 0);
}

#[test]
fn fix_never_allows_rules() {
    for pkg in [None, Some("foo")] {
        for deny_warnings in [true, false] {
            let v = clippy_command_args(&args(true, pkg), deny_warnings);
            assert_eq!(allow_count(&v), 0);
        }
    }
}

#[test]
fn no_fix_allows_each_rule_once_in_order() {
    let rules = migratory_rules_to_allow();
    let v = clippy_command_args(&args(false, Some("foo")), false);
    assert_eq!(allow_count(&v), rules.len());
    let start = v.iter().position(|a| a == "--allow").unwrap();
    for (j, rule) in rules.iter().enumerate() {
        assert_eq!(v[start + 2 * j], "--allow");
        assert_eq!(v[start + 2 * j + 1], *rule);
    }
    assert_eq!(v[start - 1], "--");
}

#[test]
fn deny_flags_once_and_last() {
    for fix in [true, false] {
        for deny_warnings in [true, false] {
            let v = clippy_command_args(&args(fix, None), deny_warnings);
            let n = v.len();
            assert_eq!(
                &v[n - 4..],
                &["--deny", "clippy::dbg_macro", "--deny", "clippy::todo"]
            );
            assert_eq!(v.iter().filter(|a| *a == "clippy::dbg_macro").count(), 1);
            assert_eq!(v.iter().filter(|a| *a == "clippy::todo").count(), 1);
            let last_allow = v.iter().rposition(|a| a == "--allow");
            if let Some(k) = last_allow {
                assert!(k < n - 4);
            }
        }
    }
}

#[test]
fn package_selects_scope() {
    let v = clippy_command_args(&args(false, Some("foo")), true);
    assert_eq!(v[1], "--package");
    assert_eq!(v[2], "foo");
    assert!(!v.iter().any(|a| a == "--workspace"));

    let v = clippy_command_args(&args(false, None), true);
    assert_eq!(v[1], "--workspace");
    assert!(!v.iter().any(|a| a == "--package"));
}

#[test]
fn warnings_flag_only_when_asked() {
    let v = clippy_command_args(&args(true, None), false);
    assert!(!v.iter().any(|a| a == "warnings"));
    let sep = v.iter().position(|a| a == "--").unwrap();
    assert_eq!(v[sep + 1], "--deny");
    assert_eq!(v[sep + 2], "clippy::dbg_macro");
}

#[test]
fn migratory_rule_list_bounds() {
    let rules = migratory_rules_to_allow();
    assert_eq!(rules.len(), 64);
    assert_eq!(rules[0], "clippy::style");
    assert_eq!(rules[1], "clippy::almost_complete_range");
    assert_eq!(rules[rules.len() - 1], "clippy::vec_init_then_push");
    assert!(rules.iter().all(|r| r.starts_with("clippy::")));
}

#[test]
fn zero_exit_is_success() {
    assert!(finish(ProcessOutcome::Exited(Some(0))).is_ok());
}

#[test]
fn nonzero_exit_is_lint_failure_with_status() {
    match finish(ProcessOutcome::Exited(Some(101))) {
        Err(ClippyError::LintFailure(code)) => assert_eq!(code, Some(101)),
        _ => panic!("expected a lint failure"),
    }
    match finish(ProcessOutcome::Exited(Some(-1))) {
        Err(ClippyError::LintFailure(code)) => assert_eq!(code, Some(-1)),
        _ => panic!("expected a lint failure"),
    }
}

#[test]
fn exit_without_code_is_lint_failure() {
    match finish(ProcessOutcome::Exited(None)) {
        Err(ClippyError::LintFailure(code)) => assert_eq!(code, None),
        _ => panic!("expected a lint failure"),
    }
}

#[test]
fn spawn_failure_is_reported() {
    match finish(ProcessOutcome::SpawnFailed("not found".to_string())) {
        Err(ClippyError::ProcessSpawnError(m)) => assert_eq!(m, "not found"),
        _ => panic!("expected a spawn error"),
    }
}

#[test]
fn wait_failure_is_reported() {
    match finish(ProcessOutcome::WaitFailed("interrupted".to_string())) {
        Err(ClippyError::ProcessWaitError(m)) => assert_eq!(m, "interrupted"),
        _ => panic!("expected a wait error"),
    }
}

#[test]
fn program_defaults_to_cargo() {
    assert_eq!(resolve_program(None), "cargo");
    assert_eq!(
        resolve_program(Some("/opt/bin/cargo".to_string())),
        "/opt/bin/cargo"
    );
}

#[test]
fn warnings_denied_everywhere_but_windows() {
    assert!(!denies_warnings("windows"));
    assert!(denies_warnings("linux"));
    assert!(denies_warnings("macos"));
    assert!(denies_warnings(""));
}

#[test]
fn diagnostic_line_joins_with_spaces() {
    let a = vec!["clippy".to_string(), "--workspace".to_string()];
    assert_eq!(diagnostic_line("cargo", &a), "running: cargo clippy --workspace");
    let one = vec!["clippy".to_string()];
    assert_eq!(diagnostic_line("c", &one), "running: c clippy");
    assert_eq!(diagnostic_line("cargo", &Vec::new()), "running: cargo ");
}
