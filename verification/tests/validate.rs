use claude_forge::checker::ToolsChecker;
use claude_forge::validator::{ClaudeDirState, ConfigValidator};

fn complete_state() -> ClaudeDirState {
    ClaudeDirState {
        dir_exists: true,
        has_claude_md: true,
        config_json: Some("{\"version\": \"1.0\"}".to_string()),
        has_agents_dir: true,
        has_commands_dir: true,
        has_hooks_dir: true,
    }
}

#[test]
fn test_validate_complete_tree() {
    let validator = ConfigValidator::new();
    assert!(validator.validate(&complete_state()).is_empty());
}

#[test]
fn test_validate_missing_tree_short_circuits() {
    let validator = ConfigValidator::new();
    let mut state = complete_state();
    state.dir_exists = false;
    state.has_claude_md = false;
    state.has_hooks_dir = false;
    assert_eq!(validator.validate(&state), vec![".forge directory not found".to_string()]);
}

#[test]
fn test_validate_reports_each_missing_piece() {
    let validator = ConfigValidator::new();
    let mut state = complete_state();
    state.has_claude_md = false;
    state.has_agents_dir = false;
    state.has_commands_dir = false;
    state.has_hooks_dir = false;
    assert_eq!(
        validator.validate(&state),
        vec![
            "AGENTS.md not found".to_string(),
            "agents directory not found".to_string(),
            "commands directory not found".to_string(),
            "hooks directory not found".to_string(),
        ]
    );
}

#[test]
fn test_validate_settings_json() {
    let validator = ConfigValidator::new();
    let mut state = complete_state();
    state.config_json = Some("{not valid json".to_string());
    assert_eq!(
        validator.validate(&state),
        vec!["config.json is not valid JSON".to_string()]
    );
    state.config_json = None;
    assert!(validator.validate(&state).is_empty());
    state.config_json = Some("[1, 2, 3]".to_string());
    assert!(validator.validate(&state).is_empty());
}

#[test]
fn test_version_first_line() {
    let checker = ToolsChecker::new();
    assert_eq!(checker.version_first_line("ripgrep 13.0.0\nextra\nlines"), "ripgrep 13.0.0");
    assert_eq!(checker.version_first_line("bat 0.24.0"), "bat 0.24.0");
    assert_eq!(checker.version_first_line("tool 1.0\r\nrest"), "tool 1.0");
    assert_eq!(checker.version_first_line(""), "unknown");
    assert_eq!(checker.version_first_line("\n"), "");
    assert_eq!(checker.version_first_line("abc\r"), "abc\r");
}

#[test]
fn test_check_all_probes_fixed_catalog() {
    let checker = ToolsChecker::new();
    let results = checker.check_all();
    let names: Vec<&str> = results.iter().map(|(n, _)| n.as_str()).collect();
    assert_eq!(names, vec!["rg", "fd", "bat", "eza", "dust"]);
}
