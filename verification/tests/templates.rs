use claude_forge::language::Language;
use claude_forge::registry::TemplateRegistry;

#[test]
fn test_dedicated_language_templates() {
    let registry = TemplateRegistry::new();
    let rust_doc = registry.get_language_claude_md(Language::Rust);
    assert!(rust_doc.starts_with("# Rust Project Memory"));
    assert!(rust_doc.contains("cargo build"));
    assert!(rust_doc.contains("## CLI Tool Usage (When Using Bash)"));

    let ts_doc = registry.get_language_claude_md(Language::TypeScript);
    assert!(ts_doc.starts_with("# TypeScript Project Memory"));
    assert!(ts_doc.contains("npm run build"));
}

#[test]
fn test_generic_template_partition() {
    let registry = TemplateRegistry::new();
    let python_doc = registry.get_language_claude_md(Language::Python);
    assert!(python_doc.starts_with("# Python Project Memory"));
    assert!(python_doc.contains("pytest"));

    for lang in [Language::Go, Language::Java, Language::Elixir, Language::Erlang,
                 Language::JavaScript] {
        let doc = registry.get_language_claude_md(lang);
        assert!(doc.starts_with("# Project Memory"), "generic fallback for {:?}", lang);
    }
    assert_eq!(
        TemplateRegistry::get_generic_template(Language::Go),
        TemplateRegistry::get_generic_template(Language::Erlang)
    );
}

#[test]
fn test_claudeignore_template() {
    let registry = TemplateRegistry::new();
    let ignore = registry.get_claudeignore_template();
    assert!(ignore.contains("node_modules/"));
    assert!(ignore.contains("target/"));
    assert!(ignore.contains(".env"));
    assert!(ignore.contains("__pycache__/"));
}

#[test]
fn test_builtin_agent_templates() {
    let registry = TemplateRegistry::new();
    let auditor = registry.get_default_agent_template("code-auditor");
    assert!(auditor.contains("name: code-auditor"));
    assert!(auditor.contains("# Code Auditor Agent"));

    let scanner = registry.get_default_agent_template("security-scanner");
    assert!(scanner.contains("name: security-scanner"));
    assert!(scanner.contains("# Security Scanner Agent"));
}

#[test]
fn test_unknown_agent_falls_back_with_name() {
    let registry = TemplateRegistry::new();
    let custom = registry.get_default_agent_template("db-migrator");
    assert!(custom.contains("name: db-migrator"));
    assert!(custom.contains("# db-migrator"));
    assert!(custom.contains("Describe the agent's purpose"));
}

#[test]
fn test_command_templates() {
    let registry = TemplateRegistry::new();
    assert!(registry.get_default_command_template("analyze").contains("Analyze the codebase"));
    assert!(registry.get_default_command_template("refactor").contains("refactoring opportunities"));
    let fallback = registry.get_default_command_template("db-migrate");
    assert!(fallback.contains("Custom command"));
    assert!(fallback.contains("# db-migrate"));
    assert!(!fallback.contains("{name}"));
}

#[test]
fn test_hook_templates_honor_protocol() {
    let registry = TemplateRegistry::new();
    for name in ["format", "prettier-format", "lint", "eslint-check", "my-hook"] {
        let hook = registry.get_default_hook_template(name, None);
        assert!(hook.starts_with("#!/bin/bash"), "hook {} must be a shell script", name);
        assert!(hook.contains("input=$(cat)"), "hook {} must read stdin once", name);
        assert!(hook.trim_end().ends_with("exit 0"), "hook {} must always succeed", name);
    }
    assert!(registry.get_default_hook_template("format", None).contains("prettier"));
    assert_eq!(
        registry.get_default_hook_template("format", None),
        registry.get_default_hook_template("prettier-format", None)
    );
    assert!(registry.get_default_hook_template("lint", None).contains("eslint"));
    let custom = registry.get_default_hook_template("custom", Some("PostToolUse"));
    assert!(custom.contains("jq ."));
    assert!(custom.contains("# Custom hook: custom"));
}
