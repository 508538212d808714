use claude_forge::generator::ConfigGenerator;
use claude_forge::language::Language;
use claude_forge::splice::splice_section;
use claude_forge::tools_detector::{InstalledTools, ToolsDetector};

fn probe(installed: bool) -> InstalledTools {
    InstalledTools {
        ripgrep: installed,
        fd: installed,
        bat: installed,
        eza: installed,
        dust: installed,
    }
}

#[test]
fn test_compose_none_installed_end_to_end() {
    let generator = ConfigGenerator::new(Language::Rust, false);
    let doc = generator.generate_claude_md(&probe(false));
    assert!(doc.starts_with("<!-- "));
    assert!(doc.contains("0/5"));
    assert_eq!(doc.matches("Consider installing").count(), 5);
    assert_eq!(doc.matches("- ALWAYS:").count(), 0);
    assert!(doc.contains("# Rust Project Memory"));
    assert!(doc.contains("Recommended Tools to Install"));
}

#[test]
fn test_compose_all_installed_end_to_end() {
    let generator = ConfigGenerator::new(Language::Rust, false);
    let doc = generator.generate_claude_md(&probe(true));
    assert!(doc.contains("5/5"));
    assert_eq!(doc.matches("- ALWAYS:").count(), 5);
    assert_eq!(doc.matches("Consider installing").count(), 0);
    assert!(!doc.contains("Recommended Tools to Install"));
    assert!(doc.contains("# Rust Project Memory"));
}

#[test]
fn test_resplice_is_idempotent() {
    let detector = ToolsDetector::new();
    for installed in [true, false] {
        let tools = probe(installed);
        let generator = ConfigGenerator::new(Language::TypeScript, false);
        let doc = generator.generate_claude_md(&tools);
        let section = detector.generate_tools_section(&tools);
        let again = splice_section(&doc, &section);
        assert_eq!(again, doc);
        let third = splice_section(&again, &section);
        assert_eq!(third, doc);
    }
}

#[test]
fn test_splice_replaces_bounded_region() {
    let base = "# Title\n\nIntro text.\n\n## CLI Tool Usage (old)\nold content\nmore old\n\n## Later Section\nkeep me\n";
    let out = splice_section(base, "## CLI Tool Usage (new)\nnew content\n");
    assert!(out.starts_with("# Title\n\nIntro text.\n\n## CLI Tool Usage (new)\nnew content\n"));
    assert!(out.ends_with("\n## Later Section\nkeep me\n"));
    assert!(!out.contains("old content"));
}

#[test]
fn test_splice_appends_when_heading_absent() {
    let base = "# Title\n\nNo tool section here.\n";
    let section = "## CLI Tool Usage (When Using Bash)\nfresh\n";
    let out = splice_section(base, section);
    assert_eq!(out, format!("{}\n{}", base, section));
}

#[test]
fn test_splice_replaces_to_end_without_boundary() {
    let base = "# Title\n\n## CLI Tool Usage (When Using Bash)\nold tail with no later heading\n";
    let out = splice_section(base, "SECTION");
    assert_eq!(out, "# Title\n\nSECTION");
}

#[test]
fn test_config_json_document() {
    let generator = ConfigGenerator::new(Language::Rust, false);
    let json = generator.generate_config_json();
    assert!(json.contains("\"language\": \"rust\""));
    assert!(json.contains("\"version\": \"1.0\""));
    assert!(json.contains("\"sdd_workflow\": true"));
    assert!(json.contains("\"modern_cli_tools\": true"));
    assert!(json.contains(".forge/hooks/session-init.sh"));
    let parsed: Result<serde_json::Value, _> = serde_json::from_str(&json);
    assert!(parsed.is_ok());
    let ts = ConfigGenerator::new(Language::TypeScript, true).generate_config_json();
    assert!(ts.contains("\"language\": \"typescript\""));
}

#[test]
fn test_generate_artifact_list() {
    let full = ConfigGenerator::new(Language::Rust, false);
    let artifacts = full.generate(&probe(false));
    let paths: Vec<&str> = artifacts.iter().map(|(p, _)| p.as_str()).collect();
    assert_eq!(
        paths,
        vec![
            ".forge/AGENTS.md",
            ".forge/config.json",
            ".claudeignore",
            ".forge/agents/code-auditor.md",
            ".forge/agents/security-scanner.md",
            ".forge/commands/analyze.md",
            ".forge/commands/refactor.md",
        ]
    );
    assert!(artifacts[0].1.starts_with("<!-- "));
    assert!(artifacts[2].1.contains("node_modules/"));

    let minimal = ConfigGenerator::new(Language::Rust, true);
    let few = minimal.generate(&probe(false));
    let few_paths: Vec<&str> = few.iter().map(|(p, _)| p.as_str()).collect();
    assert_eq!(few_paths, vec![".forge/AGENTS.md", ".claudeignore"]);
    assert_eq!(few[0].1, artifacts[0].1);
}

#[test]
fn test_default_scaffolds() {
    let generator = ConfigGenerator::new(Language::Go, false);
    let agents = generator.copy_default_agents();
    assert_eq!(agents.len(), 2);
    assert_eq!(agents[0].0, "code-auditor.md");
    assert_eq!(agents[1].0, "security-scanner.md");
    assert!(agents[0].1.contains("Code Auditor"));

    let commands = generator.copy_default_commands();
    assert_eq!(commands.len(), 2);
    assert_eq!(commands[0].0, "analyze.md");
    assert_eq!(commands[1].0, "refactor.md");

    let ignore = generator.generate_claudeignore();
    assert!(ignore.contains("node_modules/"));
}
