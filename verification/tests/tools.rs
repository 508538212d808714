use claude_forge::tools_detector::{InstalledTools, MissingTool, ToolsDetector};

fn all_installed() -> InstalledTools {
    InstalledTools { ripgrep: true, fd: true, bat: true, eza: true, dust: true }
}

fn none_installed() -> InstalledTools {
    InstalledTools { ripgrep: false, fd: false, bat: false, eza: false, dust: false }
}

#[test]
fn test_all_tools_installed() {
    let detector = ToolsDetector::new();
    let tools = InstalledTools {
        ripgrep: true,
        fd: true,
        bat: true,
        eza: true,
        dust: true,
    };

    let section = detector.generate_tools_section(&tools);
    assert!(section.contains("ALWAYS: `eza"));
    assert!(section.contains("ALWAYS: `rg"));
    assert!(!section.contains("Consider installing"));
}

#[test]
fn test_no_tools_installed() {
    let detector = ToolsDetector::new();
    let tools = InstalledTools {
        ripgrep: false,
        fd: false,
        bat: false,
        eza: false,
        dust: false,
    };

    let section = detector.generate_tools_section(&tools);
    assert!(section.contains("Consider installing"));
    assert!(section.contains("brew install"));
    assert!(!section.contains("ALWAYS:"));
}

#[test]
fn test_tools_status() {
    let detector = ToolsDetector::new();

    let all_installed = InstalledTools {
        ripgrep: true,
        fd: true,
        bat: true,
        eza: true,
        dust: true,
    };
    assert!(detector.generate_tools_status(&all_installed).contains("5/5"));

    let none_installed = InstalledTools {
        ripgrep: false,
        fd: false,
        bat: false,
        eza: false,
        dust: false,
    };
    assert!(detector.generate_tools_status(&none_installed).contains("0/5"));
}

#[test]
fn test_status_exact_wording() {
    let detector = ToolsDetector::new();
    assert_eq!(
        detector.generate_tools_status(&all_installed()),
        "All modern CLI tools installed (5/5)"
    );
    assert_eq!(
        detector.generate_tools_status(&none_installed()),
        "No modern CLI tools installed (0/5). Run `forge tools install`"
    );
    let two = InstalledTools { ripgrep: true, fd: true, bat: false, eza: false, dust: false };
    assert_eq!(
        detector.generate_tools_status(&two),
        "2/5 modern CLI tools installed. Run `forge tools check` to see details"
    );
}

#[test]
fn test_count_installed() {
    let detector = ToolsDetector::new();
    assert_eq!(detector.count_installed(&all_installed()), 5);
    assert_eq!(detector.count_installed(&none_installed()), 0);
    let three = InstalledTools { ripgrep: true, fd: false, bat: true, eza: false, dust: true };
    assert_eq!(detector.count_installed(&three), 3);
}

#[test]
fn test_missing_tools_catalog() {
    let detector = ToolsDetector::new();
    let missing: Vec<MissingTool> = detector.get_missing_tools(&none_installed());
    let names: Vec<&str> = missing.iter().map(|m| m.name).collect();
    assert_eq!(names, vec!["ripgrep", "fd", "bat", "eza", "dust"]);
    assert_eq!(missing[0].description, "Fast text search");
    assert_eq!(missing[0].install_cmd, "brew install ripgrep  # or: cargo install ripgrep");
    assert!(detector.get_missing_tools(&all_installed()).is_empty());
}

#[test]
fn test_partial_section_mixes_rules() {
    let detector = ToolsDetector::new();
    let tools = InstalledTools { ripgrep: true, fd: false, bat: true, eza: false, dust: false };
    let section = detector.generate_tools_section(&tools);
    assert!(section.contains("ALWAYS: `rg pattern`"));
    assert!(section.contains("ALWAYS: `bat filename`"));
    assert!(section.contains("Consider installing `eza`"));
    assert!(section.contains("Consider installing `dust`"));
    assert!(section.contains("Consider installing `fd`"));
    assert!(section.contains("Recommended Tools to Install"));
    assert!(!section.contains("# Fast text search\nbrew install ripgrep"));
    assert!(section.contains("# Fast file finder\nbrew install fd"));
}

#[test]
fn test_remediation_block_omitted_when_complete() {
    let detector = ToolsDetector::new();
    let section = detector.generate_tools_section(&all_installed());
    assert!(!section.contains("Recommended Tools to Install"));
    assert!(!section.contains("```bash"));
}
