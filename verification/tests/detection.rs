use claude_forge::detector::{DetectError, DirListing, ProjectDetector};
use claude_forge::language::{Language, LanguageError};

fn dir(entries: &[&str], manifest: Option<&str>) -> DirListing {
    DirListing {
        entries: entries.iter().map(|e| e.to_string()).collect(),
        manifest: manifest.map(|m| m.to_string()),
    }
}

#[test]
fn test_detect_rust_project() {
    let detector = ProjectDetector::new();
    let result = detector.detect(&dir(&["Cargo.toml"], None)).unwrap();

    assert_eq!(result, Language::Rust);
}

#[test]
fn test_detect_typescript_project() {
    let detector = ProjectDetector::new();
    let result = detector
        .detect(&dir(
            &["tsconfig.json", "package.json"],
            Some(r#"{"dependencies": {"typescript": "^5.0.0"}}"#),
        ))
        .unwrap();

    assert_eq!(result, Language::TypeScript);
}

#[test]
fn test_primary_marker_per_language() {
    let detector = ProjectDetector::new();
    let cases = [
        ("tsconfig.json", Language::TypeScript),
        ("package.json", Language::JavaScript),
        ("pyproject.toml", Language::Python),
        ("go.mod", Language::Go),
        ("Cargo.toml", Language::Rust),
        ("pom.xml", Language::Java),
        ("mix.exs", Language::Elixir),
        ("rebar.config", Language::Erlang),
    ];
    for (marker, expected) in cases {
        assert_eq!(detector.detect(&dir(&[marker], None)).unwrap(), expected);
    }
}

#[test]
fn test_priority_order_pairs() {
    let detector = ProjectDetector::new();
    assert_eq!(detector.detect(&dir(&["Cargo.toml", "go.mod"], None)).unwrap(), Language::Rust);
    assert_eq!(
        detector.detect(&dir(&["go.mod", "package.json"], None)).unwrap(),
        Language::Go
    );
    assert_eq!(
        detector.detect(&dir(&["package.json", "pom.xml"], None)).unwrap(),
        Language::JavaScript
    );
    assert_eq!(
        detector.detect(&dir(&["pyproject.toml", "rebar.config"], None)).unwrap(),
        Language::Python
    );
    assert_eq!(
        detector.detect(&dir(&["mix.exs", "rebar.lock"], None)).unwrap(),
        Language::Elixir
    );
}

#[test]
fn test_typed_promotion_by_dependency() {
    let detector = ProjectDetector::new();
    let with_dep = dir(&["package.json"], Some(r#"{"devDependencies": {"typescript": "5.1"}}"#));
    assert_eq!(detector.detect(&with_dep).unwrap(), Language::TypeScript);

    let without_dep = dir(&["package.json"], Some(r#"{"dependencies": {"react": "18"}}"#));
    assert_eq!(detector.detect(&without_dep).unwrap(), Language::JavaScript);

    let broken_manifest = dir(&["package.json"], Some("not json at all"));
    assert_eq!(detector.detect(&broken_manifest).unwrap(), Language::JavaScript);
}

#[test]
fn test_not_detected() {
    let detector = ProjectDetector::new();
    let result = detector.detect(&dir(&["README.md", "LICENSE"], None));
    assert_eq!(result, Err(DetectError::NotDetected));
    assert_eq!(detector.detect(&dir(&[], None)), Err(DetectError::NotDetected));
}

#[test]
fn test_detect_framework() {
    let detector = ProjectDetector::new();
    let react = dir(&["package.json"], Some(r#"{"dependencies": {"react": "18"}}"#));
    assert_eq!(detector.detect_framework(&react, Language::JavaScript), Some("React".to_string()));

    let next_wins = dir(
        &["package.json"],
        Some(r#"{"dependencies": {"react": "18", "next": "14"}}"#),
    );
    assert_eq!(
        detector.detect_framework(&next_wins, Language::JavaScript),
        Some("Next.js".to_string())
    );

    let dev_only = dir(&["package.json"], Some(r#"{"devDependencies": {"react": "18"}}"#));
    assert_eq!(detector.detect_framework(&dev_only, Language::JavaScript), None);

    assert_eq!(detector.detect_framework(&dir(&["go.mod"], None), Language::Go), None);
}

#[test]
fn test_language_from_str() {
    assert_eq!(Language::from_str("typescript"), Ok(Language::TypeScript));
    assert_eq!(Language::from_str("TS"), Ok(Language::TypeScript));
    assert_eq!(Language::from_str("JavaScript"), Ok(Language::JavaScript));
    assert_eq!(Language::from_str("py"), Ok(Language::Python));
    assert_eq!(Language::from_str("GOLANG"), Ok(Language::Go));
    assert_eq!(Language::from_str("rs"), Ok(Language::Rust));
    assert_eq!(Language::from_str("java"), Ok(Language::Java));
    assert_eq!(Language::from_str("ex"), Ok(Language::Elixir));
    assert_eq!(Language::from_str("erl"), Ok(Language::Erlang));
    assert_eq!(Language::from_str("cobol"), Err(LanguageError::Unsupported));
    assert_eq!(Language::from_str(""), Err(LanguageError::Unsupported));
}

#[test]
fn test_language_names_and_markers() {
    assert_eq!(Language::Rust.to_string(), "Rust");
    assert_eq!(Language::TypeScript.to_string(), "TypeScript");
    assert_eq!(Language::Erlang.to_string(), "Erlang");
    assert_eq!(Language::Rust.marker_files(), vec!["Cargo.toml", "Cargo.lock"]);
    assert_eq!(
        Language::Java.marker_files(),
        vec!["pom.xml", "build.gradle", "build.gradle.kts"]
    );
    assert_eq!(Language::TypeScript.file_extensions(), vec!["ts", "tsx"]);
    assert_eq!(Language::Erlang.file_extensions(), vec!["erl", "hrl"]);
}
