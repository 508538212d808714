use vstd::prelude::*;
use vstd::string::*;

use crate::language::{spec_marker_files, spec_priority_rank, Language};
use crate::strutil::str_eq;

verus! {

/// The filesystem evidence that detection inspects: the names of the
/// immediate children of the project directory, and the contents of the
/// generic manifest (package.json) when one is present and readable.
pub struct DirListing {
    pub entries: Vec<String>,
    pub manifest: Option<String>,
}

/// The outcome when no language's markers are present.
#[derive(Debug, Clone, Copy, PartialEq, Eq, Structural)]
pub enum DetectError {
    NotDetected,
}

/// Detects the project language from directory evidence by scanning a fixed
/// priority order of marker files.
pub struct ProjectDetector;

/// Whether a package manifest's declared "dependencies" or "devDependencies"
/// contain `name` as a key; a manifest that does not parse declares nothing.
/// The result depends on the two texts alone.
pub uninterp spec fn manifest_lists_dependency(manifest: Seq<char>, name: Seq<char>) -> bool;

/// Whether a package manifest's runtime "dependencies" alone contain `name`
/// as a key; a manifest that does not parse declares nothing. The result
/// depends on the two texts alone.
pub uninterp spec fn manifest_lists_runtime_dependency(
    manifest: Seq<char>,
    name: Seq<char>,
) -> bool;

/// Relies on serde_json::from_str and serde_json::Value::get: parses the
/// manifest and looks `name` up under "dependencies" and "devDependencies".
#[verifier::external_body]
fn manifest_declares_dependency(manifest: &str, name: &str) -> (r: bool)
    ensures
        r == manifest_lists_dependency(manifest@, name@),
{
    match serde_json::from_str::<serde_json::Value>(manifest) {
        Ok(v) => {
            v.get("dependencies").and_then(|d| d.get(name)).is_some() || v.get(
                "devDependencies",
            ).and_then(|d| d.get(name)).is_some()
        },
        Err(_) => false,
    }
}

/// Relies on serde_json::from_str and serde_json::Value::get: parses the
/// manifest and looks `name` up under "dependencies" only.
#[verifier::external_body]
fn manifest_declares_runtime_dependency(manifest: &str, name: &str) -> (r: bool)
    ensures
        r == manifest_lists_runtime_dependency(manifest@, name@),
{
    match serde_json::from_str::<serde_json::Value>(manifest) {
        Ok(v) => v.get("dependencies").and_then(|d| d.get(name)).is_some(),
        Err(_) => false,
    }
}

/// The manifest contents as a character sequence, when present.
pub open spec fn spec_manifest_view(d: &DirListing) -> Option<Seq<char>> {
    match d.manifest {
        Some(m) => Some(m@),
        None => None,
    }
}

/// Whether the directory holds at least one marker file of `l`.
pub open spec fn spec_has_marker(entries: Seq<Seq<char>>, l: Language) -> bool {
    exists|m: Seq<char>| #[trigger] entries.contains(m) && spec_marker_files(l).contains(m)
}

/// Whether the evidence points at the typed scripting variant: a type-checker
/// config at the root, or the type-checker package among the manifest's
/// declared dependencies or dev-dependencies.
pub open spec fn spec_is_typescript(entries: Seq<Seq<char>>, manifest: Option<Seq<char>>) -> bool {
    entries.contains("tsconfig.json"@) || (match manifest {
        Some(m) => manifest_lists_dependency(m, "typescript"@),
        None => false,
    })
}

/// The detected language: the first language in priority order with a marker
/// present wins; a match on the scripting family is settled in favor of the
/// typed variant exactly when the typed evidence is present.
pub open spec fn spec_detect(entries: Seq<Seq<char>>, manifest: Option<Seq<char>>) -> Option<
    Language,
> {
    if spec_has_marker(entries, Language::Rust) {
        Some(Language::Rust)
    } else if spec_has_marker(entries, Language::Go) {
        Some(Language::Go)
    } else if spec_has_marker(entries, Language::TypeScript) || spec_has_marker(
        entries,
        Language::JavaScript,
    ) {
        if spec_is_typescript(entries, manifest) {
            Some(Language::TypeScript)
        } else {
            Some(Language::JavaScript)
        }
    } else if spec_has_marker(entries, Language::Python) {
        Some(Language::Python)
    } else if spec_has_marker(entries, Language::Java) {
        Some(Language::Java)
    } else if spec_has_marker(entries, Language::Elixir) {
        Some(Language::Elixir)
    } else if spec_has_marker(entries, Language::Erlang) {
        Some(Language::Erlang)
    } else {
        None
    }
}

/// The first framework in the fixed table whose dependency the manifest
/// declares at runtime, as a display label.
pub open spec fn spec_detect_framework(manifest: Option<Seq<char>>) -> Option<Seq<char>> {
    match manifest {
        None => None,
        Some(m) => {
            if manifest_lists_runtime_dependency(m, "next"@) {
                Some("Next.js"@)
            } else if manifest_lists_runtime_dependency(m, "react"@) {
                Some("React"@)
            } else if manifest_lists_runtime_dependency(m, "vue"@) {
                Some("Vue"@)
            } else if manifest_lists_runtime_dependency(m, "express"@) {
                Some("Express"@)
            } else if manifest_lists_runtime_dependency(m, "fastify"@) {
                Some("Fastify"@)
            } else if manifest_lists_runtime_dependency(m, "nestjs"@) {
                Some("NestJS"@)
            } else {
                None
            }
        },
    }
}

impl ProjectDetector {
    pub fn new() -> (r: ProjectDetector) {
        ProjectDetector
    }

    /// Detects the project language, or fails with `NotDetected` when no
    /// recognized marker is present; detection is a pure function of the
    /// directory evidence.
    pub fn detect(&self, dir: &DirListing) -> (r: Result<Language, DetectError>)
        ensures
            match spec_detect(dir.entries.deep_view(), spec_manifest_view(dir)) {
                Some(l) => r == Ok::<Language, DetectError>(l),
                None => r == Err::<Language, DetectError>(DetectError::NotDetected),
            },
    {
        if self.has_marker_files(dir, &Language::Rust) {
            return Ok(Language::Rust);
        }
        if self.has_marker_files(dir, &Language::Go) {
            return Ok(Language::Go);
        }
        if self.has_marker_files(dir, &Language::TypeScript) || self.has_marker_files(
            dir,
            &Language::JavaScript,
        ) {
            return if self.is_typescript_project(dir) {
                Ok(Language::TypeScript)
            } else {
                Ok(Language::JavaScript)
            };
        }
        if self.has_marker_files(dir, &Language::Python) {
            return Ok(Language::Python);
        }
        if self.has_marker_files(dir, &Language::Java) {
            return Ok(Language::Java);
        }
        if self.has_marker_files(dir, &Language::Elixir) {
            return Ok(Language::Elixir);
        }
        if self.has_marker_files(dir, &Language::Erlang) {
            return Ok(Language::Erlang);
        }
        Err(DetectError::NotDetected)
    }

    /// Whether any marker file of `language` is among the directory entries.
    pub fn has_marker_files(&self, dir: &DirListing, language: &Language) -> (r: bool)
        ensures
            r == spec_has_marker(dir.entries.deep_view(), *language),
    {
        let markers = language.marker_files();
        let ghost ms = spec_marker_files(*language);
        let mut i: usize = 0;
        while i < markers.len()
            invariant
                0 <= i <= markers.len(),
                ms == spec_marker_files(*language),
                markers.deep_view() == ms,
                markers@.len() == ms.len(),
                forall|j: int| 0 <= j < i ==> !dir.entries.deep_view().contains(ms[j]),
            decreases markers.len() - i,
        {
            assert(markers.deep_view()[i as int] == markers@[i as int]@);
            let mk: &str = markers[i];
            assert(mk@ == markers@[i as int]@);
            if contains_entry(&dir.entries, mk) {
                proof {
                    assert(dir.entries.deep_view().contains(mk@));
                    lemma_has_marker_intro(dir.entries.deep_view(), *language, i as int);
                }
                return true;
            }
            i = i + 1;
        }
        proof {
            if spec_has_marker(dir.entries.deep_view(), *language) {
                let m = choose|m: Seq<char>| ms.contains(m) && dir.entries.deep_view().contains(m);
                let k = choose|k: int| 0 <= k < ms.len() && ms[k] == m;
                assert(!dir.entries.deep_view().contains(ms[k]));
            }
        }
        false
    }

    /// Whether the evidence points at the typed scripting variant.
    pub fn is_typescript_project(&self, dir: &DirListing) -> (r: bool)
        ensures
            r == spec_is_typescript(dir.entries.deep_view(), spec_manifest_view(dir)),
    {
        if contains_entry(&dir.entries, "tsconfig.json") {
            return true;
        }
        match &dir.manifest {
            Some(m) => manifest_declares_dependency(m.as_str(), "typescript"),
            None => false,
        }
    }

    /// Maps the manifest's runtime dependencies to a framework label: the
    /// first match in a fixed table, or nothing; never an error, and never an
    /// influence on language detection.
    pub fn detect_framework(&self, dir: &DirListing, _language: Language) -> (r: Option<String>)
        ensures
            match r {
                Some(s) => spec_detect_framework(spec_manifest_view(dir)) == Some(s@),
                None => spec_detect_framework(spec_manifest_view(dir)) is None,
            },
    {
        match &dir.manifest {
            None => None,
            Some(m) => {
                if manifest_declares_runtime_dependency(m.as_str(), "next") {
                    Some(String::from_str("Next.js"))
                } else if manifest_declares_runtime_dependency(m.as_str(), "react") {
                    Some(String::from_str("React"))
                } else if manifest_declares_runtime_dependency(m.as_str(), "vue") {
                    Some(String::from_str("Vue"))
                } else if manifest_declares_runtime_dependency(m.as_str(), "express") {
                    Some(String::from_str("Express"))
                } else if manifest_declares_runtime_dependency(m.as_str(), "fastify") {
                    Some(String::from_str("Fastify"))
                } else if manifest_declares_runtime_dependency(m.as_str(), "nestjs") {
                    Some(String::from_str("NestJS"))
                } else {
                    None
                }
            },
        }
    }
}

fn contains_entry(entries: &Vec<String>, name: &str) -> (r: bool)
    ensures
        r == entries.deep_view().contains(name@),
{
    let ghost dv = entries.deep_view();
    let mut i: usize = 0;
    while i < entries.len()
        invariant
            0 <= i <= entries.len(),
            dv == entries.deep_view(),
            dv.len() == entries@.len(),
            forall|j: int| 0 <= j < i ==> dv[j] != name@,
        decreases entries.len() - i,
    {
        assert(dv[i as int] == entries@[i as int]@);
        if str_eq(entries[i].as_str(), name) {
            assert(dv.contains(name@));
            return true;
        }
        i = i + 1;
    }
    proof {
        if dv.contains(name@) {
            let k = choose|k: int| 0 <= k < dv.len() && dv[k] == name@;
            assert(dv[k] != name@);
        }
    }
    false
}

proof fn lemma_has_marker_intro(entries: Seq<Seq<char>>, l: Language, k: int)
    requires
        0 <= k < spec_marker_files(l).len(),
        entries.contains(spec_marker_files(l)[k]),
    ensures
        spec_has_marker(entries, l),
{
    assert(spec_marker_files(l).contains(spec_marker_files(l)[k]));
}


proof fn lemma_marker_facts()
    ensures
        "tsconfig.json"@ != "package.json"@,
        "tsconfig.json"@ != "pyproject.toml"@,
        "tsconfig.json"@ != "setup.py"@,
        "tsconfig.json"@ != "requirements.txt"@,
        "tsconfig.json"@ != "go.mod"@,
        "tsconfig.json"@ != "go.sum"@,
        "tsconfig.json"@ != "Cargo.toml"@,
        "tsconfig.json"@ != "Cargo.lock"@,
        "tsconfig.json"@ != "pom.xml"@,
        "tsconfig.json"@ != "build.gradle"@,
        "tsconfig.json"@ != "build.gradle.kts"@,
        "tsconfig.json"@ != "mix.exs"@,
        "tsconfig.json"@ != "rebar.config"@,
        "tsconfig.json"@ != "rebar.lock"@,
        "package.json"@ != "pyproject.toml"@,
        "package.json"@ != "setup.py"@,
        "package.json"@ != "requirements.txt"@,
        "package.json"@ != "go.mod"@,
        "package.json"@ != "go.sum"@,
        "package.json"@ != "Cargo.toml"@,
        "package.json"@ != "Cargo.lock"@,
        "package.json"@ != "pom.xml"@,
        "package.json"@ != "build.gradle"@,
        "package.json"@ != "build.gradle.kts"@,
        "package.json"@ != "mix.exs"@,
        "package.json"@ != "rebar.config"@,
        "package.json"@ != "rebar.lock"@,
        "pyproject.toml"@ != "setup.py"@,
        "pyproject.toml"@ != "requirements.txt"@,
        "pyproject.toml"@ != "go.mod"@,
        "pyproject.toml"@ != "go.sum"@,
        "pyproject.toml"@ != "Cargo.toml"@,
        "pyproject.toml"@ != "Cargo.lock"@,
        "pyproject.toml"@ != "pom.xml"@,
        "pyproject.toml"@ != "build.gradle"@,
        "pyproject.toml"@ != "build.gradle.kts"@,
        "pyproject.toml"@ != "mix.exs"@,
        "pyproject.toml"@ != "rebar.config"@,
        "pyproject.toml"@ != "rebar.lock"@,
        "setup.py"@ != "requirements.txt"@,
        "setup.py"@ != "go.mod"@,
        "setup.py"@ != "go.sum"@,
        "setup.py"@ != "Cargo.toml"@,
        "setup.py"@ != "Cargo.lock"@,
        "setup.py"@ != "pom.xml"@,
        "setup.py"@ != "build.gradle"@,
        "setup.py"@ != "build.gradle.kts"@,
        "setup.py"@ != "mix.exs"@,
        "setup.py"@ != "rebar.config"@,
        "setup.py"@ != "rebar.lock"@,
        "requirements.txt"@ != "go.mod"@,
        "requirements.txt"@ != "go.sum"@,
        "requirements.txt"@ != "Cargo.toml"@,
        "requirements.txt"@ != "Cargo.lock"@,
        "requirements.txt"@ != "pom.xml"@,
        "requirements.txt"@ != "build.gradle"@,
        "requirements.txt"@ != "build.gradle.kts"@,
        "requirements.txt"@ != "mix.exs"@,
        "requirements.txt"@ != "rebar.config"@,
        "requirements.txt"@ != "rebar.lock"@,
        "go.mod"@ != "go.sum"@,
        "go.mod"@ != "Cargo.toml"@,
        "go.mod"@ != "Cargo.lock"@,
        "go.mod"@ != "pom.xml"@,
        "go.mod"@ != "build.gradle"@,
        "go.mod"@ != "build.gradle.kts"@,
        "go.mod"@ != "mix.exs"@,
        "go.mod"@ != "rebar.config"@,
        "go.mod"@ != "rebar.lock"@,
        "go.sum"@ != "Cargo.toml"@,
        "go.sum"@ != "Cargo.lock"@,
        "go.sum"@ != "pom.xml"@,
        "go.sum"@ != "build.gradle"@,
        "go.sum"@ != "build.gradle.kts"@,
        "go.sum"@ != "mix.exs"@,
        "go.sum"@ != "rebar.config"@,
        "go.sum"@ != "rebar.lock"@,
        "Cargo.toml"@ != "Cargo.lock"@,
        "Cargo.toml"@ != "pom.xml"@,
        "Cargo.toml"@ != "build.gradle"@,
        "Cargo.toml"@ != "build.gradle.kts"@,
        "Cargo.toml"@ != "mix.exs"@,
        "Cargo.toml"@ != "rebar.config"@,
        "Cargo.toml"@ != "rebar.lock"@,
        "Cargo.lock"@ != "pom.xml"@,
        "Cargo.lock"@ != "build.gradle"@,
        "Cargo.lock"@ != "build.gradle.kts"@,
        "Cargo.lock"@ != "mix.exs"@,
        "Cargo.lock"@ != "rebar.config"@,
        "Cargo.lock"@ != "rebar.lock"@,
        "pom.xml"@ != "build.gradle"@,
        "pom.xml"@ != "build.gradle.kts"@,
        "pom.xml"@ != "mix.exs"@,
        "pom.xml"@ != "rebar.config"@,
        "pom.xml"@ != "rebar.lock"@,
        "build.gradle"@ != "build.gradle.kts"@,
        "build.gradle"@ != "mix.exs"@,
        "build.gradle"@ != "rebar.config"@,
        "build.gradle"@ != "rebar.lock"@,
        "build.gradle.kts"@ != "mix.exs"@,
        "build.gradle.kts"@ != "rebar.config"@,
        "build.gradle.kts"@ != "rebar.lock"@,
        "mix.exs"@ != "rebar.config"@,
        "mix.exs"@ != "rebar.lock"@,
        "rebar.config"@ != "rebar.lock"@,
{
    reveal_strlit("tsconfig.json");
    reveal_strlit("package.json");
    reveal_strlit("pyproject.toml");
    reveal_strlit("setup.py");
    reveal_strlit("requirements.txt");
    reveal_strlit("go.mod");
    reveal_strlit("go.sum");
    reveal_strlit("Cargo.toml");
    reveal_strlit("Cargo.lock");
    reveal_strlit("pom.xml");
    reveal_strlit("build.gradle");
    reveal_strlit("build.gradle.kts");
    reveal_strlit("mix.exs");
    reveal_strlit("rebar.config");
    reveal_strlit("rebar.lock");
    assert("tsconfig.json"@.len() == 13);
    assert("package.json"@.len() == 12);
    assert("pyproject.toml"@.len() == 14);
    assert("setup.py"@.len() == 8);
    assert("requirements.txt"@.len() == 16);
    assert("go.mod"@.len() == 6);
    assert("go.sum"@.len() == 6);
    assert("Cargo.toml"@.len() == 10);
    assert("Cargo.lock"@.len() == 10);
    assert("pom.xml"@.len() == 7);
    assert("build.gradle"@.len() == 12);
    assert("build.gradle.kts"@.len() == 16);
    assert("mix.exs"@.len() == 7);
    assert("rebar.config"@.len() == 12);
    assert("rebar.lock"@.len() == 10);
    assert("package.json"@[0] != "build.gradle"@[0]);
    assert("package.json"@[0] != "rebar.config"@[0]);
    assert("requirements.txt"@[0] != "build.gradle.kts"@[0]);
    assert("go.mod"@[3] != "go.sum"@[3]);
    assert("Cargo.toml"@[6] != "Cargo.lock"@[6]);
    assert("Cargo.toml"@[0] != "rebar.lock"@[0]);
    assert("Cargo.lock"@[0] != "rebar.lock"@[0]);
    assert("pom.xml"@[0] != "mix.exs"@[0]);
    assert("build.gradle"@[0] != "rebar.config"@[0]);
}

proof fn lemma_has_marker_one(x: Seq<char>, c: Language)
    ensures
        spec_has_marker(seq![x], c) <==> spec_marker_files(c).contains(x),
{
    let e = seq![x];
    if spec_has_marker(e, c) {
        let m = choose|m: Seq<char>| e.contains(m) && spec_marker_files(c).contains(m);
        let j = choose|j: int| 0 <= j < e.len() && e[j] == m;
        assert(m == x);
    }
    if spec_marker_files(c).contains(x) {
        assert(e[0] == x);
        assert(e.contains(x));
    }
}

proof fn lemma_has_marker_two(x: Seq<char>, y: Seq<char>, c: Language)
    ensures
        spec_has_marker(seq![x, y], c) <==> (spec_marker_files(c).contains(x)
            || spec_marker_files(c).contains(y)),
{
    let e = seq![x, y];
    if spec_has_marker(e, c) {
        let m = choose|m: Seq<char>| e.contains(m) && spec_marker_files(c).contains(m);
        let j = choose|j: int| 0 <= j < e.len() && e[j] == m;
        assert(m == x || m == y);
    }
    if spec_marker_files(c).contains(x) {
        assert(e[0] == x);
        assert(e.contains(x));
    }
    if spec_marker_files(c).contains(y) {
        assert(e[1] == y);
        assert(e.contains(y));
    }
}

proof fn lemma_primary_in_markers(c: Language, d: Language)
    ensures
        spec_marker_files(c).contains(spec_marker_files(d)[0]) <==> (c == d || (c
            == Language::TypeScript && d == Language::JavaScript)),
{
    lemma_marker_facts();
    let p = spec_marker_files(d)[0];
    assert(spec_marker_files(d).contains(p)) by {
        assert(spec_marker_files(d)[0] == p);
    }
    if spec_marker_files(c).contains(p) {
        let k = choose|k: int| 0 <= k < spec_marker_files(c).len() && spec_marker_files(c)[k] == p;
        assert(c == d || (c == Language::TypeScript && d == Language::JavaScript));
    }
    if c == Language::TypeScript && d == Language::JavaScript {
        assert(spec_marker_files(c)[1] == p);
        assert(spec_marker_files(c).contains(p));
    }
}

/// Law: for every supported language, a directory holding only that
/// language's primary marker file detects as that language.
pub proof fn lemma_primary_marker_detects(l: Language)
    ensures
        spec_detect(seq![spec_marker_files(l)[0]], None) == Some(l),
{
    lemma_marker_facts();
    let p = spec_marker_files(l)[0];
    let e = seq![p];
    assert forall|c: Language| spec_has_marker(e, c) <==> spec_marker_files(c).contains(p) by {
        lemma_has_marker_one(p, c);
    }
    assert forall|c: Language| spec_marker_files(c).contains(p) <==> (c == l || (c
        == Language::TypeScript && l == Language::JavaScript)) by {
        lemma_primary_in_markers(c, l);
    }
    assert(!e.contains("tsconfig.json"@) || l == Language::TypeScript) by {
        if e.contains("tsconfig.json"@) {
            let j = choose|j: int| 0 <= j < e.len() && e[j] == "tsconfig.json"@;
            assert(p == "tsconfig.json"@);
            if l != Language::TypeScript {
                lemma_primary_in_markers(Language::TypeScript, l);
                assert(spec_marker_files(Language::TypeScript)[0] == "tsconfig.json"@);
                assert(spec_marker_files(Language::TypeScript).contains(p)) by {
                    assert(spec_marker_files(Language::TypeScript)[0] == p);
                }
            }
        }
    }
    if l == Language::TypeScript {
        assert(e[0] == "tsconfig.json"@);
        assert(e.contains("tsconfig.json"@));
        assert(spec_is_typescript(e, None));
    }
}

/// Law: priority holds for every ordered pair of languages: a directory
/// exposing the primary markers of both detects as the one that the fixed
/// priority order consults first.
pub proof fn lemma_priority_pairs(a: Language, b: Language)
    requires
        spec_priority_rank(a) < spec_priority_rank(b),
    ensures
        spec_detect(seq![spec_marker_files(a)[0], spec_marker_files(b)[0]], None) == Some(a),
{
    lemma_marker_facts();
    let pa = spec_marker_files(a)[0];
    let pb = spec_marker_files(b)[0];
    let e = seq![pa, pb];
    assert forall|c: Language|
        spec_has_marker(e, c) <==> (spec_marker_files(c).contains(pa) || spec_marker_files(
            c,
        ).contains(pb)) by {
        lemma_has_marker_two(pa, pb, c);
    }
    assert forall|c: Language|
        spec_marker_files(c).contains(pa) <==> (c == a || (c == Language::TypeScript && a
            == Language::JavaScript)) by {
        lemma_primary_in_markers(c, a);
    }
    assert forall|c: Language|
        spec_marker_files(c).contains(pb) <==> (c == b || (c == Language::TypeScript && b
            == Language::JavaScript)) by {
        lemma_primary_in_markers(c, b);
    }
    assert(e.contains("tsconfig.json"@) <==> (pa == "tsconfig.json"@ || pb == "tsconfig.json"@))
        by {
        if e.contains("tsconfig.json"@) {
            let j = choose|j: int| 0 <= j < e.len() && e[j] == "tsconfig.json"@;
            assert(pa == "tsconfig.json"@ || pb == "tsconfig.json"@);
        }
        if pa == "tsconfig.json"@ {
            assert(e[0] == pa);
            assert(e.contains(pa));
        }
        if pb == "tsconfig.json"@ {
            assert(e[1] == pb);
            assert(e.contains(pb));
        }
    }
    assert(pa == "tsconfig.json"@ <==> a == Language::TypeScript) by {
        lemma_primary_in_markers(Language::TypeScript, a);
        assert(spec_marker_files(Language::TypeScript)[0] == "tsconfig.json"@);
        if pa == "tsconfig.json"@ {
            assert(spec_marker_files(Language::TypeScript).contains(pa)) by {
                assert(spec_marker_files(Language::TypeScript)[0] == pa);
            }
        }
    }
    assert(pb == "tsconfig.json"@ <==> b == Language::TypeScript) by {
        lemma_primary_in_markers(Language::TypeScript, b);
        assert(spec_marker_files(Language::TypeScript)[0] == "tsconfig.json"@);
        if pb == "tsconfig.json"@ {
            assert(spec_marker_files(Language::TypeScript).contains(pb)) by {
                assert(spec_marker_files(Language::TypeScript)[0] == pb);
            }
        }
    }
    assert(spec_detect(e, None) == Some(a));
}

/// Law: a directory whose only marker is the generic manifest resolves to the
/// typed scripting variant exactly when typed evidence is present: a
/// type-checker config beside it, or the type-checker package among the
/// manifest's declared dependencies; otherwise it stays the untyped variant.
pub proof fn lemma_typed_promotion(manifest: Seq<char>)
    ensures
        spec_detect(seq!["package.json"@, "tsconfig.json"@], Some(manifest)) == Some(
            Language::TypeScript,
        ),
        manifest_lists_dependency(manifest, "typescript"@) ==> spec_detect(
            seq!["package.json"@],
            Some(manifest),
        ) == Some(Language::TypeScript),
        !manifest_lists_dependency(manifest, "typescript"@) ==> spec_detect(
            seq!["package.json"@],
            Some(manifest),
        ) == Some(Language::JavaScript),
{
    lemma_marker_facts();
    let e2 = seq!["package.json"@, "tsconfig.json"@];
    let e1 = seq!["package.json"@];
    assert forall|c: Language|
        spec_has_marker(e2, c) <==> (spec_marker_files(c).contains("package.json"@)
            || spec_marker_files(c).contains("tsconfig.json"@)) by {
        lemma_has_marker_two("package.json"@, "tsconfig.json"@, c);
    }
    assert forall|c: Language| spec_has_marker(e1, c) <==> spec_marker_files(c).contains(
        "package.json"@,
    ) by {
        lemma_has_marker_one("package.json"@, c);
    }
    assert forall|c: Language|
        spec_marker_files(c).contains("package.json"@) <==> (c == Language::TypeScript || c
            == Language::JavaScript) by {
        lemma_primary_in_markers(c, Language::JavaScript);
        assert(spec_marker_files(Language::JavaScript)[0] == "package.json"@);
    }
    assert forall|c: Language| spec_marker_files(c).contains("tsconfig.json"@) <==> c
        == Language::TypeScript by {
        lemma_primary_in_markers(c, Language::TypeScript);
        assert(spec_marker_files(Language::TypeScript)[0] == "tsconfig.json"@);
    }
    assert(e2[1] == "tsconfig.json"@);
    assert(e2.contains("tsconfig.json"@));
    assert(!e1.contains("tsconfig.json"@)) by {
        if e1.contains("tsconfig.json"@) {
            let j = choose|j: int| 0 <= j < e1.len() && e1[j] == "tsconfig.json"@;
        }
    }
}

/// Law: detection fails with `NotDetected` exactly when no supported
/// language's markers are present; it never falls back to an arbitrary
/// language.
pub proof fn lemma_not_detected(entries: Seq<Seq<char>>, manifest: Option<Seq<char>>)
    ensures
        (spec_detect(entries, manifest) is None) <==> (forall|l: Language|
            !spec_has_marker(entries, l)),
{
    if spec_detect(entries, manifest) is None {
        assert forall|l: Language| !spec_has_marker(entries, l) by {
            if l == Language::Rust || l == Language::Go || l == Language::TypeScript || l
                == Language::JavaScript || l == Language::Python || l == Language::Java || l
                == Language::Elixir || l == Language::Erlang {
            }
        }
    }
}

} // verus!
