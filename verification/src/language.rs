use vstd::prelude::*;

use crate::strutil::{eq_ignore_ascii_case, lower_seq};

verus! {

/// The closed set of supported project languages.
#[derive(Debug, Clone, Copy, PartialEq, Eq, Structural)]
pub enum Language {
    TypeScript,
    JavaScript,
    Python,
    Go,
    Rust,
    Java,
    Elixir,
    Erlang,
}

/// The error returned when a spelled-out language name is not recognized.
#[derive(Debug, Clone, Copy, PartialEq, Eq, Structural)]
pub enum LanguageError {
    Unsupported,
}

/// The language denoted by a name, compared case-insensitively; accepts the
/// common short forms alongside the full names.
pub open spec fn spec_language_from(s: Seq<char>) -> Option<Language> {
    let l = lower_seq(s);
    if l == "typescript"@ || l == "ts"@ {
        Some(Language::TypeScript)
    } else if l == "javascript"@ || l == "js"@ {
        Some(Language::JavaScript)
    } else if l == "python"@ || l == "py"@ {
        Some(Language::Python)
    } else if l == "go"@ || l == "golang"@ {
        Some(Language::Go)
    } else if l == "rust"@ || l == "rs"@ {
        Some(Language::Rust)
    } else if l == "java"@ {
        Some(Language::Java)
    } else if l == "elixir"@ || l == "ex"@ {
        Some(Language::Elixir)
    } else if l == "erlang"@ || l == "erl"@ {
        Some(Language::Erlang)
    } else {
        None
    }
}

/// The display name of a language.
pub open spec fn spec_language_name(l: Language) -> Seq<char> {
    match l {
        Language::TypeScript => "TypeScript"@,
        Language::JavaScript => "JavaScript"@,
        Language::Python => "Python"@,
        Language::Go => "Go"@,
        Language::Rust => "Rust"@,
        Language::Java => "Java"@,
        Language::Elixir => "Elixir"@,
        Language::Erlang => "Erlang"@,
    }
}

/// The lowercase identifier of a language, as written into settings documents.
pub open spec fn spec_language_key(l: Language) -> Seq<char> {
    match l {
        Language::TypeScript => "typescript"@,
        Language::JavaScript => "javascript"@,
        Language::Python => "python"@,
        Language::Go => "go"@,
        Language::Rust => "rust"@,
        Language::Java => "java"@,
        Language::Elixir => "elixir"@,
        Language::Erlang => "erlang"@,
    }
}

/// The source-file extensions of a language.
pub open spec fn spec_file_extensions(l: Language) -> Seq<Seq<char>> {
    match l {
        Language::TypeScript => seq!["ts"@, "tsx"@],
        Language::JavaScript => seq!["js"@, "jsx"@, "mjs"@, "cjs"@],
        Language::Python => seq!["py"@],
        Language::Go => seq!["go"@],
        Language::Rust => seq!["rs"@],
        Language::Java => seq!["java"@],
        Language::Elixir => seq!["ex"@, "exs"@],
        Language::Erlang => seq!["erl"@, "hrl"@],
    }
}

/// The marker filenames whose presence at a directory root is evidence of a
/// language, in order; the first entry is the language's primary marker.
pub open spec fn spec_marker_files(l: Language) -> Seq<Seq<char>> {
    match l {
        Language::TypeScript => seq!["tsconfig.json"@, "package.json"@],
        Language::JavaScript => seq!["package.json"@],
        Language::Python => seq!["pyproject.toml"@, "setup.py"@, "requirements.txt"@],
        Language::Go => seq!["go.mod"@, "go.sum"@],
        Language::Rust => seq!["Cargo.toml"@, "Cargo.lock"@],
        Language::Java => seq!["pom.xml"@, "build.gradle"@, "build.gradle.kts"@],
        Language::Elixir => seq!["mix.exs"@],
        Language::Erlang => seq!["rebar.config"@, "rebar.lock"@],
    }
}

/// The position of a language in the fixed detection priority order; a lower
/// rank is consulted first.
pub open spec fn spec_priority_rank(l: Language) -> int {
    match l {
        Language::Rust => 0,
        Language::Go => 1,
        Language::TypeScript => 2,
        Language::JavaScript => 3,
        Language::Python => 4,
        Language::Java => 5,
        Language::Elixir => 6,
        Language::Erlang => 7,
    }
}

impl Language {
    /// Parses a language name, case-insensitively, accepting short forms such
    /// as "ts" or "rs"; unrecognized names are rejected.
    pub fn from_str(s: &str) -> (r: Result<Language, LanguageError>)
        ensures
            match spec_language_from(s@) {
                Some(l) => r == Ok::<Language, LanguageError>(l),
                None => r == Err::<Language, LanguageError>(LanguageError::Unsupported),
            },
    {
        if eq_ignore_ascii_case(s, "typescript") || eq_ignore_ascii_case(s, "ts") {
            Ok(Language::TypeScript)
        } else if eq_ignore_ascii_case(s, "javascript") || eq_ignore_ascii_case(s, "js") {
            Ok(Language::JavaScript)
        } else if eq_ignore_ascii_case(s, "python") || eq_ignore_ascii_case(s, "py") {
            Ok(Language::Python)
        } else if eq_ignore_ascii_case(s, "go") || eq_ignore_ascii_case(s, "golang") {
            Ok(Language::Go)
        } else if eq_ignore_ascii_case(s, "rust") || eq_ignore_ascii_case(s, "rs") {
            Ok(Language::Rust)
        } else if eq_ignore_ascii_case(s, "java") {
            Ok(Language::Java)
        } else if eq_ignore_ascii_case(s, "elixir") || eq_ignore_ascii_case(s, "ex") {
            Ok(Language::Elixir)
        } else if eq_ignore_ascii_case(s, "erlang") || eq_ignore_ascii_case(s, "erl") {
            Ok(Language::Erlang)
        } else {
            Err(LanguageError::Unsupported)
        }
    }

    /// The display name of the language.
    pub fn to_string(&self) -> (r: &'static str)
        ensures
            r@ == spec_language_name(*self),
    {
        match self {
            Language::TypeScript => "TypeScript",
            Language::JavaScript => "JavaScript",
            Language::Python => "Python",
            Language::Go => "Go",
            Language::Rust => "Rust",
            Language::Java => "Java",
            Language::Elixir => "Elixir",
            Language::Erlang => "Erlang",
        }
    }

    /// The source-file extensions of the language.
    pub fn file_extensions(&self) -> (r: Vec<&'static str>)
        ensures
            r.deep_view() == spec_file_extensions(*self),
    {
        let r: Vec<&'static str> = match self {
            Language::TypeScript => vec!["ts", "tsx"],
            Language::JavaScript => vec!["js", "jsx", "mjs", "cjs"],
            Language::Python => vec!["py"],
            Language::Go => vec!["go"],
            Language::Rust => vec!["rs"],
            Language::Java => vec!["java"],
            Language::Elixir => vec!["ex", "exs"],
            Language::Erlang => vec!["erl", "hrl"],
        };
        assert(r.deep_view() =~= spec_file_extensions(*self));
        r
    }

    /// The marker filenames of the language, primary marker first.
    pub fn marker_files(&self) -> (r: Vec<&'static str>)
        ensures
            r.deep_view() == spec_marker_files(*self),
    {
        let r: Vec<&'static str> = match self {
            Language::TypeScript => vec!["tsconfig.json", "package.json"],
            Language::JavaScript => vec!["package.json"],
            Language::Python => vec!["pyproject.toml", "setup.py", "requirements.txt"],
            Language::Go => vec!["go.mod", "go.sum"],
            Language::Rust => vec!["Cargo.toml", "Cargo.lock"],
            Language::Java => vec!["pom.xml", "build.gradle", "build.gradle.kts"],
            Language::Elixir => vec!["mix.exs"],
            Language::Erlang => vec!["rebar.config", "rebar.lock"],
        };
        assert(r.deep_view() =~= spec_marker_files(*self));
        r
    }
}

} // verus!
