use vstd::prelude::*;
use vstd::string::*;

use crate::strutil::{find_at, find_from, lemma_find_at_first};

verus! {

/// Probes whether external command-line tools are present on the search path.
pub struct ToolsChecker;

/// The first line of a version report: the text before the first newline,
/// less the carriage return of a CRLF ending, or "unknown" when the report
/// is empty.
pub open spec fn spec_version_first_line(s: Seq<char>) -> Seq<char> {
    if s.len() == 0 {
        "unknown"@
    } else {
        match find_at(s, "\n"@, 0) {
            Some(i) => if i > 0 && s[i - 1] == '\r' {
                s.subrange(0, i - 1)
            } else {
                s.subrange(0, i)
            },
            None => s,
        }
    }
}

impl ToolsChecker {
    pub fn new() -> (r: ToolsChecker) {
        ToolsChecker
    }

    /// Whether `tool` resolves to an executable on the process's search path.
    ///
    /// Relies on which::which, which returns Ok exactly when the name resolves
    /// to an executable. The outcome depends on the host environment, so
    /// nothing is promised of it.
    #[verifier::external_body]
    pub fn is_installed(&self, tool: &str) -> bool {
        which::which(tool).is_ok()
    }

    /// The availability of the five auxiliary tools, probed independently; a
    /// failure to resolve one name never affects another.
    pub fn check_all(&self) -> (r: Vec<(String, bool)>)
        ensures
            r@.len() == 5,
            r@[0].0@ == "rg"@,
            r@[1].0@ == "fd"@,
            r@[2].0@ == "bat"@,
            r@[3].0@ == "eza"@,
            r@[4].0@ == "dust"@,
    {
        let mut results: Vec<(String, bool)> = Vec::new();
        results.push((String::from_str("rg"), self.is_installed("rg")));
        results.push((String::from_str("fd"), self.is_installed("fd")));
        results.push((String::from_str("bat"), self.is_installed("bat")));
        results.push((String::from_str("eza"), self.is_installed("eza")));
        results.push((String::from_str("dust"), self.is_installed("dust")));
        results
    }

    /// Reduces a tool's raw version output to its first line, degrading to
    /// "unknown" for empty output rather than failing.
    pub fn version_first_line(&self, output: &str) -> (r: String)
        ensures
            r@ == spec_version_first_line(output@),
    {
        let len = output.unicode_len();
        if len == 0 {
            return String::from_str("unknown");
        }
        let cut = match find_from(output, "\n", 0) {
            Some(i) => {
                proof {
                    lemma_find_at_first(output@, "\n"@, 0);
                }
                if i > 0 && output.get_char(i - 1) == '\r' {
                    i - 1
                } else {
                    i
                }
            },
            None => len,
        };
        let r = output.substring_char(0, cut).to_owned();
        proof {
            reveal_strlit("\n");
            assert(r@ =~= spec_version_first_line(output@));
        }
        r
    }
}

} // verus!
