use vstd::prelude::*;
use vstd::string::*;

verus! {

/// Checks a generated configuration tree for completeness and well-formed
/// settings; reading the filesystem is the caller's work.
pub struct ConfigValidator;

/// The observed state of a configuration directory: whether it and its
/// pieces exist, and the settings text when one is present and readable.
pub struct ClaudeDirState {
    pub dir_exists: bool,
    pub has_claude_md: bool,
    pub config_json: Option<String>,
    pub has_agents_dir: bool,
    pub has_commands_dir: bool,
    pub has_hooks_dir: bool,
}

/// Whether a text parses as one JSON value; a function of the text alone.
pub uninterp spec fn json_well_formed(text: Seq<char>) -> bool;

/// Relies on serde_json::from_str: Ok exactly when the text is one
/// well-formed JSON value.
#[verifier::external_body]
fn json_parses(text: &str) -> (r: bool)
    ensures
        r == json_well_formed(text@),
{
    serde_json::from_str::<serde_json::Value>(text).is_ok()
}

/// The settings text as a character sequence, when present.
pub open spec fn spec_config_view(d: &ClaudeDirState) -> Option<Seq<char>> {
    match d.config_json {
        Some(c) => Some(c@),
        None => None,
    }
}

/// The validation findings for an observed directory state: a missing tree
/// ends the check at once; otherwise each missing piece and an unparsable
/// settings text each contribute one finding, in a fixed order.
pub open spec fn spec_validate(d: &ClaudeDirState) -> Seq<Seq<char>> {
    if !d.dir_exists {
        seq![".forge directory not found"@]
    } else {
        (if !d.has_claude_md {
            seq!["AGENTS.md not found"@]
        } else {
            Seq::empty()
        }) + (match spec_config_view(d) {
            Some(c) => if !json_well_formed(c) {
                seq!["config.json is not valid JSON"@]
            } else {
                Seq::empty()
            },
            None => Seq::empty(),
        }) + (if !d.has_agents_dir {
            seq!["agents directory not found"@]
        } else {
            Seq::empty()
        }) + (if !d.has_commands_dir {
            seq!["commands directory not found"@]
        } else {
            Seq::empty()
        }) + (if !d.has_hooks_dir {
            seq!["hooks directory not found"@]
        } else {
            Seq::empty()
        })
    }
}

impl ConfigValidator {
    pub fn new() -> (r: ConfigValidator) {
        ConfigValidator
    }

    /// Validates an observed configuration directory state; the result lists
    /// every finding, and is empty exactly when the tree is complete and the
    /// settings text, if any, is well formed.
    pub fn validate(&self, state: &ClaudeDirState) -> (r: Vec<String>)
        ensures
            r.deep_view() == spec_validate(state),
    {
        let mut errors: Vec<String> = Vec::new();
        if !state.dir_exists {
            errors.push(String::from_str(".forge directory not found"));
            assert(errors.deep_view() =~= spec_validate(state));
            return errors;
        }
        if !state.has_claude_md {
            errors.push(String::from_str("AGENTS.md not found"));
        }
        match &state.config_json {
            Some(c) => {
                if !json_parses(c.as_str()) {
                    errors.push(String::from_str("config.json is not valid JSON"));
                }
            },
            None => {},
        }
        if !state.has_agents_dir {
            errors.push(String::from_str("agents directory not found"));
        }
        if !state.has_commands_dir {
            errors.push(String::from_str("commands directory not found"));
        }
        if !state.has_hooks_dir {
            errors.push(String::from_str("hooks directory not found"));
        }
        assert(errors.deep_view() =~= spec_validate(state));
        errors
    }
}

} // verus!
