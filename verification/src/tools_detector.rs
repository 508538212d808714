use vstd::prelude::*;
use vstd::string::*;

use crate::checker::ToolsChecker;
use crate::splice::{hash_free, lemma_no_double_hash_concat, no_double_hash_from, section_wf, SECTION_HEADING};
use crate::strutil::{occurs_at, str_eq};

verus! {

/// Detects which auxiliary command-line tools are installed and renders the
/// matching usage rules and status banner.
pub struct ToolsDetector {
    checker: ToolsChecker,
}

/// The availability of the five auxiliary tools, as reported by one probe run.
#[derive(Debug, Clone)]
pub struct InstalledTools {
    pub ripgrep: bool,
    pub fd: bool,
    pub bat: bool,
    pub eza: bool,
    pub dust: bool,
}

/// A tool that the probe found absent, with its install command hint.
#[derive(Debug, Clone)]
pub struct MissingTool {
    pub name: &'static str,
    pub description: &'static str,
    pub install_cmd: &'static str,
}

pub const SECTION_PREAMBLE: &'static str = "## CLI Tool Usage (When Using Bash)\n**IMPORTANT**: The built-in tools (Grep, Glob, Read) are already optimized.\nThe rules below apply ONLY when the Bash tool is used directly.\n\nWhen using the Bash tool for operations:\n";

pub const RULE_EZA_PRESENT: &'static str = "\n**Directory Listing:**\n- ALWAYS: `eza -la --icons --git`\n- NEVER: `ls -la` or `ls`\n";

pub const RULE_EZA_ABSENT: &'static str = "\n**Directory Listing:**\n- Consider installing `eza` for better directory listing: `brew install eza`\n- Current: Use `ls -la` (basic)\n";

pub const RULE_DUST_PRESENT: &'static str = "\n**Disk Usage:**\n- ALWAYS: `dust -d 2`\n- NEVER: `du -sh` or `du`\n";

pub const RULE_DUST_ABSENT: &'static str = "\n**Disk Usage:**\n- Consider installing `dust` for better disk usage: `brew install dust`\n- Current: Use `du -sh` (basic)\n";

pub const RULE_BAT_PRESENT: &'static str = "\n**File Viewing (for display purposes):**\n- ALWAYS: `bat filename`\n- NEVER: `cat filename`\n";

pub const RULE_BAT_ABSENT: &'static str = "\n**File Viewing:**\n- Consider installing `bat` for syntax highlighting: `brew install bat`\n- Current: Use `cat filename` (basic)\n";

pub const RULE_FD_PRESENT: &'static str = "\n**File Search (if not using Glob tool):**\n- ALWAYS: `fd pattern`\n- NEVER: `find . -name pattern`\n";

pub const RULE_FD_ABSENT: &'static str = "\n**File Search:**\n- Consider installing `fd` for faster file search: `brew install fd`\n- Current: Use `find . -name pattern` (basic)\n";

pub const RULE_RG_PRESENT: &'static str = "\n**Text Search (if not using Grep tool):**\n- ALWAYS: `rg pattern`\n- NEVER: `grep pattern`\n";

pub const RULE_RG_ABSENT: &'static str = "\n**Text Search:**\n- Consider installing `ripgrep` for faster text search: `brew install ripgrep`\n- Current: Use `grep pattern` (basic)\n";

pub const MISSING_INTRO: &'static str = "\n**Recommended Tools to Install**\n\nRun this command to install missing tools:\n```bash\nforge tools install\n```\n\nOr install individually:\n```bash\n";

pub const MISSING_CLOSE: &'static str = "```\n";

pub const ENTRY_MARK: &'static str = "# ";

pub const LINE_BREAK: &'static str = "\n";

pub const DESC_RIPGREP: &'static str = "Fast text search";

pub const DESC_FD: &'static str = "Fast file finder";

pub const DESC_BAT: &'static str = "Cat with syntax highlighting";

pub const DESC_EZA: &'static str = "Modern ls replacement";

pub const DESC_DUST: &'static str = "Disk usage analyzer";

pub const CMD_RIPGREP: &'static str = "brew install ripgrep  # or: cargo install ripgrep";

pub const CMD_FD: &'static str = "brew install fd  # or: cargo install fd-find";

pub const CMD_BAT: &'static str = "brew install bat  # or: cargo install bat";

pub const CMD_EZA: &'static str = "brew install eza  # or: cargo install eza";

pub const CMD_DUST: &'static str = "brew install dust  # or: cargo install du-dust";

pub const STATUS_ALL: &'static str = "All modern CLI tools installed (5/5)";

pub const STATUS_NONE: &'static str = "No modern CLI tools installed (0/5). Run `forge tools install`";

pub const STATUS_PART_TAIL: &'static str = "/5 modern CLI tools installed. Run `forge tools check` to see details";

/// How many of the five tools the probe found installed.
pub open spec fn spec_count_installed(t: InstalledTools) -> int {
    (if t.ripgrep {
        1int
    } else {
        0int
    }) + (if t.fd {
        1int
    } else {
        0int
    }) + (if t.bat {
        1int
    } else {
        0int
    }) + (if t.eza {
        1int
    } else {
        0int
    }) + (if t.dust {
        1int
    } else {
        0int
    })
}

/// One install suggestion inside the remediation block.
pub open spec fn spec_missing_entry(desc: Seq<char>, cmd: Seq<char>) -> Seq<char> {
    ENTRY_MARK@ + desc + LINE_BREAK@ + cmd + LINE_BREAK@
}

/// The install suggestions for every absent tool, in the fixed catalog order.
pub open spec fn spec_missing_entries(t: InstalledTools) -> Seq<char> {
    (if !t.ripgrep {
        spec_missing_entry(DESC_RIPGREP@, CMD_RIPGREP@)
    } else {
        Seq::empty()
    }) + (if !t.fd {
        spec_missing_entry(DESC_FD@, CMD_FD@)
    } else {
        Seq::empty()
    }) + (if !t.bat {
        spec_missing_entry(DESC_BAT@, CMD_BAT@)
    } else {
        Seq::empty()
    }) + (if !t.eza {
        spec_missing_entry(DESC_EZA@, CMD_EZA@)
    } else {
        Seq::empty()
    }) + (if !t.dust {
        spec_missing_entry(DESC_DUST@, CMD_DUST@)
    } else {
        Seq::empty()
    })
}

/// The remediation block: every absent tool's install command, or nothing at
/// all when the probe found all five tools installed.
pub open spec fn spec_missing_block(t: InstalledTools) -> Seq<char> {
    if spec_count_installed(t) == 5 {
        Seq::empty()
    } else {
        MISSING_INTRO@ + spec_missing_entries(t) + MISSING_CLOSE@
    }
}

/// The full tool-usage section: one rule block per tool (a mandatory-use
/// directive when installed, an install suggestion when absent) followed by
/// the remediation block.
pub open spec fn spec_tools_section(t: InstalledTools) -> Seq<char> {
    spec_rule_blocks(t) + spec_missing_block(t)
}

/// The preamble and the five per-tool rule blocks.
pub open spec fn spec_rule_blocks(t: InstalledTools) -> Seq<char> {
    SECTION_PREAMBLE@ + (if t.eza {
        RULE_EZA_PRESENT@
    } else {
        RULE_EZA_ABSENT@
    }) + (if t.dust {
        RULE_DUST_PRESENT@
    } else {
        RULE_DUST_ABSENT@
    }) + (if t.bat {
        RULE_BAT_PRESENT@
    } else {
        RULE_BAT_ABSENT@
    }) + (if t.fd {
        RULE_FD_PRESENT@
    } else {
        RULE_FD_ABSENT@
    }) + (if t.ripgrep {
        RULE_RG_PRESENT@
    } else {
        RULE_RG_ABSENT@
    })
}

/// The digit spelling the count of installed tools in a fractional banner.
pub open spec fn spec_count_digit(k: int) -> Seq<char> {
    if k == 1 {
        "1"@
    } else if k == 2 {
        "2"@
    } else if k == 3 {
        "3"@
    } else {
        "4"@
    }
}

/// The status banner text, bucketed into all installed, none installed, or a
/// fractional count.
pub open spec fn spec_tools_status(t: InstalledTools) -> Seq<char> {
    let k = spec_count_installed(t);
    if k == 5 {
        STATUS_ALL@
    } else if k == 0 {
        STATUS_NONE@
    } else {
        spec_count_digit(k) + STATUS_PART_TAIL@
    }
}

impl ToolsDetector {
    pub fn new() -> (r: ToolsDetector) {
        ToolsDetector { checker: ToolsChecker::new() }
    }

    /// Probes the host for all five tools. The result reflects the current
    /// environment, so nothing is promised of the individual flags.
    pub fn detect(&self) -> (r: InstalledTools) {
        let results = self.checker.check_all();
        InstalledTools {
            ripgrep: lookup_flag(&results, "rg"),
            fd: lookup_flag(&results, "fd"),
            bat: lookup_flag(&results, "bat"),
            eza: lookup_flag(&results, "eza"),
            dust: lookup_flag(&results, "dust"),
        }
    }

    /// Renders the tool-usage section for the given probe result.
    pub fn generate_tools_section(&self, tools: &InstalledTools) -> (r: String)
        ensures
            r@ == spec_tools_section(*tools),
    {
        let mut s = rule_blocks(tools);
        let tail = missing_block(tools, self.count_installed(tools));
        s.append(tail.as_str());
        s
    }

    /// Renders the one-line status banner for the given probe result.
    pub fn generate_tools_status(&self, tools: &InstalledTools) -> (r: String)
        ensures
            r@ == spec_tools_status(*tools),
    {
        let count = self.count_installed(tools);
        if count == 5 {
            String::from_str(STATUS_ALL)
        } else if count == 0 {
            String::from_str(STATUS_NONE)
        } else {
            let mut s = String::from_str(count_digit(count));
            s.append(STATUS_PART_TAIL);
            assert(s@ =~= spec_tools_status(*tools));
            s
        }
    }

    /// How many of the five tools the probe found installed.
    pub fn count_installed(&self, tools: &InstalledTools) -> (r: usize)
        ensures
            r == spec_count_installed(*tools),
    {
        let mut count: usize = 0;
        if tools.ripgrep {
            count = count + 1;
        }
        if tools.fd {
            count = count + 1;
        }
        if tools.bat {
            count = count + 1;
        }
        if tools.eza {
            count = count + 1;
        }
        if tools.dust {
            count = count + 1;
        }
        count
    }

    /// The absent tools, in the fixed catalog order, with install hints.
    pub fn get_missing_tools(&self, tools: &InstalledTools) -> (r: Vec<MissingTool>)
        ensures
            r@.map_values(|m: MissingTool| (m.name@, m.description@, m.install_cmd@))
                == spec_missing_list(*tools),
    {
        let mut missing: Vec<MissingTool> = Vec::new();
        if !tools.ripgrep {
            missing.push(
                MissingTool {
                    name: "ripgrep",
                    description: DESC_RIPGREP,
                    install_cmd: CMD_RIPGREP,
                },
            );
        }
        if !tools.fd {
            missing.push(MissingTool { name: "fd", description: DESC_FD, install_cmd: CMD_FD });
        }
        if !tools.bat {
            missing.push(MissingTool { name: "bat", description: DESC_BAT, install_cmd: CMD_BAT });
        }
        if !tools.eza {
            missing.push(MissingTool { name: "eza", description: DESC_EZA, install_cmd: CMD_EZA });
        }
        if !tools.dust {
            missing.push(
                MissingTool { name: "dust", description: DESC_DUST, install_cmd: CMD_DUST },
            );
        }
        assert(missing@.map_values(|m: MissingTool| (m.name@, m.description@, m.install_cmd@))
            =~= spec_missing_list(*tools));
        missing
    }
}

/// The absent tools as (name, description, install command) triples.
pub open spec fn spec_missing_list(t: InstalledTools) -> Seq<(Seq<char>, Seq<char>, Seq<char>)> {
    (if !t.ripgrep {
        seq![("ripgrep"@, DESC_RIPGREP@, CMD_RIPGREP@)]
    } else {
        Seq::empty()
    }) + (if !t.fd {
        seq![("fd"@, DESC_FD@, CMD_FD@)]
    } else {
        Seq::empty()
    }) + (if !t.bat {
        seq![("bat"@, DESC_BAT@, CMD_BAT@)]
    } else {
        Seq::empty()
    }) + (if !t.eza {
        seq![("eza"@, DESC_EZA@, CMD_EZA@)]
    } else {
        Seq::empty()
    }) + (if !t.dust {
        seq![("dust"@, DESC_DUST@, CMD_DUST@)]
    } else {
        Seq::empty()
    })
}

fn rule_blocks(tools: &InstalledTools) -> (r: String)
    ensures
        r@ == spec_rule_blocks(*tools),
{
    let mut s = String::from_str(SECTION_PREAMBLE);
    if tools.eza {
        s.append(RULE_EZA_PRESENT);
    } else {
        s.append(RULE_EZA_ABSENT);
    }
    if tools.dust {
        s.append(RULE_DUST_PRESENT);
    } else {
        s.append(RULE_DUST_ABSENT);
    }
    if tools.bat {
        s.append(RULE_BAT_PRESENT);
    } else {
        s.append(RULE_BAT_ABSENT);
    }
    if tools.fd {
        s.append(RULE_FD_PRESENT);
    } else {
        s.append(RULE_FD_ABSENT);
    }
    if tools.ripgrep {
        s.append(RULE_RG_PRESENT);
    } else {
        s.append(RULE_RG_ABSENT);
    }
    s
}

fn missing_block(tools: &InstalledTools, count: usize) -> (r: String)
    requires
        count == spec_count_installed(*tools),
    ensures
        r@ == spec_missing_block(*tools),
{
    if count == 5 {
        String::new()
    } else {
        let mut s = String::from_str(MISSING_INTRO);
        append_entry_if(&mut s, !tools.ripgrep, DESC_RIPGREP, CMD_RIPGREP);
        append_entry_if(&mut s, !tools.fd, DESC_FD, CMD_FD);
        append_entry_if(&mut s, !tools.bat, DESC_BAT, CMD_BAT);
        append_entry_if(&mut s, !tools.eza, DESC_EZA, CMD_EZA);
        append_entry_if(&mut s, !tools.dust, DESC_DUST, CMD_DUST);
        s.append(MISSING_CLOSE);
        proof {
            let t = *tools;
            let e1 = if !t.ripgrep {
                spec_missing_entry(DESC_RIPGREP@, CMD_RIPGREP@)
            } else {
                Seq::empty()
            };
            let e2 = if !t.fd {
                spec_missing_entry(DESC_FD@, CMD_FD@)
            } else {
                Seq::empty()
            };
            let e3 = if !t.bat {
                spec_missing_entry(DESC_BAT@, CMD_BAT@)
            } else {
                Seq::empty()
            };
            let e4 = if !t.eza {
                spec_missing_entry(DESC_EZA@, CMD_EZA@)
            } else {
                Seq::empty()
            };
            let e5 = if !t.dust {
                spec_missing_entry(DESC_DUST@, CMD_DUST@)
            } else {
                Seq::empty()
            };
            assert(s@ == MISSING_INTRO@ + e1 + e2 + e3 + e4 + e5 + MISSING_CLOSE@);
            assert(spec_missing_entries(t) == e1 + e2 + e3 + e4 + e5);
            vstd::seq_lib::lemma_concat_associative(MISSING_INTRO@, e1, e2);
            vstd::seq_lib::lemma_concat_associative(MISSING_INTRO@, e1 + e2, e3);
            vstd::seq_lib::lemma_concat_associative(MISSING_INTRO@, e1 + e2 + e3, e4);
            vstd::seq_lib::lemma_concat_associative(MISSING_INTRO@, e1 + e2 + e3 + e4, e5);
            assert(s@ == MISSING_INTRO@ + spec_missing_entries(t) + MISSING_CLOSE@);
        }
        s
    }
}

fn append_entry_if(s: &mut String, absent: bool, desc: &'static str, cmd: &'static str)
    ensures
        final(s)@ == old(s)@ + (if absent {
            spec_missing_entry(desc@, cmd@)
        } else {
            Seq::<char>::empty()
        }),
{
    if absent {
        append_entry(s, desc, cmd);
    } else {
        assert(s@ =~= s@ + Seq::<char>::empty());
    }
}

fn append_entry(s: &mut String, desc: &'static str, cmd: &'static str)
    ensures
        final(s)@ == old(s)@ + spec_missing_entry(desc@, cmd@),
{
    s.append(ENTRY_MARK);
    s.append(desc);
    s.append(LINE_BREAK);
    s.append(cmd);
    s.append(LINE_BREAK);
    assert(s@ =~= old(s)@ + spec_missing_entry(desc@, cmd@));
}

fn count_digit(k: usize) -> (r: &'static str)
    requires
        1 <= k <= 4,
    ensures
        r@ == spec_count_digit(k as int),
{
    if k == 1 {
        "1"
    } else if k == 2 {
        "2"
    } else if k == 3 {
        "3"
    } else {
        "4"
    }
}

/// The first flag recorded under `name`, or false when `name` is absent.
pub open spec fn spec_lookup_from(m: Seq<(Seq<char>, bool)>, name: Seq<char>, i: int) -> bool
    decreases m.len() - i,
{
    if i < 0 || i >= m.len() {
        false
    } else if m[i].0 == name {
        m[i].1
    } else {
        spec_lookup_from(m, name, i + 1)
    }
}

fn lookup_flag(results: &Vec<(String, bool)>, name: &str) -> (r: bool)
    ensures
        r == spec_lookup_from(results.deep_view(), name@, 0),
{
    let ghost dv = results.deep_view();
    let mut i: usize = 0;
    while i < results.len()
        invariant
            0 <= i <= results.len(),
            dv == results.deep_view(),
            dv.len() == results.len(),
            spec_lookup_from(dv, name@, 0) == spec_lookup_from(dv, name@, i as int),
        decreases results.len() - i,
    {
        assert(dv[i as int] == (results@[i as int].0@, results@[i as int].1));
        if str_eq(results[i].0.as_str(), name) {
            assert(dv[i as int].0 == name@);
            return results[i].1;
        }
        i = i + 1;
    }
    false
}


/// A text fragment that can stand anywhere after the section heading: it has
/// no adjacent '#' pair and does not end in '#'.
spec fn tidy_fragment(s: Seq<char>) -> bool {
    &&& no_double_hash_from(s, 0)
    &&& (s.len() > 0 ==> s[s.len() - 1] != '#')
}

proof fn lemma_present_rule_facts()
    ensures
        tidy_fragment(RULE_EZA_PRESENT@),
        tidy_fragment(RULE_DUST_PRESENT@),
        tidy_fragment(RULE_BAT_PRESENT@),
        tidy_fragment(RULE_FD_PRESENT@),
        tidy_fragment(RULE_RG_PRESENT@),
{
    reveal_strlit("\n**Directory Listing:**\n- ALWAYS: `eza -la --icons --git`\n- NEVER: `ls -la` or `ls`\n");
    reveal_strlit("\n**Disk Usage:**\n- ALWAYS: `dust -d 2`\n- NEVER: `du -sh` or `du`\n");
    reveal_strlit("\n**File Viewing (for display purposes):**\n- ALWAYS: `bat filename`\n- NEVER: `cat filename`\n");
    reveal_strlit("\n**File Search (if not using Glob tool):**\n- ALWAYS: `fd pattern`\n- NEVER: `find . -name pattern`\n");
    reveal_strlit("\n**Text Search (if not using Grep tool):**\n- ALWAYS: `rg pattern`\n- NEVER: `grep pattern`\n");
}

proof fn lemma_absent_rule_facts()
    ensures
        tidy_fragment(RULE_EZA_ABSENT@),
        tidy_fragment(RULE_DUST_ABSENT@),
        tidy_fragment(RULE_BAT_ABSENT@),
        tidy_fragment(RULE_FD_ABSENT@),
        tidy_fragment(RULE_RG_ABSENT@),
{
    reveal_strlit("\n**Directory Listing:**\n- Consider installing `eza` for better directory listing: `brew install eza`\n- Current: Use `ls -la` (basic)\n");
    reveal_strlit("\n**Disk Usage:**\n- Consider installing `dust` for better disk usage: `brew install dust`\n- Current: Use `du -sh` (basic)\n");
    reveal_strlit("\n**File Viewing:**\n- Consider installing `bat` for syntax highlighting: `brew install bat`\n- Current: Use `cat filename` (basic)\n");
    reveal_strlit("\n**File Search:**\n- Consider installing `fd` for faster file search: `brew install fd`\n- Current: Use `find . -name pattern` (basic)\n");
    reveal_strlit("\n**Text Search:**\n- Consider installing `ripgrep` for faster text search: `brew install ripgrep`\n- Current: Use `grep pattern` (basic)\n");
}

proof fn lemma_missing_piece_facts()
    ensures
        tidy_fragment(MISSING_INTRO@),
        tidy_fragment(MISSING_CLOSE@),
        tidy_fragment(ENTRY_MARK@),
        tidy_fragment(LINE_BREAK@),
        tidy_fragment(DESC_RIPGREP@),
        tidy_fragment(DESC_FD@),
        tidy_fragment(DESC_BAT@),
        tidy_fragment(DESC_EZA@),
        tidy_fragment(DESC_DUST@),
        tidy_fragment(CMD_RIPGREP@),
        tidy_fragment(CMD_FD@),
        tidy_fragment(CMD_BAT@),
        tidy_fragment(CMD_EZA@),
        tidy_fragment(CMD_DUST@),
{
    reveal_strlit("\n**Recommended Tools to Install**\n\nRun this command to install missing tools:\n```bash\nforge tools install\n```\n\nOr install individually:\n```bash\n");
    reveal_strlit("```\n");
    reveal_strlit("# ");
    reveal_strlit("\n");
    reveal_strlit("Fast text search");
    reveal_strlit("Fast file finder");
    reveal_strlit("Cat with syntax highlighting");
    reveal_strlit("Modern ls replacement");
    reveal_strlit("Disk usage analyzer");
    reveal_strlit("brew install ripgrep  # or: cargo install ripgrep");
    reveal_strlit("brew install fd  # or: cargo install fd-find");
    reveal_strlit("brew install bat  # or: cargo install bat");
    reveal_strlit("brew install eza  # or: cargo install eza");
    reveal_strlit("brew install dust  # or: cargo install du-dust");
}

proof fn lemma_preamble_facts()
    ensures
        SECTION_HEADING@.len() == 17,
        SECTION_PREAMBLE@.len() == 218,
        SECTION_PREAMBLE@.subrange(0, SECTION_HEADING@.len() as int) == SECTION_HEADING@,
        no_double_hash_from(SECTION_PREAMBLE@, 1),
        SECTION_PREAMBLE@[SECTION_PREAMBLE@.len() - 1] != '#',
{
    reveal_strlit("## CLI Tool Usage (When Using Bash)\n**IMPORTANT**: The built-in tools (Grep, Glob, Read) are already optimized.\nThe rules below apply ONLY when the Bash tool is used directly.\n\nWhen using the Bash tool for operations:\n");
    reveal_strlit("## CLI Tool Usage");
    assert(SECTION_PREAMBLE@.subrange(0, SECTION_HEADING@.len() as int) =~= SECTION_HEADING@);
}

proof fn lemma_entry_tidy(desc: Seq<char>, cmd: Seq<char>)
    requires
        tidy_fragment(desc),
        tidy_fragment(cmd),
    ensures
        tidy_fragment(spec_missing_entry(desc, cmd)),
{
    lemma_missing_piece_facts();
    lemma_no_double_hash_concat(ENTRY_MARK@, desc, 0);
    lemma_no_double_hash_concat(ENTRY_MARK@ + desc, LINE_BREAK@, 0);
    lemma_no_double_hash_concat(ENTRY_MARK@ + desc + LINE_BREAK@, cmd, 0);
    lemma_no_double_hash_concat(ENTRY_MARK@ + desc + LINE_BREAK@ + cmd, LINE_BREAK@, 0);
}

/// Law: the rendered tool-usage section is well formed for every probe
/// result: it opens with the section heading, and repeats neither the heading
/// nor a top-level boundary after its first character, so splicing it can be
/// repeated without drift.
pub proof fn lemma_tools_section_wf(t: InstalledTools)
    ensures
        section_wf(spec_tools_section(t)),
{
    lemma_present_rule_facts();
    lemma_absent_rule_facts();
    lemma_missing_piece_facts();
    lemma_preamble_facts();
    let r1 = if t.eza { RULE_EZA_PRESENT@ } else { RULE_EZA_ABSENT@ };
    let r2 = if t.dust { RULE_DUST_PRESENT@ } else { RULE_DUST_ABSENT@ };
    let r3 = if t.bat { RULE_BAT_PRESENT@ } else { RULE_BAT_ABSENT@ };
    let r4 = if t.fd { RULE_FD_PRESENT@ } else { RULE_FD_ABSENT@ };
    let r5 = if t.ripgrep { RULE_RG_PRESENT@ } else { RULE_RG_ABSENT@ };
    let e1 = if !t.ripgrep { spec_missing_entry(DESC_RIPGREP@, CMD_RIPGREP@) } else { Seq::empty() };
    let e2 = if !t.fd { spec_missing_entry(DESC_FD@, CMD_FD@) } else { Seq::empty() };
    let e3 = if !t.bat { spec_missing_entry(DESC_BAT@, CMD_BAT@) } else { Seq::empty() };
    let e4 = if !t.eza { spec_missing_entry(DESC_EZA@, CMD_EZA@) } else { Seq::empty() };
    let e5 = if !t.dust { spec_missing_entry(DESC_DUST@, CMD_DUST@) } else { Seq::empty() };
    lemma_entry_tidy(DESC_RIPGREP@, CMD_RIPGREP@);
    lemma_entry_tidy(DESC_FD@, CMD_FD@);
    lemma_entry_tidy(DESC_BAT@, CMD_BAT@);
    lemma_entry_tidy(DESC_EZA@, CMD_EZA@);
    lemma_entry_tidy(DESC_DUST@, CMD_DUST@);
    lemma_no_double_hash_concat(e1, e2, 0);
    lemma_no_double_hash_concat(e1 + e2, e3, 0);
    lemma_no_double_hash_concat(e1 + e2 + e3, e4, 0);
    lemma_no_double_hash_concat(e1 + e2 + e3 + e4, e5, 0);
    assert(tidy_fragment(spec_missing_entries(t)));
    if spec_count_installed(t) != 5 {
        lemma_no_double_hash_concat(MISSING_INTRO@, spec_missing_entries(t), 0);
        lemma_no_double_hash_concat(MISSING_INTRO@ + spec_missing_entries(t), MISSING_CLOSE@, 0);
    }
    assert(tidy_fragment(spec_missing_block(t)));
    lemma_no_double_hash_concat(SECTION_PREAMBLE@, r1, 1);
    lemma_no_double_hash_concat(SECTION_PREAMBLE@ + r1, r2, 1);
    lemma_no_double_hash_concat(SECTION_PREAMBLE@ + r1 + r2, r3, 1);
    lemma_no_double_hash_concat(SECTION_PREAMBLE@ + r1 + r2 + r3, r4, 1);
    lemma_no_double_hash_concat(SECTION_PREAMBLE@ + r1 + r2 + r3 + r4, r5, 1);
    lemma_no_double_hash_concat(spec_rule_blocks(t), spec_missing_block(t), 1);
    lemma_section_prefix(t);
}

proof fn lemma_section_prefix(t: InstalledTools)
    ensures
        spec_tools_section(t).len() >= SECTION_HEADING@.len(),
        spec_tools_section(t).subrange(0, SECTION_HEADING@.len() as int) == SECTION_HEADING@,
{
    lemma_preamble_facts();
    let sp = SECTION_PREAMBLE@;
    let r1 = if t.eza { RULE_EZA_PRESENT@ } else { RULE_EZA_ABSENT@ };
    let r2 = if t.dust { RULE_DUST_PRESENT@ } else { RULE_DUST_ABSENT@ };
    let r3 = if t.bat { RULE_BAT_PRESENT@ } else { RULE_BAT_ABSENT@ };
    let r4 = if t.fd { RULE_FD_PRESENT@ } else { RULE_FD_ABSENT@ };
    let r5 = if t.ripgrep { RULE_RG_PRESENT@ } else { RULE_RG_ABSENT@ };
    let sec = spec_tools_section(t);
    assert(spec_rule_blocks(t) == sp + r1 + r2 + r3 + r4 + r5);
    assert forall|q: int| 0 <= q < SECTION_HEADING@.len() implies sec[q] == sp[q] by {
        assert((sp + r1)[q] == sp[q]);
        assert((sp + r1 + r2)[q] == (sp + r1)[q]);
        assert((sp + r1 + r2 + r3)[q] == (sp + r1 + r2)[q]);
        assert((sp + r1 + r2 + r3 + r4)[q] == (sp + r1 + r2 + r3)[q]);
        assert((sp + r1 + r2 + r3 + r4 + r5)[q] == (sp + r1 + r2 + r3 + r4)[q]);
        assert(sec[q] == spec_rule_blocks(t)[q]);
    }
    assert(sec.subrange(0, SECTION_HEADING@.len() as int) =~= SECTION_HEADING@) by {
        assert forall|q: int| 0 <= q < SECTION_HEADING@.len() implies sec.subrange(
            0,
            SECTION_HEADING@.len() as int,
        )[q] == SECTION_HEADING@[q] by {
            assert(sec[q] == sp[q]);
            assert(sp.subrange(0, SECTION_HEADING@.len() as int)[q] == sp[q]);
        }
    }
}

/// Law: the status banner never contains a '#', so prefixing it to a document
/// introduces no heading of its own.
pub proof fn lemma_status_hash_free(t: InstalledTools)
    ensures
        hash_free(spec_tools_status(t)),
{
    reveal_strlit("All modern CLI tools installed (5/5)");
    reveal_strlit("No modern CLI tools installed (0/5). Run `forge tools install`");
    reveal_strlit("/5 modern CLI tools installed. Run `forge tools check` to see details");
    reveal_strlit("1");
    reveal_strlit("2");
    reveal_strlit("3");
    reveal_strlit("4");
    let k = spec_count_installed(t);
    if k != 5 && k != 0 {
        let st = spec_count_digit(k) + STATUS_PART_TAIL@;
        assert forall|j: int| 0 <= j < st.len() implies st[j] != '#' by {
            if j < spec_count_digit(k).len() {
                assert(st[j] == spec_count_digit(k)[j]);
            } else {
                assert(st[j] == STATUS_PART_TAIL@[j - spec_count_digit(k).len()]);
            }
        }
    }
}

/// Law: the status banner falls into exactly three wording buckets, decided
/// by the installed count alone: the all-installed text, the none-installed
/// text, or a fractional text that opens with "k/5".
pub proof fn lemma_status_buckets(t: InstalledTools)
    ensures
        spec_count_installed(t) == 5 ==> spec_tools_status(t) == STATUS_ALL@ && occurs_at(
            spec_tools_status(t),
            "5/5"@,
            32,
        ),
        spec_count_installed(t) == 0 ==> spec_tools_status(t) == STATUS_NONE@ && occurs_at(
            spec_tools_status(t),
            "0/5"@,
            31,
        ),
        0 < spec_count_installed(t) < 5 ==> occurs_at(
            spec_tools_status(t),
            spec_count_digit(spec_count_installed(t)) + "/5"@,
            0,
        ),
{
    reveal_strlit("All modern CLI tools installed (5/5)");
    reveal_strlit("No modern CLI tools installed (0/5). Run `forge tools install`");
    reveal_strlit("/5 modern CLI tools installed. Run `forge tools check` to see details");
    reveal_strlit("5/5");
    reveal_strlit("0/5");
    reveal_strlit("/5");
    reveal_strlit("1");
    reveal_strlit("2");
    reveal_strlit("3");
    reveal_strlit("4");
    let k = spec_count_installed(t);
    let st = spec_tools_status(t);
    if k == 5 {
        assert(st.subrange(32, 35) =~= "5/5"@);
    } else if k == 0 {
        assert(st.subrange(31, 34) =~= "0/5"@);
    } else {
        let pat = spec_count_digit(k) + "/5"@;
        assert forall|q: int| 0 <= q < 3 implies st.subrange(0, 3)[q] == pat[q] by {
            if q == 0 {
                assert(st[0] == spec_count_digit(k)[0]);
                assert(pat[0] == spec_count_digit(k)[0]);
            } else {
                assert(st[q] == STATUS_PART_TAIL@[q - 1]);
                assert(pat[q] == "/5"@[q - 1]);
            }
        }
        assert(st.subrange(0, 3) =~= pat);
    }
}

} // verus!
