use vstd::prelude::*;
use vstd::string::*;

use crate::language::{spec_language_key, Language};
use crate::registry::{spec_language_claude_md, TemplateRegistry, CLAUDEIGNORE_TEMPLATE};
use crate::registry::{spec_agent_template, spec_command_template};
use crate::splice::{hash_free, lemma_splice_stable, spec_splice, splice_section};
use crate::tools_detector::{
    lemma_status_hash_free, lemma_tools_section_wf, spec_tools_section, spec_tools_status,
    InstalledTools, ToolsDetector,
};

verus! {

/// Produces the configuration artifacts for one project: the memory document
/// with its spliced tool-usage section, the settings document, the ignore
/// file, and the default agent and command scaffolds. Writing them to disk is
/// the caller's work.
pub struct ConfigGenerator {
    pub language: Language,
    pub minimal: bool,
    pub registry: TemplateRegistry,
}

pub const BANNER_OPEN: &'static str = "<!-- ";

pub const BANNER_CLOSE: &'static str = " -->\n\n";

pub const CONFIG_JSON_HEAD: &'static str = "{\n  \"features\": {\n    \"modern_cli_tools\": true,\n    \"sdd_workflow\": true\n  },\n  \"hooks\": {\n    \"PreToolUse\": {\n      \"Read\": \".forge/hooks/security-scan.sh\"\n    },\n    \"SessionStart\": \".forge/hooks/session-init.sh\"\n  },\n  \"language\": \"";

pub const CONFIG_JSON_TAIL: &'static str = "\",\n  \"version\": \"1.0\"\n}";

/// The status banner as one leading comment line followed by a blank line.
pub open spec fn spec_banner(t: InstalledTools) -> Seq<char> {
    BANNER_OPEN@ + spec_tools_status(t) + BANNER_CLOSE@
}

/// The composed memory document: the banner, then the base document with the
/// tool-usage section spliced in.
pub open spec fn spec_compose_claude_md(base: Seq<char>, t: InstalledTools) -> Seq<char> {
    spec_banner(t) + spec_splice(base, spec_tools_section(t))
}

/// The settings document text for a language.
pub open spec fn spec_config_json(l: Language) -> Seq<char> {
    CONFIG_JSON_HEAD@ + spec_language_key(l) + CONFIG_JSON_TAIL@
}

/// Every document of one generation run, as (relative path, content) pairs
/// in write order: the memory document and the ignore file always, the
/// settings document and the default scaffolds only outside minimal mode.
pub open spec fn spec_generate(lang: Language, minimal: bool, t: InstalledTools) -> Seq<
    (Seq<char>, Seq<char>),
> {
    seq![(".forge/AGENTS.md"@, spec_compose_claude_md(spec_language_claude_md(lang), t))] + (
    if minimal {
        Seq::empty()
    } else {
        seq![(".forge/config.json"@, spec_config_json(lang))]
    }) + seq![(".claudeignore"@, CLAUDEIGNORE_TEMPLATE@)] + (if minimal {
        Seq::empty()
    } else {
        seq![
            (".forge/agents/code-auditor.md"@, spec_agent_template("code-auditor"@)),
            (".forge/agents/security-scanner.md"@, spec_agent_template("security-scanner"@)),
            (".forge/commands/analyze.md"@, spec_command_template("analyze"@)),
            (".forge/commands/refactor.md"@, spec_command_template("refactor"@)),
        ]
    })
}

impl ConfigGenerator {
    pub fn new(language: Language, minimal: bool) -> (r: ConfigGenerator)
        ensures
            r.language == language,
            r.minimal == minimal,
    {
        ConfigGenerator { language, minimal, registry: TemplateRegistry::new() }
    }

    /// Produces every document of one generation run for the given probe
    /// result, fully composed in memory, as (relative path, content) pairs
    /// in the order they are to be written. Writing them is the caller's
    /// work, so a failure while composing leaves no partial output.
    pub fn generate(&self, tools: &InstalledTools) -> (r: Vec<(String, String)>)
        ensures
            r.deep_view() == spec_generate(self.language, self.minimal, *tools),
    {
        let mut r: Vec<(String, String)> = Vec::new();
        r.push((String::from_str(".forge/AGENTS.md"), self.generate_claude_md(tools)));
        if !self.minimal {
            r.push((String::from_str(".forge/config.json"), self.generate_config_json()));
        }
        r.push((String::from_str(".claudeignore"), self.generate_claudeignore()));
        if !self.minimal {
            r.push(
                (
                    String::from_str(".forge/agents/code-auditor.md"),
                    self.registry.get_default_agent_template("code-auditor"),
                ),
            );
            r.push(
                (
                    String::from_str(".forge/agents/security-scanner.md"),
                    self.registry.get_default_agent_template("security-scanner"),
                ),
            );
            r.push(
                (
                    String::from_str(".forge/commands/analyze.md"),
                    self.registry.get_default_command_template("analyze"),
                ),
            );
            r.push(
                (
                    String::from_str(".forge/commands/refactor.md"),
                    self.registry.get_default_command_template("refactor"),
                ),
            );
        }
        assert(r.deep_view() =~= spec_generate(self.language, self.minimal, *tools));
        r
    }

    /// Composes the memory document for this generator's language and the
    /// given probe result: the language template with the rendered tool-usage
    /// section spliced in, prefixed by the status banner.
    pub fn generate_claude_md(&self, tools: &InstalledTools) -> (r: String)
        ensures
            r@ == spec_compose_claude_md(spec_language_claude_md(self.language), *tools),
    {
        let base = self.registry.get_language_claude_md(self.language);
        let detector = ToolsDetector::new();
        let section = detector.generate_tools_section(tools);
        let spliced = splice_section(base.as_str(), section.as_str());
        let status = detector.generate_tools_status(tools);
        let mut r = String::from_str(BANNER_OPEN);
        r.append(status.as_str());
        r.append(BANNER_CLOSE);
        r.append(spliced.as_str());
        r
    }

    /// The settings document: version, language, feature flags, and the hook
    /// mapping, as one JSON text.
    pub fn generate_config_json(&self) -> (r: String)
        ensures
            r@ == spec_config_json(self.language),
    {
        let mut r = String::from_str(CONFIG_JSON_HEAD);
        r.append(language_key(self.language));
        r.append(CONFIG_JSON_TAIL);
        r
    }

    /// The ignore-patterns document.
    pub fn generate_claudeignore(&self) -> (r: String)
        ensures
            r@ == CLAUDEIGNORE_TEMPLATE@,
    {
        self.registry.get_claudeignore_template()
    }

    /// The default agent scaffolds, as (file name, content) pairs in the
    /// order they are to be created.
    pub fn copy_default_agents(&self) -> (r: Vec<(String, String)>)
        ensures
            r@.len() == 2,
            r@[0].0@ == "code-auditor.md"@,
            r@[0].1@ == spec_agent_template("code-auditor"@),
            r@[1].0@ == "security-scanner.md"@,
            r@[1].1@ == spec_agent_template("security-scanner"@),
    {
        let mut r: Vec<(String, String)> = Vec::new();
        r.push(
            (
                String::from_str("code-auditor.md"),
                self.registry.get_default_agent_template("code-auditor"),
            ),
        );
        r.push(
            (
                String::from_str("security-scanner.md"),
                self.registry.get_default_agent_template("security-scanner"),
            ),
        );
        r
    }

    /// The default command scaffolds, as (file name, content) pairs in the
    /// order they are to be created.
    pub fn copy_default_commands(&self) -> (r: Vec<(String, String)>)
        ensures
            r@.len() == 2,
            r@[0].0@ == "analyze.md"@,
            r@[0].1@ == spec_command_template("analyze"@),
            r@[1].0@ == "refactor.md"@,
            r@[1].1@ == spec_command_template("refactor"@),
    {
        let mut r: Vec<(String, String)> = Vec::new();
        r.push(
            (
                String::from_str("analyze.md"),
                self.registry.get_default_command_template("analyze"),
            ),
        );
        r.push(
            (
                String::from_str("refactor.md"),
                self.registry.get_default_command_template("refactor"),
            ),
        );
        r
    }
}

fn language_key(l: Language) -> (r: &'static str)
    ensures
        r@ == spec_language_key(l),
{
    match l {
        Language::TypeScript => "typescript",
        Language::JavaScript => "javascript",
        Language::Python => "python",
        Language::Go => "go",
        Language::Rust => "rust",
        Language::Java => "java",
        Language::Elixir => "elixir",
        Language::Erlang => "erlang",
    }
}

proof fn lemma_banner_hash_free(t: InstalledTools)
    ensures
        hash_free(spec_banner(t)),
{
    lemma_status_hash_free(t);
    reveal_strlit("<!-- ");
    reveal_strlit(" -->\n\n");
    let b = spec_banner(t);
    let st = spec_tools_status(t);
    assert forall|j: int| 0 <= j < b.len() implies b[j] != '#' by {
        if j < BANNER_OPEN@.len() {
            assert(b[j] == BANNER_OPEN@[j]);
        } else if j < BANNER_OPEN@.len() + st.len() {
            assert(b[j] == st[j - BANNER_OPEN@.len()]);
        } else {
            assert(b[j] == BANNER_CLOSE@[j - BANNER_OPEN@.len() - st.len()]);
        }
    }
}

/// Law: re-splicing a composed memory document with the tool-usage section of
/// the same probe result is a no-op: the heading is found exactly where the
/// section was placed, and the replaced region is the section itself, so the
/// document comes back unchanged.
pub proof fn lemma_compose_idempotent(base: Seq<char>, t: InstalledTools)
    ensures
        spec_splice(spec_compose_claude_md(base, t), spec_tools_section(t))
            == spec_compose_claude_md(base, t),
{
    lemma_tools_section_wf(t);
    lemma_banner_hash_free(t);
    lemma_splice_stable(base, spec_tools_section(t), spec_banner(t));
}

} // verus!
