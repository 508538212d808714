use vstd::prelude::*;
use vstd::string::*;

use crate::language::Language;
use crate::strutil::str_eq;

verus! {

/// Resolves (artifact kind, name or language) to static template text. Every
/// lookup succeeds: unknown names fall back to a generic scaffold.
pub struct TemplateRegistry;

pub const RUST_MEMORY_TEMPLATE: &'static str = "# Rust Project Memory\n\n## Build & Development Commands\n\n- **Build**: `cargo build`\n- **Test**: `cargo test`\n- **Lint**: `cargo clippy -- -D warnings`\n- **Format**: `cargo fmt`\n\n## Code Style Guidelines\n\n- Use **4 spaces** for indentation\n- Run **rustfmt** before committing\n- Prefer **Result** over panics for recoverable errors\n- Keep functions small and focused\n\n## CLI Tool Usage (When Using Bash)\n\n**IMPORTANT**: The built-in tools (Grep, Glob, Read) are already optimized.\nThe rules below apply ONLY when the Bash tool is used directly.\n\nWhen using the Bash tool for operations:\n\n**Directory Listing:**\n- ALWAYS: `eza -la --icons --git`\n- NEVER: `ls -la` or `ls`\n\n**Disk Usage:**\n- ALWAYS: `dust -d 2`\n- NEVER: `du -sh` or `du`\n\n**File Viewing:**\n- ALWAYS: `bat filename`\n- NEVER: `cat filename`\n\n**File Search:**\n- ALWAYS: `fd pattern`\n- NEVER: `find . -name pattern`\n\n**Text Search:**\n- ALWAYS: `rg pattern`\n- NEVER: `grep pattern`\n";

pub const TYPESCRIPT_MEMORY_TEMPLATE: &'static str = "# TypeScript Project Memory\n\n## Build & Development Commands\n\n- **Build**: `npm run build`\n- **Test**: `npm test`\n- **Lint**: `npm run lint`\n- **Type Check**: `npx tsc --noEmit`\n\n## Code Style Guidelines\n\n- Use **2 spaces** for indentation\n- Prefer **const** over let, never use var\n- Avoid **any**; model types precisely\n- Use **strict** compiler options\n\n## CLI Tool Usage (When Using Bash)\n\n**IMPORTANT**: The built-in tools (Grep, Glob, Read) are already optimized.\nThe rules below apply ONLY when the Bash tool is used directly.\n\nWhen using the Bash tool for operations:\n\n**Directory Listing:**\n- ALWAYS: `eza -la --icons --git`\n- NEVER: `ls -la` or `ls`\n\n**Disk Usage:**\n- ALWAYS: `dust -d 2`\n- NEVER: `du -sh` or `du`\n\n**File Viewing:**\n- ALWAYS: `bat filename`\n- NEVER: `cat filename`\n\n**File Search:**\n- ALWAYS: `fd pattern`\n- NEVER: `find . -name pattern`\n\n**Text Search:**\n- ALWAYS: `rg pattern`\n- NEVER: `grep pattern`\n";

pub const PYTHON_MEMORY_TEMPLATE: &'static str = "# Python Project Memory\n\n## Build & Development Commands\n\n- **Format**: `black .` and `ruff check --fix .`\n- **Test**: `pytest`\n- **Type Check**: `mypy .`\n\n## Code Style Guidelines\n\n- Use **4 spaces** for indentation (PEP 8)\n- Use **Black** for formatting\n- Follow **PEP 8** style guide\n\n## CLI Tool Usage (When Using Bash)\n\n**IMPORTANT**: The built-in tools (Grep, Glob, Read) are already optimized.\nThe rules below apply ONLY when the Bash tool is used directly.\n\nWhen using the Bash tool for operations:\n\n**Directory Listing:**\n- ALWAYS: `eza -la --icons --git`\n- NEVER: `ls -la` or `ls`\n\n**Disk Usage:**\n- ALWAYS: `dust -d 2`\n- NEVER: `du -sh` or `du`\n\n**File Viewing:**\n- ALWAYS: `bat filename`\n- NEVER: `cat filename`\n\n**File Search:**\n- ALWAYS: `fd pattern`\n- NEVER: `find . -name pattern`\n\n**Text Search:**\n- ALWAYS: `rg pattern`\n- NEVER: `grep pattern`\n";

pub const DEFAULT_MEMORY_TEMPLATE: &'static str = "# Project Memory\n\n## Build & Development Commands\n\n- Build: [Configure based on project]\n- Test: [Configure based on project]\n\n## Code Style Guidelines\n\n- Follow language conventions\n- Use consistent naming\n- Keep functions small and focused\n\n## CLI Tool Usage (When Using Bash)\n\n**IMPORTANT**: The built-in tools (Grep, Glob, Read) are already optimized.\nThe rules below apply ONLY when the Bash tool is used directly.\n\nWhen using the Bash tool for operations:\n\n**Directory Listing:**\n- ALWAYS: `eza -la --icons --git`\n- NEVER: `ls -la` or `ls`\n\n**Disk Usage:**\n- ALWAYS: `dust -d 2`\n- NEVER: `du -sh` or `du`\n";

pub const CLAUDEIGNORE_TEMPLATE: &'static str = "# Ignore file\n# Files and directories the assistant should skip\n\n# Dependencies\nnode_modules/\nvendor/\ntarget/\ndist/\nbuild/\n.next/\n\n# Environment files\n.env\n.env.local\n.env.*.local\n\n# IDE\n.idea/\n.vscode/\n*.swp\n*.swo\n\n# OS files\n.DS_Store\nThumbs.db\n\n# Logs\n*.log\nlogs/\n\n# Test coverage\ncoverage/\n.nyc_output/\n\n# Build artifacts\n*.pyc\n__pycache__/\n*.class\n*.o\n*.so\n";

pub const AGENT_CODE_AUDITOR: &'static str = "---\nname: code-auditor\ndescription: Reviews code for quality, best practices, and potential issues\ntools:\n  - Read\n  - Grep\n  - Glob\n---\n\n# Code Auditor Agent\n\nYou are a code review specialist. Your role is to:\n\n1. **Code Quality**: Review code for maintainability and readability\n2. **Best Practices**: Ensure code follows language and framework best practices\n3. **Bugs**: Identify potential bugs and edge cases\n4. **Security**: Check for common security vulnerabilities\n5. **Performance**: Suggest performance improvements where applicable\n\n## Review Checklist\n\n- [ ] Code follows project style guidelines\n- [ ] Functions are well-named and focused\n- [ ] Error handling is appropriate\n- [ ] No obvious security vulnerabilities\n- [ ] Test coverage is adequate\n- [ ] Documentation is clear and complete\n\n## Output Format\n\nProvide feedback in this format:\n\n**Issues Found:**\n- [SEVERITY] Description and location\n\n**Suggestions:**\n- Improvement recommendations\n\n**Approval:**\n- Approved / Needs changes / Major issues\n";

pub const AGENT_SECURITY_SCANNER: &'static str = "---\nname: security-scanner\ndescription: Scans code for security vulnerabilities\ntools:\n  - Read\n  - Grep\n---\n\n# Security Scanner Agent\n\nYou are a security specialist. Your role is to identify security vulnerabilities.\n\n## Security Checks\n\n1. **Injection Attacks**: SQL, Command, XSS\n2. **Authentication**: Password handling, session management\n3. **Authorization**: Access control issues\n4. **Data Exposure**: Sensitive data leaks\n5. **Cryptography**: Weak encryption, hardcoded secrets\n\n## Common Vulnerabilities\n\n- Hardcoded credentials\n- SQL injection vulnerabilities\n- XSS vulnerabilities\n- Insecure dependencies\n- Missing input validation\n";

pub const AGENT_FALLBACK_HEAD: &'static str = "---\nname: ";

pub const AGENT_FALLBACK_MID: &'static str = "\ndescription: Custom agent\ntools:\n  - Read\n  - Grep\n---\n\n# ";

pub const AGENT_FALLBACK_TAIL: &'static str = "\n\nDescribe the agent's purpose and capabilities here.\n";

pub const COMMAND_ANALYZE: &'static str = "---\ndescription: Analyze codebase structure and complexity\nallowed-tools: Read,Grep,Glob\n---\n\nAnalyze the codebase and provide insights on:\n\n1. Project structure\n2. Code complexity\n3. Dependencies\n4. Potential improvements\n";

pub const COMMAND_REFACTOR: &'static str = "---\ndescription: Suggest refactoring opportunities\nallowed-tools: Read,Grep,Glob\n---\n\nIdentify and suggest refactoring opportunities:\n\n1. Code duplication\n2. Long functions\n3. Complex conditionals\n4. Naming improvements\n";

pub const COMMAND_FALLBACK_HEAD: &'static str = "---\ndescription: Custom command\nallowed-tools: Read,Grep\n---\n\n# ";

pub const COMMAND_FALLBACK_TAIL: &'static str = "\n\nDescribe what this command does.\n";

pub const HOOK_FORMAT: &'static str = "#!/bin/bash\nset -euo pipefail\n\n# Format hook\ninput=$(cat)\nfile_path=$(echo \"$input\" | jq -r '.tool_input.file_path // .tool_input.file // \"\"')\n\nif [ -n \"$file_path\" ]; then\n    # Run formatter if applicable\n    if command -v prettier &> /dev/null; then\n        prettier --write \"$file_path\" 2>/dev/null || true\n    fi\nfi\n\nexit 0\n";

pub const HOOK_LINT: &'static str = "#!/bin/bash\nset -euo pipefail\n\n# Lint check hook\ninput=$(cat)\nfile_path=$(echo \"$input\" | jq -r '.tool_input.file_path // .tool_input.file // \"\"')\n\nif [ -n \"$file_path\" ]; then\n    # Run linter if applicable\n    if command -v eslint &> /dev/null; then\n        eslint \"$file_path\" 2>/dev/null || true\n    fi\nfi\n\nexit 0\n";

pub const HOOK_FALLBACK_HEAD: &'static str = "#!/bin/bash\nset -euo pipefail\n\n# Custom hook: ";

pub const HOOK_FALLBACK_TAIL: &'static str = "\ninput=$(cat)\n\n# Process input as needed\necho \"$input\" | jq .\n\nexit 0\n";

/// The generic memory document for languages without a dedicated one: one
/// text for the scripting language, one for everything else.
pub open spec fn spec_generic_template(l: Language) -> Seq<char> {
    if l == Language::Python {
        PYTHON_MEMORY_TEMPLATE@
    } else {
        DEFAULT_MEMORY_TEMPLATE@
    }
}

/// The memory document for a language: dedicated text for two languages, a
/// generic fallback for the rest; resolution always succeeds.
pub open spec fn spec_language_claude_md(l: Language) -> Seq<char> {
    match l {
        Language::Rust => RUST_MEMORY_TEMPLATE@,
        Language::TypeScript => TYPESCRIPT_MEMORY_TEMPLATE@,
        _ => spec_generic_template(l),
    }
}

/// The agent scaffold for a name: a named built-in, or the generic scaffold
/// with the requested name substituted in.
pub open spec fn spec_agent_template(name: Seq<char>) -> Seq<char> {
    if name == "code-auditor"@ {
        AGENT_CODE_AUDITOR@
    } else if name == "security-scanner"@ {
        AGENT_SECURITY_SCANNER@
    } else {
        AGENT_FALLBACK_HEAD@ + name + AGENT_FALLBACK_MID@ + name + AGENT_FALLBACK_TAIL@
    }
}

/// The command scaffold for a name: a named built-in, or the generic
/// scaffold with the requested name substituted in.
pub open spec fn spec_command_template(name: Seq<char>) -> Seq<char> {
    if name == "analyze"@ {
        COMMAND_ANALYZE@
    } else if name == "refactor"@ {
        COMMAND_REFACTOR@
    } else {
        COMMAND_FALLBACK_HEAD@ + name + COMMAND_FALLBACK_TAIL@
    }
}

/// The hook scaffold for a name: a named built-in, or the generic scaffold
/// with the requested name substituted in. Every scaffold reads one JSON
/// object from standard input, runs an optional downstream tool, and exits
/// successfully regardless.
pub open spec fn spec_hook_template(name: Seq<char>) -> Seq<char> {
    if name == "format"@ || name == "prettier-format"@ {
        HOOK_FORMAT@
    } else if name == "lint"@ || name == "eslint-check"@ {
        HOOK_LINT@
    } else {
        HOOK_FALLBACK_HEAD@ + name + HOOK_FALLBACK_TAIL@
    }
}

impl TemplateRegistry {
    pub fn new() -> (r: TemplateRegistry) {
        TemplateRegistry
    }

    /// The memory document template for a language; never fails.
    pub fn get_language_claude_md(&self, language: Language) -> (r: String)
        ensures
            r@ == spec_language_claude_md(language),
    {
        match language {
            Language::Rust => String::from_str(RUST_MEMORY_TEMPLATE),
            Language::TypeScript => String::from_str(TYPESCRIPT_MEMORY_TEMPLATE),
            _ => String::from_str(Self::get_generic_template(language)),
        }
    }

    /// The generic memory document for a language without a dedicated one.
    pub fn get_generic_template(language: Language) -> (r: &'static str)
        ensures
            r@ == spec_generic_template(language),
    {
        match language {
            Language::Python => PYTHON_MEMORY_TEMPLATE,
            _ => DEFAULT_MEMORY_TEMPLATE,
        }
    }

    /// The ignore-patterns document; never fails.
    pub fn get_claudeignore_template(&self) -> (r: String)
        ensures
            r@ == CLAUDEIGNORE_TEMPLATE@,
    {
        String::from_str(CLAUDEIGNORE_TEMPLATE)
    }

    /// The agent scaffold for `name`; an unrecognized name resolves to the
    /// generic scaffold with the name substituted, never to an error.
    pub fn get_default_agent_template(&self, name: &str) -> (r: String)
        ensures
            r@ == spec_agent_template(name@),
    {
        if str_eq(name, "code-auditor") {
            String::from_str(AGENT_CODE_AUDITOR)
        } else if str_eq(name, "security-scanner") {
            String::from_str(AGENT_SECURITY_SCANNER)
        } else {
            let mut s = String::from_str(AGENT_FALLBACK_HEAD);
            s.append(name);
            s.append(AGENT_FALLBACK_MID);
            s.append(name);
            s.append(AGENT_FALLBACK_TAIL);
            s
        }
    }

    /// The command scaffold for `name`; an unrecognized name resolves to the
    /// generic scaffold with the name substituted, never to an error.
    pub fn get_default_command_template(&self, name: &str) -> (r: String)
        ensures
            r@ == spec_command_template(name@),
    {
        if str_eq(name, "analyze") {
            String::from_str(COMMAND_ANALYZE)
        } else if str_eq(name, "refactor") {
            String::from_str(COMMAND_REFACTOR)
        } else {
            let mut s = String::from_str(COMMAND_FALLBACK_HEAD);
            s.append(name);
            s.append(COMMAND_FALLBACK_TAIL);
            s
        }
    }

    /// The hook scaffold for `name`; an unrecognized name resolves to the
    /// generic scaffold with the name substituted, never to an error.
    pub fn get_default_hook_template(&self, name: &str, _event: Option<&str>) -> (r: String)
        ensures
            r@ == spec_hook_template(name@),
    {
        if str_eq(name, "format") || str_eq(name, "prettier-format") {
            String::from_str(HOOK_FORMAT)
        } else if str_eq(name, "lint") || str_eq(name, "eslint-check") {
            String::from_str(HOOK_LINT)
        } else {
            let mut s = String::from_str(HOOK_FALLBACK_HEAD);
            s.append(name);
            s.append(HOOK_FALLBACK_TAIL);
            s
        }
    }
}

} // verus!
