use vstd::prelude::*;

use crate::checker::ToolsChecker;

verus! {

/// Drives installation of the auxiliary tools. Deciding what to install is
/// library work; running a package manager is host work done by the caller.
pub struct ToolsInstaller {
    checker: ToolsChecker,
}

impl ToolsInstaller {
    pub fn new() -> (r: ToolsInstaller) {
        ToolsInstaller { checker: ToolsChecker::new() }
    }

    /// The fixed catalog of tools to install: executable name paired with the
    /// package name that installs it.
    pub fn tool_packages(&self) -> (r: Vec<(&'static str, &'static str)>)
        ensures
            r.deep_view() == seq![
                ("rg"@, "ripgrep"@),
                ("fd"@, "fd-find"@),
                ("bat"@, "bat"@),
                ("eza"@, "eza"@),
                ("dust"@, "dust"@),
            ],
    {
        let r: Vec<(&'static str, &'static str)> = vec![
            ("rg", "ripgrep"),
            ("fd", "fd-find"),
            ("bat", "bat"),
            ("eza", "eza"),
            ("dust", "dust"),
        ];
        assert(r.deep_view() =~= seq![
            ("rg"@, "ripgrep"@),
            ("fd"@, "fd-find"@),
            ("bat"@, "bat"@),
            ("eza"@, "eza"@),
            ("dust"@, "dust"@),
        ]);
        r
    }

    /// Whether `tool` is already present on the search path.
    pub fn already_installed(&self, tool: &str) -> bool {
        self.checker.is_installed(tool)
    }
}

} // verus!
