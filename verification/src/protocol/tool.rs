//! Tools that an agent may ask to run.

use vstd::prelude::*;

use crate::text::same_text;

verus! {

/// A tool, as the server tells tools apart.
#[derive(Debug, PartialEq, Eq)]
pub enum Tool {
    Bash,
    Write,
    /// Any other tool, by its name.
    Unknown(String),
}

/// What a `Tool` says.
pub enum ToolView {
    Bash,
    Write,
    Unknown(Seq<char>),
}

impl View for Tool {
    type V = ToolView;

    open spec fn view(&self) -> ToolView {
        match self {
            Tool::Bash => ToolView::Bash,
            Tool::Write => ToolView::Write,
            Tool::Unknown(name) => ToolView::Unknown(name@),
        }
    }
}

impl ToolView {
    /// The name that the tool is called by.
    pub open spec fn name(self) -> Seq<char> {
        match self {
            ToolView::Bash => "Bash"@,
            ToolView::Write => "Write"@,
            ToolView::Unknown(name) => name,
        }
    }
}

impl ToolView {
    /// The tool that is called by a name.
    pub open spec fn named(name: Seq<char>) -> ToolView {
        if name == "Bash"@ {
            ToolView::Bash
        } else if name == "Write"@ {
            ToolView::Write
        } else {
            ToolView::Unknown(name)
        }
    }
}

/// A tool keeps the name that it is called by.
pub proof fn tool_name_is_kept(name: Seq<char>)
    ensures
        ToolView::named(name).name() == name,
{
}

impl Clone for Tool {
    fn clone(&self) -> (r: Self)
        ensures
            r@ == self@,
    {
        match self {
            Tool::Bash => Tool::Bash,
            Tool::Write => Tool::Write,
            Tool::Unknown(name) => Tool::Unknown(name.clone()),
        }
    }
}

impl Tool {
    /// Whether this is the shell.
    pub fn is_bash(&self) -> (r: bool)
        ensures
            r == (self@ is Bash),
    {
        match self {
            Tool::Bash => true,
            _ => false,
        }
    }

    /// The tool that is called by a name.
    pub fn from_name(name: &str) -> (r: Tool)
        ensures
            r@ == ToolView::named(name@),
    {
        if same_text(name, "Bash") {
            Tool::Bash
        } else if same_text(name, "Write") {
            Tool::Write
        } else {
            Tool::Unknown(name.to_string())
        }
    }

    /// The name that the tool is called by.
    pub fn as_str(&self) -> (r: &str)
        ensures
            r@ == self@.name(),
    {
        match self {
            Tool::Bash => "Bash",
            Tool::Write => "Write",
            Tool::Unknown(name) => name.as_str(),
        }
    }
}

/// A tool is the shell exactly where it is called by the shell's name, and keeps the name
/// that it is called by.
pub proof fn tool_is_told_by_its_name(name: &str, tool: Tool, shell: bool, told: &str)
    requires
        call_ensures(Tool::from_name, (name,), tool),
        call_ensures(Tool::is_bash, (&tool,), shell),
        call_ensures(Tool::as_str, (&tool,), told),
    ensures
        told@ == name@,
        shell <==> name@ == "Bash"@,
        tool is Bash <==> name@ == "Bash"@,
        tool is Write <==> name@ == "Write"@,
{
    reveal_strlit("Bash");
    reveal_strlit("Write");
    assert("Bash"@.len() == 4 && "Write"@.len() == 5);
}

} // verus!
