//! What all providers have in common.

use vstd::prelude::*;

use crate::json::{Json, JsonView};
use crate::protocol::session::SessionId;
use crate::protocol::tool::{Tool, ToolView};

verus! {

/// What is told where the operator did not answer in time.
pub const APPROVAL_TIMEOUT_MESSAGE: &'static str =
    "Your approval request timed out because the operator was away. This is not a denial. Feel free to retry if you still need this.";

/// What is told where the server could not be asked.
pub const APPROVAL_PIPELINE_ERROR_MESSAGE: &'static str =
    "There was an error in the approvals pipeline. This is a null answer: it is neither an approval nor a rejection of your intended action. Do not take this as a signal that your intended path is unwanted. Try again; if the error recurs, abort and report it to the operator.";

/// What came of a request for approval.
#[derive(Debug, PartialEq, Eq)]
pub enum DecisionStatus {
    Approved,
    Denied,
    DeniedWithReason(String),
    /// The operator did not answer in time.
    TimedOut,
    /// The server could not be asked.
    PipelineError,
}

/// What came of a request for approval, with what was said.
#[derive(Debug, PartialEq, Eq)]
pub struct HookOutput {
    pub status: DecisionStatus,
    pub message: Option<String>,
}

/// A tool with what it is called with.
#[derive(Debug, PartialEq)]
pub struct ToolCall {
    pub tool: Tool,
    pub input: Json,
}

/// What a `ToolCall` says.
pub struct ToolCallView {
    pub tool: ToolView,
    pub input: JsonView,
}

impl View for ToolCall {
    type V = ToolCallView;

    open spec fn view(&self) -> ToolCallView {
        ToolCallView { tool: self.tool@, input: self.input@ }
    }
}

/// A call that a provider asks about.
#[derive(Debug, PartialEq)]
pub struct ToolHookEvent {
    pub session_id: SessionId,
    pub session_display_name: String,
    pub tool_call: ToolCall,
    pub cwd: String,
    pub workspace_roots: Vec<String>,
    pub hook_event_name: String,
}

/// What a `ToolHookEvent` says.
pub struct ToolHookEventView {
    pub session_id: Seq<char>,
    pub session_display_name: Seq<char>,
    pub tool_call: ToolCallView,
    pub cwd: Seq<char>,
    pub workspace_roots: Seq<Seq<char>>,
    pub hook_event_name: Seq<char>,
}

impl View for ToolHookEvent {
    type V = ToolHookEventView;

    open spec fn view(&self) -> ToolHookEventView {
        ToolHookEventView {
            session_id: self.session_id@,
            session_display_name: self.session_display_name@,
            tool_call: self.tool_call@,
            cwd: self.cwd@,
            workspace_roots: crate::text::texts(self.workspace_roots@),
            hook_event_name: self.hook_event_name@,
        }
    }
}

/// Why what a provider sent is no call.
#[derive(Debug, PartialEq, Eq)]
pub struct ParseError(pub String);

/// The view of a call or of why there is none.
pub open spec fn event_view(r: Result<ToolHookEvent, ParseError>) -> Result<
    ToolHookEventView,
    Seq<char>,
> {
    match r {
        Ok(event) => Ok(event@),
        Err(fault) => Err(fault.0@),
    }
}

/// The directories of a call: those that the provider names, or else the working
/// directory.
pub open spec fn roots_or(roots: Option<Vec<String>>, cwd: Seq<char>) -> Seq<Seq<char>> {
    match roots {
        Some(roots) => if roots@.len() > 0 {
            crate::text::texts(roots@)
        } else {
            seq![cwd]
        },
        None => seq![cwd],
    }
}

/// The directories of a call.
pub fn workspace_roots_or(roots: Option<Vec<String>>, cwd: &str) -> (r: Vec<String>)
    ensures
        crate::text::texts(r@) == roots_or(roots, cwd@),
{
    match roots {
        Some(roots) => {
            if roots.len() > 0 {
                return roots;
            }
        },
        None => {},
    }
    let mut only: Vec<String> = Vec::new();
    only.push(cwd.to_string());
    assert(crate::text::texts(only@) =~= seq![cwd@]);
    only
}

/// The directories of a call are those that the provider names, all of them and in
/// their order; where it names none, the working directory alone.
pub proof fn named_directories_are_kept(
    roots: Option<Vec<String>>,
    cwd: &str,
    r: Vec<String>,
    i: int,
)
    requires
        call_ensures(workspace_roots_or, (roots, cwd), r),
    ensures
        r@.len() > 0,
        roots matches Some(named) ==> named@.len() > 0 ==> r@.len() == named@.len() && (0 <= i
            < named@.len() ==> r@[i]@ == named@[i]@),
        roots is None || roots->0@.len() == 0 ==> r@.len() == 1 && r@[0]@ == cwd@,
{
    let shown = crate::text::texts(r@);
    assert(shown.len() == r@.len());
    if let Some(named) = roots {
        if named@.len() > 0 {
            assert(shown.len() == crate::text::texts(named@).len());
            if 0 <= i < named@.len() {
                assert(shown[i] == crate::text::texts(named@)[i]);
            }
        }
    }
    if roots is None || roots->0@.len() == 0 {
        assert(shown == seq![cwd@]);
        assert(shown[0] == r@[0]@);
    }
}

} // verus!
