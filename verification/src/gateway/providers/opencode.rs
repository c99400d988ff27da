//! OpenCode.

use vstd::prelude::*;

use crate::gateway::types::{
    workspace_roots_or, DecisionStatus, HookOutput, ParseError, ToolCall, ToolHookEvent,
    ToolHookEventView, APPROVAL_PIPELINE_ERROR_MESSAGE, APPROVAL_TIMEOUT_MESSAGE,
};
use crate::json::{json_quote, record1, record2, JsonView};
use crate::paths::{is_absolute, normalize_path};
use crate::protocol::session::SessionId;
use crate::text::chars_of;

verus! {

/// What OpenCode sends of a call, but for the tool and its input.
#[derive(Debug, PartialEq, Eq)]
pub struct OpenCodeHookInput {
    pub session_id: SessionId,
    pub session_title: Option<String>,
    pub cwd: String,
    pub workspace_roots: Option<Vec<String>>,
    pub hook_event_name: String,
}

/// The name to show for a session: its title, where it has one.
pub open spec fn title_or(title: Option<String>, otherwise: Seq<char>) -> Seq<char> {
    match title {
        Some(title) => if title@.len() > 0 {
            title@
        } else {
            otherwise
        },
        None => otherwise,
    }
}

/// The call that OpenCode asks about, or why there is none. A working directory
/// must be given and start at the root; it is taken without `.` and `..`.
pub open spec fn converted(
    input: OpenCodeHookInput,
    tool_call: Result<ToolCall, String>,
    default_display_name: Seq<char>,
) -> Result<ToolHookEventView, Seq<char>> {
    if input.cwd@.len() == 0 {
        Err("OpenCode cwd must not be empty"@)
    } else if !crate::paths::absolute(input.cwd@) {
        Err("OpenCode cwd must be absolute"@)
    } else {
        let cwd = crate::paths::normalized(input.cwd@);
        match tool_call {
            Ok(tool_call) => Ok(
                ToolHookEventView {
                    session_id: input.session_id@,
                    session_display_name: title_or(input.session_title, default_display_name),
                    tool_call: tool_call@,
                    cwd,
                    workspace_roots: crate::gateway::types::roots_or(input.workspace_roots, cwd),
                    hook_event_name: input.hook_event_name@,
                },
            ),
            Err(fault) => Err(fault@),
        }
    }
}

/// The call that OpenCode asks about, or why there is none. The session is shown
/// by its title, or by `default_display_name` where it has none.
pub fn convert(
    input: OpenCodeHookInput,
    tool_call: Result<ToolCall, String>,
    default_display_name: String,
) -> (r: Result<ToolHookEvent, ParseError>)
    ensures
        crate::gateway::types::event_view(r) == converted(
            input,
            tool_call,
            default_display_name@,
        ),
{
    if chars_of(input.cwd.as_str()).len() == 0 {
        return Err(ParseError("OpenCode cwd must not be empty".to_string()));
    }
    if !is_absolute(input.cwd.as_str()) {
        return Err(ParseError("OpenCode cwd must be absolute".to_string()));
    }
    let cwd = normalize_path(input.cwd.as_str());
    let tool_call = match tool_call {
        Ok(tool_call) => tool_call,
        Err(fault) => {
            return Err(ParseError(fault));
        },
    };
    let workspace_roots = workspace_roots_or(input.workspace_roots, cwd.as_str());
    let session_display_name = match input.session_title {
        Some(title) => {
            if chars_of(title.as_str()).len() > 0 {
                title
            } else {
                default_display_name
            }
        },
        None => default_display_name,
    };
    Ok(
        ToolHookEvent {
            session_id: input.session_id,
            session_display_name,
            tool_call,
            cwd,
            workspace_roots,
            hook_event_name: input.hook_event_name,
        },
    )
}

/// Why a call is not allowed.
pub open spec fn denial(decision: HookOutput) -> Seq<char> {
    match decision.status {
        DecisionStatus::DeniedWithReason(reason) => reason@,
        DecisionStatus::TimedOut => APPROVAL_TIMEOUT_MESSAGE@,
        DecisionStatus::PipelineError => APPROVAL_PIPELINE_ERROR_MESSAGE@,
        _ => "denied by policy"@,
    }
}

/// What OpenCode is told: whether the call is allowed, and why not.
pub open spec fn answer(decision: HookOutput) -> JsonView {
    if decision.status is Approved {
        JsonView::Object(seq![("allowed"@, JsonView::Bool(true))])
    } else {
        JsonView::Object(
            seq![
                ("allowed"@, JsonView::Bool(false)),
                ("reason"@, JsonView::Text(denial(decision))),
            ],
        )
    }
}

/// Writes a decision for OpenCode.
pub fn format_output(_event: &ToolHookEvent, decision: &HookOutput) -> (r: String)
    ensures
        r@ == crate::json::json_text(answer(*decision)),
{
    let reason = match &decision.status {
        DecisionStatus::Approved => {
            proof {
                crate::json::record1_is_object("allowed"@, JsonView::Bool(true));
            }
            return record1("allowed", "true");
        },
        DecisionStatus::Denied => "denied by policy",
        DecisionStatus::DeniedWithReason(reason) => reason.as_str(),
        DecisionStatus::TimedOut => APPROVAL_TIMEOUT_MESSAGE,
        DecisionStatus::PipelineError => APPROVAL_PIPELINE_ERROR_MESSAGE,
    };
    proof {
        crate::json::record2_is_object(
            "allowed"@,
            JsonView::Bool(false),
            "reason"@,
            JsonView::Text(reason@),
        );
    }
    record2("allowed", "false", "reason", json_quote(reason).as_str())
}

/// Nothing but an approval lets a call through.
pub proof fn only_an_approval_allows(decision: HookOutput)
    ensures
        answer(decision).member("allowed"@) == Some(JsonView::Bool(decision.status is Approved)),
{
}

/// The words for a time-out and for a fault of the server reach the agent as they
/// are, and so does the operator's reason.
pub proof fn reasons_are_told_as_they_are(decision: HookOutput)
    ensures
        decision.status is TimedOut ==> answer(decision).text_member("reason"@) == Some(
            APPROVAL_TIMEOUT_MESSAGE@,
        ),
        decision.status is PipelineError ==> answer(decision).text_member("reason"@) == Some(
            APPROVAL_PIPELINE_ERROR_MESSAGE@,
        ),
        decision.status is DeniedWithReason ==> answer(decision).text_member("reason"@) == Some(
            decision.status->DeniedWithReason_0@,
        ),
{
    reveal_strlit("allowed");
    reveal_strlit("reason");
    assert("allowed"@.len() != "reason"@.len());
    reveal_with_fuel(crate::json::first_member, 3);
    let members = answer(decision)->Object_0;
    if members.len() == 2 {
        assert(members.drop_first()[0] == members[1]);
    }
}

/// A working directory that is accepted is absolute and free of `.` and `..`.
pub proof fn accepted_directory_is_plain(
    input: OpenCodeHookInput,
    tool_call: Result<ToolCall, String>,
    default_display_name: Seq<char>,
)
    ensures
        converted(input, tool_call, default_display_name) matches Ok(event) ==> {
            &&& crate::paths::absolute(event.cwd)
            &&& crate::paths::normalized(event.cwd) == event.cwd
        },
{
    crate::paths::normalized_path_is_plain(input.cwd@);
}

/// A call that is accepted is the one that was sent: it belongs to the session that the
/// input names, whatever the session's title, and its event and its tool call are
/// those of the input.
pub proof fn accepted_call_is_the_one_sent(
    input: OpenCodeHookInput,
    tool_call: Result<ToolCall, String>,
    default_display_name: String,
    r: Result<ToolHookEvent, ParseError>,
)
    requires
        call_ensures(convert, (input, tool_call, default_display_name), r),
    ensures
        r matches Ok(event) ==> {
            &&& event.session_id@ == input.session_id@
            &&& event.hook_event_name@ == input.hook_event_name@
            &&& tool_call is Ok
            &&& event.tool_call.tool@ == tool_call->Ok_0.tool@
            &&& event.tool_call.input@ == tool_call->Ok_0.input@
        },
{
}

/// The same, for every title: two inputs that differ in their titles alone are calls of
/// one session, and differ in the name to show alone.
pub proof fn title_changes_the_shown_name_alone(
    input: OpenCodeHookInput,
    other: OpenCodeHookInput,
    tool_call: Result<ToolCall, String>,
    default_display_name: Seq<char>,
)
    requires
        input.session_id@ == other.session_id@,
        input.cwd@ == other.cwd@,
        input.workspace_roots == other.workspace_roots,
        input.hook_event_name@ == other.hook_event_name@,
    ensures
        ({
            let one = converted(input, tool_call, default_display_name);
            let two = converted(other, tool_call, default_display_name);
            &&& one is Ok == two is Ok
            &&& one is Err ==> one == two
            &&& one matches Ok(event) ==> {
                &&& event.session_id == input.session_id@
                &&& event.session_id == two->Ok_0.session_id
                &&& event.tool_call == two->Ok_0.tool_call
                &&& event.cwd == two->Ok_0.cwd
                &&& event.workspace_roots == two->Ok_0.workspace_roots
                &&& event.hook_event_name == two->Ok_0.hook_event_name
            }
        }),
{
}

/// A session is shown by its title where it has one that is not empty, and by the name
/// given for it otherwise.
pub proof fn session_is_shown_by_its_title(
    input: OpenCodeHookInput,
    tool_call: Result<ToolCall, String>,
    default_display_name: String,
    r: Result<ToolHookEvent, ParseError>,
)
    requires
        call_ensures(convert, (input, tool_call, default_display_name), r),
    ensures
        r matches Ok(event) ==> {
            &&& input.session_title is Some && input.session_title->0@.len() > 0
                ==> event.session_display_name@ == input.session_title->0@
            &&& input.session_title is None || input.session_title->0@.len() == 0
                ==> event.session_display_name@ == default_display_name@
        },
{
}

/// A call is accepted exactly where its working directory starts at the root and its
/// tool call can be read. Each refusal names its ground, the directory first.
pub proof fn call_is_refused_for_its_directory_or_tool(
    input: OpenCodeHookInput,
    tool_call: Result<ToolCall, String>,
    default_display_name: String,
    r: Result<ToolHookEvent, ParseError>,
)
    requires
        call_ensures(convert, (input, tool_call, default_display_name), r),
    ensures
        r is Ok <==> input.cwd@.len() > 0 && input.cwd@[0] == '/' && tool_call is Ok,
        input.cwd@.len() == 0 ==> r is Err && r->Err_0.0@ == "OpenCode cwd must not be empty"@,
        input.cwd@.len() > 0 && input.cwd@[0] != '/' ==> r is Err && r->Err_0.0@
            == "OpenCode cwd must be absolute"@,
        input.cwd@.len() > 0 && input.cwd@[0] == '/' && tool_call is Err ==> r is Err
            && r->Err_0.0@ == tool_call->Err_0@,
{
}

/// The directories of an accepted call are those that are named, or else its working
/// directory as it is taken.
pub proof fn accepted_call_has_directories(
    input: OpenCodeHookInput,
    tool_call: Result<ToolCall, String>,
    default_display_name: String,
    r: Result<ToolHookEvent, ParseError>,
)
    requires
        call_ensures(convert, (input, tool_call, default_display_name), r),
    ensures
        r matches Ok(event) ==> {
            &&& event.workspace_roots@.len() > 0
            &&& input.workspace_roots is None || input.workspace_roots->0@.len() == 0
                ==> event.workspace_roots@.len() == 1 && event.workspace_roots@[0]@ == event.cwd@
            &&& input.workspace_roots matches Some(roots) ==> roots@.len() > 0
                ==> crate::text::texts(event.workspace_roots@) == crate::text::texts(roots@)
        },
{
    if let Ok(event) = r {
        let shown = crate::text::texts(event.workspace_roots@);
        assert(shown.len() == event.workspace_roots@.len());
        if let Some(roots) = input.workspace_roots {
            assert(crate::text::texts(roots@).len() == roots@.len());
        }
        if input.workspace_roots is None || input.workspace_roots->0@.len() == 0 {
            assert(shown[0] == event.workspace_roots@[0]@);
        }
    }
}

/// An approval gives no reason, and any other outcome gives one: a plain denial comes
/// from policy.
pub proof fn refusal_gives_a_reason(decision: HookOutput)
    ensures
        decision.status is Approved ==> answer(decision).member("reason"@) is None,
        decision.status is Denied ==> answer(decision).text_member("reason"@) == Some(
            "denied by policy"@,
        ),
        !(decision.status is Approved) ==> answer(decision).text_member("reason"@) is Some,
{
    reveal_strlit("allowed");
    reveal_strlit("reason");
    assert("allowed"@.len() != "reason"@.len());
    crate::json::member_of_one("allowed"@, JsonView::Bool(true));
    crate::json::member_of_two(
        "allowed"@,
        JsonView::Bool(false),
        "reason"@,
        JsonView::Text(denial(decision)),
    );
}

/// An accepted call runs in the directory that was sent, without its detours.
pub proof fn accepted_call_runs_where_it_was_sent(
    input: OpenCodeHookInput,
    tool_call: Result<ToolCall, String>,
    default_display_name: String,
    r: Result<ToolHookEvent, ParseError>,
)
    requires
        call_ensures(convert, (input, tool_call, default_display_name), r),
    ensures
        r matches Ok(event) ==> event.cwd@ == crate::paths::normalized(input.cwd@)
            && event.cwd@.len() > 0 && event.cwd@[0] == '/',
{
    crate::paths::normalized_path_is_plain(input.cwd@);
}

/// What is written for OpenCode allows the call exactly where it is approved, and gives
/// the reason otherwise: the operator's, that nobody answered, that the server could not
/// be asked, or policy.
pub proof fn decision_is_written_as_taken(event: &ToolHookEvent, decision: &HookOutput, r: String)
    requires
        call_ensures(format_output, (event, decision), r),
    ensures
        exists|told: JsonView| {
            let reason = told.text_member("reason"@);
            &&& r@ == #[trigger] crate::json::json_text(told)
            &&& told.member("allowed"@) == Some(JsonView::Bool(decision.status is Approved))
            &&& match decision.status {
                DecisionStatus::Approved => told.member("reason"@) is None,
                DecisionStatus::Denied => reason == Some("denied by policy"@),
                DecisionStatus::DeniedWithReason(given) => reason == Some(given@),
                DecisionStatus::TimedOut => reason == Some(APPROVAL_TIMEOUT_MESSAGE@),
                DecisionStatus::PipelineError => reason == Some(APPROVAL_PIPELINE_ERROR_MESSAGE@),
            }
        },
{
    only_an_approval_allows(*decision);
    reasons_are_told_as_they_are(*decision);
    refusal_gives_a_reason(*decision);
    assert(r@ == crate::json::json_text(answer(*decision)));
}

} // verus!
