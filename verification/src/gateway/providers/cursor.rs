//! Cursor.

use vstd::prelude::*;

use crate::gateway::types::{
    workspace_roots_or, DecisionStatus, HookOutput, ParseError, ToolCall, ToolHookEvent,
    ToolHookEventView, APPROVAL_PIPELINE_ERROR_MESSAGE, APPROVAL_TIMEOUT_MESSAGE,
};
use crate::json::{json_quote, record3, JsonView};
use crate::protocol::session::SessionId;

verus! {

/// What Cursor sends of a call, but for the tool and its input.
#[derive(Debug, PartialEq, Eq)]
pub struct CursorHookInput {
    pub session_id: SessionId,
    pub cwd: String,
    pub workspace_roots: Option<Vec<String>>,
    pub hook_event_name: String,
}

/// The call that Cursor asks about. Where it names no directories, the working
/// directory stands for them.
pub fn convert(
    input: CursorHookInput,
    tool_call: Result<ToolCall, String>,
    session_display_name: String,
) -> (r: Result<ToolHookEvent, ParseError>)
    ensures
        crate::gateway::types::event_view(r) == match tool_call {
            Ok(tool_call) => Ok(
                ToolHookEventView {
                    session_id: input.session_id@,
                    session_display_name: session_display_name@,
                    tool_call: tool_call@,
                    cwd: input.cwd@,
                    workspace_roots: crate::gateway::types::roots_or(
                        input.workspace_roots,
                        input.cwd@,
                    ),
                    hook_event_name: input.hook_event_name@,
                },
            ),
            Err(fault) => Err(fault@),
        },
{
    match tool_call {
        Ok(tool_call) => {
            let workspace_roots = workspace_roots_or(input.workspace_roots, input.cwd.as_str());
            Ok(
                ToolHookEvent {
                    session_id: input.session_id,
                    session_display_name,
                    tool_call,
                    cwd: input.cwd,
                    workspace_roots,
                    hook_event_name: input.hook_event_name,
                },
            )
        },
        Err(fault) => Err(ParseError(fault)),
    }
}

/// What is said with a decision.
pub open spec fn told(decision: HookOutput) -> Seq<char> {
    match decision.status {
        DecisionStatus::DeniedWithReason(reason) => reason@,
        DecisionStatus::TimedOut => APPROVAL_TIMEOUT_MESSAGE@,
        DecisionStatus::PipelineError => APPROVAL_PIPELINE_ERROR_MESSAGE@,
        _ => match decision.message {
            Some(message) => message@,
            None => "resolved via remote approval"@,
        },
    }
}

/// What Cursor is told: the decision, and the same words for the user and the agent.
pub open spec fn answer(decision: HookOutput) -> JsonView {
    let permission = if decision.status is Approved {
        "allow"@
    } else {
        "deny"@
    };
    JsonView::Object(
        seq![
            ("permission"@, JsonView::Text(permission)),
            ("user_message"@, JsonView::Text(told(decision))),
            ("agent_message"@, JsonView::Text(told(decision))),
        ],
    )
}

/// Writes a decision for Cursor.
pub fn format_output(_event: &ToolHookEvent, decision: &HookOutput) -> (r: String)
    ensures
        r@ == crate::json::json_text(answer(*decision)),
{
    let permission = if matches!(decision.status, DecisionStatus::Approved) {
        "allow"
    } else {
        "deny"
    };
    let message = match &decision.status {
        DecisionStatus::DeniedWithReason(reason) => reason.clone(),
        DecisionStatus::TimedOut => APPROVAL_TIMEOUT_MESSAGE.to_string(),
        DecisionStatus::PipelineError => APPROVAL_PIPELINE_ERROR_MESSAGE.to_string(),
        _ => match &decision.message {
            Some(message) => message.clone(),
            None => "resolved via remote approval".to_string(),
        },
    };
    let told_text = json_quote(message.as_str());
    proof {
        crate::json::record3_is_object(
            "permission"@,
            JsonView::Text(permission@),
            "user_message"@,
            JsonView::Text(message@),
            "agent_message"@,
            JsonView::Text(message@),
        );
    }
    record3(
        "permission",
        json_quote(permission).as_str(),
        "user_message",
        told_text.as_str(),
        "agent_message",
        told_text.as_str(),
    )
}

/// Nothing but an approval lets a call through.
pub proof fn only_an_approval_allows(decision: HookOutput)
    ensures
        answer(decision).text_member("permission"@) == Some(
            if decision.status is Approved { "allow"@ } else { "deny"@ },
        ),
{
}

/// The words for a time-out and for a fault of the server reach the agent as they
/// are, and so does the operator's reason.
pub proof fn reasons_are_told_as_they_are(decision: HookOutput)
    ensures
        decision.status is TimedOut ==> told(decision) == APPROVAL_TIMEOUT_MESSAGE@,
        decision.status is PipelineError ==> told(decision) == APPROVAL_PIPELINE_ERROR_MESSAGE@,
        decision.status is DeniedWithReason ==> told(decision)
            == decision.status->DeniedWithReason_0@,
{
}

/// A call is accepted exactly where its tool call can be read, and is then the one that
/// was sent: its session, its event, its working directory and its tool call are those
/// of the input, and its directories are those that are named, or else the working
/// directory.
pub proof fn accepted_call_is_the_one_sent(
    input: CursorHookInput,
    tool_call: Result<ToolCall, String>,
    session_display_name: String,
    r: Result<ToolHookEvent, ParseError>,
)
    requires
        call_ensures(convert, (input, tool_call, session_display_name), r),
    ensures
        r is Ok <==> tool_call is Ok,
        r matches Err(fault) ==> fault.0@ == tool_call->Err_0@,
        r matches Ok(event) ==> {
            &&& event.session_id@ == input.session_id@
            &&& event.session_display_name@ == session_display_name@
            &&& event.hook_event_name@ == input.hook_event_name@
            &&& event.cwd@ == input.cwd@
            &&& event.tool_call.tool@ == tool_call->Ok_0.tool@
            &&& event.tool_call.input@ == tool_call->Ok_0.input@
            &&& input.workspace_roots is None || input.workspace_roots->0@.len() == 0
                ==> event.workspace_roots@.len() == 1 && event.workspace_roots@[0]@ == input.cwd@
            &&& input.workspace_roots matches Some(roots) ==> roots@.len() > 0
                ==> crate::text::texts(event.workspace_roots@) == crate::text::texts(roots@)
        },
{
    if let Ok(event) = r {
        let shown = crate::text::texts(event.workspace_roots@);
        assert(shown.len() == event.workspace_roots@.len());
        if input.workspace_roots is None || input.workspace_roots->0@.len() == 0 {
            assert(shown[0] == event.workspace_roots@[0]@);
        }
    }
}

/// User and agent are told the same, and an approval or a plain denial with a message
/// is told with it.
pub proof fn user_and_agent_are_told_the_same(decision: HookOutput)
    ensures
        ({
            let user = answer(decision).text_member("user_message"@);
            let agent = answer(decision).text_member("agent_message"@);
            &&& user is Some
            &&& user == agent
            &&& decision.status is TimedOut ==> user == Some(APPROVAL_TIMEOUT_MESSAGE@)
            &&& decision.status is PipelineError ==> user == Some(APPROVAL_PIPELINE_ERROR_MESSAGE@)
            &&& decision.status matches DecisionStatus::DeniedWithReason(reason) ==> user == Some(
                reason@,
            )
            &&& (decision.status is Approved || decision.status is Denied) && decision.message
                is Some ==> user == Some(decision.message->0@)
            &&& (decision.status is Approved || decision.status is Denied) && decision.message
                is None ==> user == Some("resolved via remote approval"@)
        }),
{
    reveal_strlit("permission");
    reveal_strlit("user_message");
    reveal_strlit("agent_message");
    assert("permission"@.len() == 10 && "user_message"@.len() == 12 && "agent_message"@.len()
        == 13);
    let words = JsonView::Text(told(decision));
    let permission = JsonView::Text(
        if decision.status is Approved {
            "allow"@
        } else {
            "deny"@
        },
    );
    crate::json::member_of_three(
        "permission"@,
        permission,
        "user_message"@,
        words,
        "agent_message"@,
        words,
    );
}

/// What is written for Cursor allows the call exactly where it is approved, and says the
/// same to the user and to the agent: the operator's reason or message, that nobody
/// answered, that the server could not be asked, or that the decision was remote.
pub proof fn decision_is_written_as_taken(event: &ToolHookEvent, decision: &HookOutput, r: String)
    requires
        call_ensures(format_output, (event, decision), r),
    ensures
        exists|told: JsonView| {
            let user = told.text_member("user_message"@);
            let plain = if decision.message is Some {
                decision.message->0@
            } else {
                "resolved via remote approval"@
            };
            &&& r@ == #[trigger] crate::json::json_text(told)
            &&& told.text_member("permission"@) == Some(
                if decision.status is Approved {
                    "allow"@
                } else {
                    "deny"@
                },
            )
            &&& told.text_member("agent_message"@) == user
            &&& match decision.status {
                DecisionStatus::Approved => user == Some(plain),
                DecisionStatus::Denied => user == Some(plain),
                DecisionStatus::DeniedWithReason(given) => user == Some(given@),
                DecisionStatus::TimedOut => user == Some(APPROVAL_TIMEOUT_MESSAGE@),
                DecisionStatus::PipelineError => user == Some(APPROVAL_PIPELINE_ERROR_MESSAGE@),
            }
        },
{
    only_an_approval_allows(*decision);
    user_and_agent_are_told_the_same(*decision);
    assert(r@ == crate::json::json_text(answer(*decision)));
}

} // verus!
