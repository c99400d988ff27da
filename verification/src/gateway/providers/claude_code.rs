//! The terminal agent.

use vstd::prelude::*;

use crate::gateway::types::{
    workspace_roots_or, DecisionStatus, HookOutput, ParseError, ToolCall, ToolHookEvent,
    ToolHookEventView, APPROVAL_PIPELINE_ERROR_MESSAGE, APPROVAL_TIMEOUT_MESSAGE,
};
use crate::json::{json_quote, record1, record2, record3, JsonView};
use crate::protocol::session::SessionId;
use crate::text::{same_text, to_ascii_lowercase};

verus! {

/// What the terminal agent sends of a call, but for the tool and its input.
#[derive(Debug, PartialEq, Eq)]
pub struct ClaudeCodeHookInput {
    pub session_id: SessionId,
    pub cwd: String,
    pub hook_event_name: String,
}

/// The call that the terminal agent asks about. It names no directories but the working
/// directory.
pub fn convert(
    input: ClaudeCodeHookInput,
    tool_call: Result<ToolCall, String>,
    session_display_name: String,
) -> (r: Result<ToolHookEvent, ParseError>)
    ensures
        crate::gateway::types::event_view(r) == match tool_call {
            Ok(tool_call) => Ok(
                ToolHookEventView {
                    session_id: input.session_id@,
                    session_display_name: session_display_name@,
                    tool_call: tool_call@,
                    cwd: input.cwd@,
                    workspace_roots: seq![input.cwd@],
                    hook_event_name: input.hook_event_name@,
                },
            ),
            Err(fault) => Err(fault@),
        },
{
    match tool_call {
        Ok(tool_call) => {
            let workspace_roots = workspace_roots_or(None, input.cwd.as_str());
            Ok(
                ToolHookEvent {
                    session_id: input.session_id,
                    session_display_name,
                    tool_call,
                    cwd: input.cwd,
                    workspace_roots,
                    hook_event_name: input.hook_event_name,
                },
            )
        },
        Err(fault) => Err(ParseError(fault)),
    }
}

/// What is told on a permission request that is not approved.
pub open spec fn denial(decision: HookOutput) -> Seq<char> {
    match decision.status {
        DecisionStatus::DeniedWithReason(reason) => reason@,
        DecisionStatus::TimedOut => APPROVAL_TIMEOUT_MESSAGE@,
        DecisionStatus::PipelineError => APPROVAL_PIPELINE_ERROR_MESSAGE@,
        _ => match decision.message {
            Some(message) => message@,
            None => "denied via remote approval"@,
        },
    }
}

/// What is told on a permission request that is not approved.
fn deny_message(decision: &HookOutput) -> (r: String)
    ensures
        r@ == denial(*decision),
{
    match &decision.status {
        DecisionStatus::DeniedWithReason(reason) => reason.clone(),
        DecisionStatus::TimedOut => APPROVAL_TIMEOUT_MESSAGE.to_string(),
        DecisionStatus::PipelineError => APPROVAL_PIPELINE_ERROR_MESSAGE.to_string(),
        _ => match &decision.message {
            Some(message) => message.clone(),
            None => "denied via remote approval".to_string(),
        },
    }
}

/// What the terminal agent is told on a permission request.
pub open spec fn permission_request_answer(decision: HookOutput) -> JsonView {
    let verdict = if decision.status is Approved {
        JsonView::Object(seq![("behavior"@, JsonView::Text("allow"@))])
    } else {
        JsonView::Object(
            seq![
                ("behavior"@, JsonView::Text("deny"@)),
                ("message"@, JsonView::Text(denial(decision))),
            ],
        )
    };
    JsonView::Object(
        seq![
            (
                "hookSpecificOutput"@,
                JsonView::Object(
                    seq![
                        ("hookEventName"@, JsonView::Text("PermissionRequest"@)),
                        ("decision"@, verdict),
                    ],
                ),
            ),
        ],
    )
}

/// Why, as the terminal agent is told before a tool runs.
pub open spec fn pre_tool_reason(decision: HookOutput) -> Seq<char> {
    match decision.status {
        DecisionStatus::Approved => match decision.message {
            Some(message) => message@,
            None => ""@,
        },
        DecisionStatus::Denied => "denied by policy"@,
        DecisionStatus::DeniedWithReason(reason) => reason@,
        DecisionStatus::TimedOut => APPROVAL_TIMEOUT_MESSAGE@,
        DecisionStatus::PipelineError => APPROVAL_PIPELINE_ERROR_MESSAGE@,
    }
}

/// What the terminal agent is told before a tool runs.
pub open spec fn pre_tool_answer(decision: HookOutput) -> JsonView {
    let permission = if decision.status is Approved {
        "allow"@
    } else {
        "deny"@
    };
    JsonView::Object(
        seq![
            (
                "hookSpecificOutput"@,
                JsonView::Object(
                    seq![
                        ("hookEventName"@, JsonView::Text("PreToolUse"@)),
                        ("permissionDecision"@, JsonView::Text(permission)),
                        ("permissionDecisionReason"@, JsonView::Text(pre_tool_reason(decision))),
                    ],
                ),
            ),
        ],
    )
}

/// What the terminal agent is told. The event's name counts without regard to case; an
/// event that is no permission request is answered as one before a tool runs.
pub open spec fn answer(event_name: Seq<char>, decision: HookOutput) -> JsonView {
    if crate::text::ascii_lowercase(event_name) == "permissionrequest"@ {
        permission_request_answer(decision)
    } else {
        pre_tool_answer(decision)
    }
}

/// Writes a decision for the terminal agent.
pub fn format_output(event: &ToolHookEvent, decision: &HookOutput) -> (r: String)
    ensures
        r@ == crate::json::json_text(answer(event@.hook_event_name, *decision)),
{
    let name = to_ascii_lowercase(event.hook_event_name.as_str());
    let approved = matches!(decision.status, DecisionStatus::Approved);
    if same_text(name.as_str(), "permissionrequest") {
        let ghost told = permission_request_answer(*decision);
        let ghost inner = told->Object_0[0].1;
        let ghost verdict = inner->Object_0[1].1;
        let verdict_text = if approved {
            proof {
                crate::json::record1_is_object("behavior"@, JsonView::Text("allow"@));
            }
            record1("behavior", json_quote("allow").as_str())
        } else {
            let denied = deny_message(decision);
            proof {
                crate::json::record2_is_object(
                    "behavior"@,
                    JsonView::Text("deny"@),
                    "message"@,
                    JsonView::Text(denied@),
                );
            }
            record2(
                "behavior",
                json_quote("deny").as_str(),
                "message",
                json_quote(denied.as_str()).as_str(),
            )
        };
        proof {
            crate::json::record2_is_object(
                "hookEventName"@,
                JsonView::Text("PermissionRequest"@),
                "decision"@,
                verdict,
            );
            crate::json::record1_is_object("hookSpecificOutput"@, inner);
        }
        let inner_text = record2(
            "hookEventName",
            json_quote("PermissionRequest").as_str(),
            "decision",
            verdict_text.as_str(),
        );
        return record1("hookSpecificOutput", inner_text.as_str());
    }
    let permission = if approved {
        "allow"
    } else {
        "deny"
    };
    let reason = match &decision.status {
        DecisionStatus::Approved => match &decision.message {
            Some(message) => message.clone(),
            None => "".to_string(),
        },
        DecisionStatus::Denied => "denied by policy".to_string(),
        DecisionStatus::DeniedWithReason(reason) => reason.clone(),
        DecisionStatus::TimedOut => APPROVAL_TIMEOUT_MESSAGE.to_string(),
        DecisionStatus::PipelineError => APPROVAL_PIPELINE_ERROR_MESSAGE.to_string(),
    };
    let ghost inner = pre_tool_answer(*decision)->Object_0[0].1;
    proof {
        crate::json::record3_is_object(
            "hookEventName"@,
            JsonView::Text("PreToolUse"@),
            "permissionDecision"@,
            JsonView::Text(permission@),
            "permissionDecisionReason"@,
            JsonView::Text(reason@),
        );
        crate::json::record1_is_object("hookSpecificOutput"@, inner);
    }
    let inner_text = record3(
        "hookEventName",
        json_quote("PreToolUse").as_str(),
        "permissionDecision",
        json_quote(permission).as_str(),
        "permissionDecisionReason",
        json_quote(reason.as_str()).as_str(),
    );
    record1("hookSpecificOutput", inner_text.as_str())
}

/// Nothing but an approval lets a call through: on any event, the answer says
/// `allow` where the call is approved and `deny` where it is not.
pub proof fn only_an_approval_allows(event_name: Seq<char>, decision: HookOutput)
    ensures
        ({
            let verdict = if decision.status is Approved { "allow"@ } else { "deny"@ };
            let told = answer(event_name, decision).member("hookSpecificOutput"@);
            &&& told is Some
            &&& if crate::text::ascii_lowercase(event_name) == "permissionrequest"@ {
                let decided = told->0.member("decision"@);
                decided is Some && decided->0.text_member("behavior"@) == Some(verdict)
            } else {
                told->0.text_member("permissionDecision"@) == Some(verdict)
            }
        }),
{
    reveal_strlit("hookEventName");
    reveal_strlit("decision");
    reveal_strlit("permissionDecision");
    assert("hookEventName"@.len() != "decision"@.len());
    assert("hookEventName"@.len() != "permissionDecision"@.len());
    reveal_with_fuel(crate::json::first_member, 3);
    let told = answer(event_name, decision)->Object_0[0].1;
    assert(told->Object_0.drop_first()[0] == told->Object_0[1]);
}

/// The words for a time-out and for a fault of the server reach the agent as they
/// are, and so does the operator's reason.
pub proof fn reasons_are_told_as_they_are(decision: HookOutput)
    ensures
        decision.status is TimedOut ==> pre_tool_reason(decision) == APPROVAL_TIMEOUT_MESSAGE@
            && denial(decision) == APPROVAL_TIMEOUT_MESSAGE@,
        decision.status is PipelineError ==> pre_tool_reason(decision)
            == APPROVAL_PIPELINE_ERROR_MESSAGE@ && denial(decision)
            == APPROVAL_PIPELINE_ERROR_MESSAGE@,
        decision.status is DeniedWithReason ==> pre_tool_reason(decision)
            == decision.status->DeniedWithReason_0@ && denial(decision)
            == decision.status->DeniedWithReason_0@,
{
}

/// A call is accepted exactly where its tool call can be read, and is then the one that
/// was sent: its session, its event, its working directory and its tool call are those
/// of the input, and its directories are those that are named, or else the working
/// directory.
pub proof fn accepted_call_is_the_one_sent(
    input: ClaudeCodeHookInput,
    tool_call: Result<ToolCall, String>,
    session_display_name: String,
    r: Result<ToolHookEvent, ParseError>,
)
    requires
        call_ensures(convert, (input, tool_call, session_display_name), r),
    ensures
        r is Ok <==> tool_call is Ok,
        r matches Err(fault) ==> fault.0@ == tool_call->Err_0@,
        r matches Ok(event) ==> {
            &&& event.session_id@ == input.session_id@
            &&& event.session_display_name@ == session_display_name@
            &&& event.hook_event_name@ == input.hook_event_name@
            &&& event.cwd@ == input.cwd@
            &&& event.tool_call.tool@ == tool_call->Ok_0.tool@
            &&& event.tool_call.input@ == tool_call->Ok_0.input@
            &&& event.workspace_roots@.len() == 1
            &&& event.workspace_roots@[0]@ == input.cwd@
        },
{
    if let Ok(event) = r {
        let shown = crate::text::texts(event.workspace_roots@);
        assert(shown.len() == event.workspace_roots@.len());
        assert(shown[0] == event.workspace_roots@[0]@);
    }
}

/// The words of a decision stand where the terminal agent looks for them: on a
/// permission request that is not approved as the message, before a tool runs as the
/// reason. A plain denial gives its message, or says that it was remote, on a
/// permission request, and policy before a tool runs.
pub proof fn words_stand_where_they_are_read(event_name: Seq<char>, decision: HookOutput)
    ensures
        ({
            let told = answer(event_name, decision).member("hookSpecificOutput"@);
            let words = if crate::text::ascii_lowercase(event_name) == "permissionrequest"@ {
                told->0.member("decision"@)->0.text_member("message"@)
            } else {
                told->0.text_member("permissionDecisionReason"@)
            };
            &&& decision.status is TimedOut ==> words == Some(APPROVAL_TIMEOUT_MESSAGE@)
            &&& decision.status is PipelineError ==> words == Some(
                APPROVAL_PIPELINE_ERROR_MESSAGE@,
            )
            &&& decision.status matches DecisionStatus::DeniedWithReason(reason) ==> words == Some(
                reason@,
            )
            &&& crate::text::ascii_lowercase(event_name) == "permissionrequest"@ ==> {
                &&& told->0.text_member("hookEventName"@) == Some("PermissionRequest"@)
                &&& decision.status is Approved ==> words is None
                &&& decision.status is Denied && decision.message is Some ==> words == Some(
                    decision.message->0@,
                )
                &&& decision.status is Denied && decision.message is None ==> words == Some(
                    "denied via remote approval"@,
                )
            }
            &&& crate::text::ascii_lowercase(event_name) != "permissionrequest"@ ==> {
                &&& told->0.text_member("hookEventName"@) == Some("PreToolUse"@)
                &&& decision.status is Denied ==> words == Some("denied by policy"@)
                &&& decision.status is Approved && decision.message is Some ==> words == Some(
                    decision.message->0@,
                )
                &&& decision.status is Approved && decision.message is None ==> words == Some(""@)
            }
        }),
{
    reveal_strlit("hookEventName");
    reveal_strlit("decision");
    reveal_strlit("permissionDecision");
    reveal_strlit("permissionDecisionReason");
    reveal_strlit("behavior");
    reveal_strlit("message");
    assert("hookEventName"@.len() == 13 && "decision"@.len() == 8);
    assert("permissionDecision"@.len() == 18 && "permissionDecisionReason"@.len() == 24);
    assert("behavior"@.len() == 8 && "message"@.len() == 7);
    let verdict = permission_request_answer(decision)->Object_0[0].1->Object_0[1].1;
    crate::json::member_of_one("behavior"@, JsonView::Text("allow"@));
    crate::json::member_of_two(
        "behavior"@,
        JsonView::Text("deny"@),
        "message"@,
        JsonView::Text(denial(decision)),
    );
    crate::json::member_of_two(
        "hookEventName"@,
        JsonView::Text("PermissionRequest"@),
        "decision"@,
        verdict,
    );
    crate::json::member_of_one(
        "hookSpecificOutput"@,
        permission_request_answer(decision)->Object_0[0].1,
    );
    let permission = JsonView::Text(
        if decision.status is Approved {
            "allow"@
        } else {
            "deny"@
        },
    );
    crate::json::member_of_three(
        "hookEventName"@,
        JsonView::Text("PreToolUse"@),
        "permissionDecision"@,
        permission,
        "permissionDecisionReason"@,
        JsonView::Text(pre_tool_reason(decision)),
    );
    crate::json::member_of_one("hookSpecificOutput"@, pre_tool_answer(decision)->Object_0[0].1);
}

/// What is written for the terminal agent allows the call exactly where it is approved,
/// on either event, with the words where they are read.
pub proof fn decision_is_written_as_taken(event: &ToolHookEvent, decision: &HookOutput, r: String)
    requires
        call_ensures(format_output, (event, decision), r),
    ensures
        exists|told: JsonView| {
            let on_request = crate::text::ascii_lowercase(event.hook_event_name@)
                == "permissionrequest"@;
            let output = told.member("hookSpecificOutput"@)->0;
            let verdict = if on_request {
                output.member("decision"@)->0.text_member("behavior"@)
            } else {
                output.text_member("permissionDecision"@)
            };
            let words = if on_request {
                output.member("decision"@)->0.text_member("message"@)
            } else {
                output.text_member("permissionDecisionReason"@)
            };
            &&& r@ == #[trigger] crate::json::json_text(told)
            &&& told.member("hookSpecificOutput"@) is Some
            &&& output.text_member("hookEventName"@) == Some(
                if on_request {
                    "PermissionRequest"@
                } else {
                    "PreToolUse"@
                },
            )
            &&& verdict == Some(
                if decision.status is Approved {
                    "allow"@
                } else {
                    "deny"@
                },
            )
            &&& match decision.status {
                DecisionStatus::Approved => words == (if on_request {
                    None
                } else if decision.message is Some {
                    Some(decision.message->0@)
                } else {
                    Some(""@)
                }),
                DecisionStatus::Denied => words == Some(
                    if !on_request {
                        "denied by policy"@
                    } else if decision.message is Some {
                        decision.message->0@
                    } else {
                        "denied via remote approval"@
                    },
                ),
                DecisionStatus::DeniedWithReason(given) => words == Some(given@),
                DecisionStatus::TimedOut => words == Some(APPROVAL_TIMEOUT_MESSAGE@),
                DecisionStatus::PipelineError => words == Some(APPROVAL_PIPELINE_ERROR_MESSAGE@),
            }
        },
{
    only_an_approval_allows(event.hook_event_name@, *decision);
    words_stand_where_they_are_read(event.hook_event_name@, *decision);
    assert(r@ == crate::json::json_text(answer(event.hook_event_name@, *decision)));
}

} // verus!
