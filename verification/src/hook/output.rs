//! What the hook writes for the program that called it.

use vstd::prelude::*;

use crate::json::{Json, JsonView};
use crate::text::{joined, same_text};

verus! {

/// The program that called the hook, by what it expects to read.
#[derive(Clone, Copy, Debug, PartialEq, Eq, Structural)]
pub enum OutputFormat {
    Cursor,
    Claude,
}

/// The first text of two that may be absent, or a third.
pub open spec fn first_text(
    a: Option<Seq<char>>,
    b: Option<Seq<char>>,
    otherwise: Seq<char>,
) -> Seq<char> {
    match a {
        Some(a) => a,
        None => match b {
            Some(b) => b,
            None => otherwise,
        },
    }
}

/// The first text of two that may be absent, or a third.
fn first_of_texts<'a>(a: Option<&'a str>, b: Option<&'a str>, otherwise: &'a str) -> (r: &'a str)
    ensures
        r@ == first_text(crate::json::opt_text(a), crate::json::opt_text(b), otherwise@),
{
    match a {
        Some(a) => a,
        None => match b {
            Some(b) => b,
            None => otherwise,
        },
    }
}

/// What is wrong with a status that is no decision.
pub open spec fn unexpected_status(status_type: Seq<char>) -> Seq<char> {
    "unexpected approval status: "@ + status_type
}

/// What Cursor is told.
pub open spec fn cursor_answer(
    status_type: Seq<char>,
    message: Option<Seq<char>>,
    reason: Option<Seq<char>>,
) -> Result<JsonView, Seq<char>> {
    let told = JsonView::Text(first_text(reason, message, "resolved via remote approval"@));
    let answer = |permission: Seq<char>|
        JsonView::Object(
            seq![
                ("agent_message"@, told),
                ("permission"@, JsonView::Text(permission)),
                ("user_message"@, told),
            ],
        );
    if status_type == "approved"@ {
        Ok(answer("allow"@))
    } else if status_type == "denied"@ {
        Ok(answer("deny"@))
    } else {
        Err(unexpected_status(status_type))
    }
}

/// What the terminal agent is told on a permission request.
pub open spec fn permission_answer(
    status_type: Seq<char>,
    message: Option<Seq<char>>,
    reason: Option<Seq<char>>,
) -> Result<JsonView, Seq<char>> {
    let answer = |decision: JsonView|
        JsonView::Object(
            seq![
                (
                    "hookSpecificOutput"@,
                    JsonView::Object(
                        seq![
                            ("decision"@, decision),
                            ("hookEventName"@, JsonView::Text("PermissionRequest"@)),
                        ],
                    ),
                ),
            ],
        );
    if status_type == "approved"@ {
        Ok(answer(JsonView::Object(seq![("behavior"@, JsonView::Text("allow"@))])))
    } else if status_type == "denied"@ {
        Ok(
            answer(
                JsonView::Object(
                    seq![
                        ("behavior"@, JsonView::Text("deny"@)),
                        (
                            "message"@,
                            JsonView::Text(
                                first_text(reason, message, "denied via remote approval"@),
                            ),
                        ),
                    ],
                ),
            ),
        )
    } else {
        Err(unexpected_status(status_type))
    }
}

/// What the terminal agent is told before a tool runs.
pub open spec fn pre_tool_answer(
    status_type: Seq<char>,
    message: Option<Seq<char>>,
    reason: Option<Seq<char>>,
) -> Result<JsonView, Seq<char>> {
    let answer = |permission: Seq<char>, why: Seq<char>|
        JsonView::Object(
            seq![
                (
                    "hookSpecificOutput"@,
                    JsonView::Object(
                        seq![
                            ("hookEventName"@, JsonView::Text("PreToolUse"@)),
                            ("permissionDecision"@, JsonView::Text(permission)),
                            ("permissionDecisionReason"@, JsonView::Text(why)),
                        ],
                    ),
                ),
            ],
        );
    if status_type == "approved"@ {
        Ok(answer("allow"@, first_text(message, None, ""@)))
    } else if status_type == "denied"@ {
        Ok(answer("deny"@, first_text(reason, message, "denied via remote approval"@)))
    } else {
        Err(unexpected_status(status_type))
    }
}

/// What the terminal agent is told.
pub open spec fn claude_answer(
    hook_event: Seq<char>,
    status_type: Seq<char>,
    message: Option<Seq<char>>,
    reason: Option<Seq<char>>,
) -> Result<JsonView, Seq<char>> {
    if hook_event == "PermissionRequest"@ {
        permission_answer(status_type, message, reason)
    } else if hook_event == "PreToolUse"@ {
        pre_tool_answer(status_type, message, reason)
    } else {
        Err("unsupported hook event: "@ + hook_event)
    }
}

/// What the program that called the hook is told.
pub open spec fn hook_answer(
    format: OutputFormat,
    hook_event: Seq<char>,
    status_type: Seq<char>,
    message: Option<Seq<char>>,
    reason: Option<Seq<char>>,
) -> Result<JsonView, Seq<char>> {
    match format {
        OutputFormat::Cursor => cursor_answer(status_type, message, reason),
        OutputFormat::Claude => claude_answer(hook_event, status_type, message, reason),
    }
}

/// Whether `r` is the text of an answer, or says why there is none.
pub open spec fn written(r: Result<String, String>, answer: Result<JsonView, Seq<char>>) -> bool {
    match answer {
        Ok(document) => r is Ok && r->Ok_0@ == crate::json::json_text(document),
        Err(fault) => r is Err && r->Err_0@ == fault,
    }
}

/// Writes a decision for Cursor.
pub fn format_cursor_output(
    status_type: &str,
    message: Option<&str>,
    reason: Option<&str>,
) -> (r: Result<String, String>)
    ensures
        written(
            r,
            cursor_answer(
                status_type@,
                crate::json::opt_text(message),
                crate::json::opt_text(reason),
            ),
        ),
{
    let permission = if same_text(status_type, "approved") {
        "allow"
    } else if same_text(status_type, "denied") {
        "deny"
    } else {
        return Err(joined("unexpected approval status: ", status_type));
    };
    let told = first_of_texts(reason, message, "resolved via remote approval");
    proof {
        reveal_strlit("agent_message");
        reveal_strlit("permission");
        reveal_strlit("user_message");
        crate::json::three_members_are_kept(
            "agent_message"@,
            JsonView::Text(told@),
            "permission"@,
            JsonView::Text(permission@),
            "user_message"@,
            JsonView::Text(told@),
        );
    }
    let output = Json::object3(
        "agent_message",
        Json::from_str_slice(told),
        "permission",
        Json::from_str_slice(permission),
        "user_message",
        Json::from_str_slice(told),
    );
    Ok(output.to_text())
}

/// Writes a decision on a permission request for the terminal agent.
fn format_permission_output(
    status_type: &str,
    message: Option<&str>,
    reason: Option<&str>,
) -> (r: Result<String, String>)
    ensures
        written(
            r,
            permission_answer(
                status_type@,
                crate::json::opt_text(message),
                crate::json::opt_text(reason),
            ),
        ),
{
    let decision = if same_text(status_type, "approved") {
        Json::object1("behavior", Json::from_str_slice("allow"))
    } else if same_text(status_type, "denied") {
        let why = first_of_texts(reason, message, "denied via remote approval");
        proof {
            reveal_strlit("behavior");
            reveal_strlit("message");
            crate::json::two_members_are_kept(
                "behavior"@,
                JsonView::Text("deny"@),
                "message"@,
                JsonView::Text(why@),
            );
        }
        Json::object2(
            "behavior",
            Json::from_str_slice("deny"),
            "message",
            Json::from_str_slice(why),
        )
    } else {
        return Err(joined("unexpected approval status: ", status_type));
    };
    proof {
        reveal_strlit("decision");
        reveal_strlit("hookEventName");
        crate::json::two_members_are_kept(
            "decision"@,
            decision@,
            "hookEventName"@,
            JsonView::Text("PermissionRequest"@),
        );
    }
    let output = Json::object1(
        "hookSpecificOutput",
        Json::object2(
            "decision",
            decision,
            "hookEventName",
            Json::from_str_slice("PermissionRequest"),
        ),
    );
    Ok(output.to_text())
}

/// Writes a decision before a tool runs for the terminal agent.
fn format_pre_tool_output(status_type: &str, message: Option<&str>, reason: Option<&str>) -> (r:
    Result<String, String>)
    ensures
        written(
            r,
            pre_tool_answer(
                status_type@,
                crate::json::opt_text(message),
                crate::json::opt_text(reason),
            ),
        ),
{
    let (permission, why) = if same_text(status_type, "approved") {
        ("allow", first_of_texts(message, None, ""))
    } else if same_text(status_type, "denied") {
        ("deny", first_of_texts(reason, message, "denied via remote approval"))
    } else {
        return Err(joined("unexpected approval status: ", status_type));
    };
    proof {
        reveal_strlit("hookEventName");
        reveal_strlit("permissionDecision");
        reveal_strlit("permissionDecisionReason");
        reveal_strlit("Reason");
        assert("permissionDecisionReason"@ =~= "permissionDecision"@ + "Reason"@);
        crate::text::start_stands_before("permissionDecision"@, "Reason"@);
        crate::json::three_members_are_kept(
            "hookEventName"@,
            JsonView::Text("PreToolUse"@),
            "permissionDecision"@,
            JsonView::Text(permission@),
            "permissionDecisionReason"@,
            JsonView::Text(why@),
        );
    }
    let output = Json::object1(
        "hookSpecificOutput",
        Json::object3(
            "hookEventName",
            Json::from_str_slice("PreToolUse"),
            "permissionDecision",
            Json::from_str_slice(permission),
            "permissionDecisionReason",
            Json::from_str_slice(why),
        ),
    );
    Ok(output.to_text())
}

/// Writes a decision for the terminal agent.
pub fn format_claude_output(
    hook_event: &str,
    status_type: &str,
    message: Option<&str>,
    reason: Option<&str>,
) -> (r: Result<String, String>)
    ensures
        written(
            r,
            claude_answer(
                hook_event@,
                status_type@,
                crate::json::opt_text(message),
                crate::json::opt_text(reason),
            ),
        ),
{
    if same_text(hook_event, "PermissionRequest") {
        format_permission_output(status_type, message, reason)
    } else if same_text(hook_event, "PreToolUse") {
        format_pre_tool_output(status_type, message, reason)
    } else {
        Err(joined("unsupported hook event: ", hook_event))
    }
}

/// Writes a decision for the program that called the hook.
pub fn format_output(
    format: &OutputFormat,
    hook_event: &str,
    status_type: &str,
    message: Option<&str>,
    reason: Option<&str>,
) -> (r: Result<String, String>)
    ensures
        written(
            r,
            hook_answer(
                *format,
                hook_event@,
                status_type@,
                crate::json::opt_text(message),
                crate::json::opt_text(reason),
            ),
        ),
{
    match format {
        OutputFormat::Cursor => format_cursor_output(status_type, message, reason),
        OutputFormat::Claude => format_claude_output(hook_event, status_type, message, reason),
    }
}

/// The permission that a delegate's answer holds.
pub open spec fn permission_in(format: OutputFormat, answer: JsonView) -> Option<Seq<char>> {
    match format {
        OutputFormat::Cursor => answer.text_member("permission"@),
        OutputFormat::Claude => match answer.member("hookSpecificOutput"@) {
            Some(output) => output.text_member("permissionDecision"@),
            None => None,
        },
    }
}

/// The permission that a delegate's answer holds.
pub fn extract_permission<'a>(format: &OutputFormat, json: &'a Json) -> (r: Option<&'a str>)
    ensures
        crate::json::opt_text(r) == permission_in(*format, json@),
{
    match format {
        OutputFormat::Cursor => json.get_str("permission"),
        OutputFormat::Claude => match json.get("hookSpecificOutput") {
            Some(output) => output.get_str("permissionDecision"),
            None => None,
        },
    }
}

/// What is written before a tool runs can be read back as the decision: an
/// approval as `allow`, a denial as `deny`.
pub proof fn written_decision_is_read_back(
    format: OutputFormat,
    approved: bool,
    message: Option<Seq<char>>,
    reason: Option<Seq<char>>,
)
    ensures
        ({
            let status_type = if approved { "approved"@ } else { "denied"@ };
            let answer = hook_answer(format, "PreToolUse"@, status_type, message, reason);
            &&& answer is Ok
            &&& permission_in(format, answer->Ok_0) == Some(
                if approved { "allow"@ } else { "deny"@ },
            )
        }),
{
    reveal_strlit("agent_message");
    reveal_strlit("permission");
    reveal_strlit("hookEventName");
    reveal_strlit("permissionDecision");
    reveal_strlit("PreToolUse");
    reveal_strlit("PermissionRequest");
    reveal_strlit("approved");
    reveal_strlit("denied");
    assert("PermissionRequest"@.len() != "PreToolUse"@.len());
    assert("approved"@.len() != "denied"@.len());
    assert("agent_message"@.len() != "permission"@.len());
    assert("hookEventName"@.len() != "permissionDecision"@.len());
    reveal_with_fuel(crate::json::first_member, 3);
    let status_type = if approved { "approved"@ } else { "denied"@ };
    let answer = hook_answer(format, "PreToolUse"@, status_type, message, reason)->Ok_0;
    let members = match format {
        OutputFormat::Cursor => answer->Object_0,
        OutputFormat::Claude => answer->Object_0[0].1->Object_0,
    };
    assert(members.drop_first()[0] == members[1]);
}

/// Nothing but an approval is written so that it lets a call through.
pub proof fn only_an_approval_is_written_as_allow(
    format: OutputFormat,
    status_type: Seq<char>,
    message: Option<Seq<char>>,
    reason: Option<Seq<char>>,
)
    ensures
        hook_answer(format, "PreToolUse"@, status_type, message, reason) matches Ok(answer)
            ==> permission_in(format, answer) == Some("allow"@) ==> status_type == "approved"@,
{
    reveal_strlit("allow");
    reveal_strlit("deny");
    assert("allow"@.len() != "deny"@.len());
    if status_type == "denied"@ {
        written_decision_is_read_back(format, false, message, reason);
    }
    reveal_strlit("PreToolUse");
    reveal_strlit("PermissionRequest");
    assert("PermissionRequest"@.len() != "PreToolUse"@.len());
}

/// On a permission request the terminal agent is told to let a call through exactly
/// where it is approved. Where it is denied it is told so, with the reason, or else
/// the message, or else that the decision was remote.
pub proof fn permission_request_is_decided_as_told(
    status_type: Seq<char>,
    message: Option<Seq<char>>,
    reason: Option<Seq<char>>,
)
    ensures
        ({
            let answer = hook_answer(
                OutputFormat::Claude,
                "PermissionRequest"@,
                status_type,
                message,
                reason,
            );
            &&& answer is Ok <==> status_type == "approved"@ || status_type == "denied"@
            &&& answer matches Ok(told) ==> {
                &&& told.member("hookSpecificOutput"@) matches Some(output) && {
                    &&& output.text_member("hookEventName"@) == Some("PermissionRequest"@)
                    &&& output.member("decision"@) matches Some(decision) && {
                        &&& decision.text_member("behavior"@) == Some("allow"@)
                            <==> status_type == "approved"@
                        &&& decision.text_member("behavior"@) == Some("deny"@)
                            <==> status_type == "denied"@
                        &&& status_type == "denied"@ && reason is Some ==> decision.text_member(
                            "message"@,
                        ) == reason
                        &&& status_type == "denied"@ && reason is None && message is Some
                            ==> decision.text_member("message"@) == message
                        &&& status_type == "denied"@ && reason is None && message is None
                            ==> decision.text_member("message"@) == Some(
                            "denied via remote approval"@,
                        )
                        &&& status_type == "approved"@ ==> decision.member("message"@) is None
                    }
                }
            }
        }),
{
    words_differ();
    let allow = JsonView::Text("allow"@);
    let deny = JsonView::Text("deny"@);
    let event = JsonView::Text("PermissionRequest"@);
    let why = JsonView::Text(first_text(reason, message, "denied via remote approval"@));
    crate::json::member_of_one("behavior"@, allow);
    crate::json::member_of_two("behavior"@, deny, "message"@, why);
    let approved = JsonView::Object(seq![("behavior"@, allow)]);
    let denied = JsonView::Object(seq![("behavior"@, deny), ("message"@, why)]);
    crate::json::member_of_two("decision"@, approved, "hookEventName"@, event);
    crate::json::member_of_two("decision"@, denied, "hookEventName"@, event);
    crate::json::member_of_one(
        "hookSpecificOutput"@,
        JsonView::Object(seq![("decision"@, approved), ("hookEventName"@, event)]),
    );
    crate::json::member_of_one(
        "hookSpecificOutput"@,
        JsonView::Object(seq![("decision"@, denied), ("hookEventName"@, event)]),
    );
}

/// Before a tool runs the terminal agent is told to let a call through exactly where
/// it is approved, with the message; where it is denied, with the reason, or else the
/// message, or else that the decision was remote.
pub proof fn call_is_decided_as_told(
    status_type: Seq<char>,
    message: Option<Seq<char>>,
    reason: Option<Seq<char>>,
)
    ensures
        ({
            let answer = hook_answer(
                OutputFormat::Claude,
                "PreToolUse"@,
                status_type,
                message,
                reason,
            );
            &&& answer is Ok <==> status_type == "approved"@ || status_type == "denied"@
            &&& answer matches Ok(told) ==> {
                &&& told.member("hookSpecificOutput"@) matches Some(output) && {
                    &&& output.text_member("hookEventName"@) == Some("PreToolUse"@)
                    &&& output.text_member("permissionDecision"@) == Some("allow"@)
                        <==> status_type == "approved"@
                    &&& output.text_member("permissionDecision"@) == Some("deny"@)
                        <==> status_type == "denied"@
                    &&& status_type == "approved"@ && message is Some ==> output.text_member(
                        "permissionDecisionReason"@,
                    ) == message
                    &&& status_type == "approved"@ && message is None ==> output.text_member(
                        "permissionDecisionReason"@,
                    ) == Some(""@)
                    &&& status_type == "denied"@ && reason is Some ==> output.text_member(
                        "permissionDecisionReason"@,
                    ) == reason
                    &&& status_type == "denied"@ && reason is None && message is Some
                        ==> output.text_member("permissionDecisionReason"@) == message
                    &&& status_type == "denied"@ && reason is None && message is None
                        ==> output.text_member("permissionDecisionReason"@) == Some(
                        "denied via remote approval"@,
                    )
                }
            }
        }),
{
    words_differ();
    let event = JsonView::Text("PreToolUse"@);
    let permission = JsonView::Text(
        if status_type == "approved"@ {
            "allow"@
        } else {
            "deny"@
        },
    );
    let why = JsonView::Text(
        if status_type == "approved"@ {
            first_text(message, None, ""@)
        } else {
            first_text(reason, message, "denied via remote approval"@)
        },
    );
    crate::json::member_of_three(
        "hookEventName"@,
        event,
        "permissionDecision"@,
        permission,
        "permissionDecisionReason"@,
        why,
    );
    crate::json::member_of_one(
        "hookSpecificOutput"@,
        JsonView::Object(
            seq![
                ("hookEventName"@, event),
                ("permissionDecision"@, permission),
                ("permissionDecisionReason"@, why),
            ],
        ),
    );
}

/// Cursor is told to let a call through exactly where it is approved, whatever event
/// the hook was called on. User and agent are told the same: the reason, or else the
/// message, or else that the decision was remote.
pub proof fn cursor_is_told_the_decision(
    hook_event: Seq<char>,
    status_type: Seq<char>,
    message: Option<Seq<char>>,
    reason: Option<Seq<char>>,
)
    ensures
        ({
            let answer = hook_answer(
                OutputFormat::Cursor,
                hook_event,
                status_type,
                message,
                reason,
            );
            &&& answer is Ok <==> status_type == "approved"@ || status_type == "denied"@
            &&& answer matches Ok(told) ==> {
                &&& told.text_member("permission"@) == Some("allow"@) <==> status_type
                    == "approved"@
                &&& told.text_member("permission"@) == Some("deny"@) <==> status_type == "denied"@
                &&& told.text_member("user_message"@) == told.text_member("agent_message"@)
                &&& reason is Some ==> told.text_member("user_message"@) == reason
                &&& reason is None && message is Some ==> told.text_member("user_message"@)
                    == message
                &&& reason is None && message is None ==> told.text_member("user_message"@)
                    == Some("resolved via remote approval"@)
            }
        }),
{
    words_differ();
    let told = JsonView::Text(first_text(reason, message, "resolved via remote approval"@));
    let permission = JsonView::Text(
        if status_type == "approved"@ {
            "allow"@
        } else {
            "deny"@
        },
    );
    crate::json::member_of_three(
        "agent_message"@,
        told,
        "permission"@,
        permission,
        "user_message"@,
        told,
    );
}

/// No answer is made up for a status that is no decision, nor for an event that the
/// terminal agent does not wait on: the status or the event is named as the fault.
pub proof fn nothing_is_told_without_a_decision(
    format: OutputFormat,
    hook_event: Seq<char>,
    status_type: Seq<char>,
    message: Option<Seq<char>>,
    reason: Option<Seq<char>>,
)
    ensures
        ({
            let answer = hook_answer(format, hook_event, status_type, message, reason);
            let known_event = hook_event == "PreToolUse"@ || hook_event == "PermissionRequest"@;
            &&& format is Claude && !known_event ==> answer == Err::<JsonView, Seq<char>>(
                "unsupported hook event: "@ + hook_event,
            )
            &&& (format is Cursor || known_event) && status_type != "approved"@ && status_type
                != "denied"@ ==> answer == Err::<JsonView, Seq<char>>(
                "unexpected approval status: "@ + status_type,
            )
        }),
{
}

/// The names and values that answers are made of are told apart.
proof fn words_differ()
    ensures
        "approved"@ != "denied"@,
        "allow"@ != "deny"@,
        "PermissionRequest"@ != "PreToolUse"@,
        "decision"@ != "hookEventName"@,
        "behavior"@ != "message"@,
        "hookEventName"@ != "permissionDecision"@,
        "hookEventName"@ != "permissionDecisionReason"@,
        "permissionDecision"@ != "permissionDecisionReason"@,
        "agent_message"@ != "permission"@,
        "agent_message"@ != "user_message"@,
        "permission"@ != "user_message"@,
{
    reveal_strlit("approved");
    reveal_strlit("denied");
    reveal_strlit("allow");
    reveal_strlit("deny");
    reveal_strlit("PermissionRequest");
    reveal_strlit("PreToolUse");
    reveal_strlit("decision");
    reveal_strlit("hookEventName");
    reveal_strlit("behavior");
    reveal_strlit("message");
    reveal_strlit("permissionDecision");
    reveal_strlit("permissionDecisionReason");
    reveal_strlit("agent_message");
    reveal_strlit("permission");
    reveal_strlit("user_message");
    assert("approved"@.len() == 8 && "denied"@.len() == 6);
    assert("allow"@.len() == 5 && "deny"@.len() == 4);
    assert("PermissionRequest"@.len() == 17 && "PreToolUse"@.len() == 10);
    assert("decision"@.len() == 8 && "hookEventName"@.len() == 13);
    assert("behavior"@.len() == 8 && "message"@.len() == 7);
    assert("permissionDecision"@.len() == 18 && "permissionDecisionReason"@.len() == 24);
    assert("agent_message"@.len() == 13 && "permission"@.len() == 10);
    assert("user_message"@.len() == 12);
}

/// Whether an answer lets the call through, as the program that reads it takes it.
pub open spec fn lets_through(format: OutputFormat, hook_event: Seq<char>, told: JsonView) -> bool {
    match format {
        OutputFormat::Cursor => told.text_member("permission"@) == Some("allow"@),
        OutputFormat::Claude => told.member("hookSpecificOutput"@) matches Some(output) && if hook_event
            == "PermissionRequest"@ {
            output.member("decision"@) matches Some(decision) && decision.text_member("behavior"@)
                == Some("allow"@)
        } else {
            output.text_member("permissionDecision"@) == Some("allow"@)
        },
    }
}

/// Whatever the program, the event and the words, what is written lets a call through
/// exactly where the call is approved.
pub proof fn answer_lets_through_what_is_approved(
    format: OutputFormat,
    hook_event: Seq<char>,
    status_type: Seq<char>,
    message: Option<Seq<char>>,
    reason: Option<Seq<char>>,
)
    ensures
        hook_answer(format, hook_event, status_type, message, reason) matches Ok(told)
            ==> lets_through(format, hook_event, told) == (status_type == "approved"@),
{
    permission_request_is_decided_as_told(status_type, message, reason);
    call_is_decided_as_told(status_type, message, reason);
    cursor_is_told_the_decision(hook_event, status_type, message, reason);
    words_differ();
}

/// What is read as a delegate's permission stands where the program would look for it,
/// and is a text; where it is missing, nothing is read.
pub proof fn permission_is_read_where_it_stands(
    format: OutputFormat,
    answer: JsonView,
    permission: Seq<char>,
)
    ensures
        format is Cursor ==> (permission_in(format, answer) == Some(permission) <==> answer.member(
            "permission"@,
        ) == Some(JsonView::Text(permission))),
        format is Claude ==> (permission_in(format, answer) == Some(permission) <==> (
        answer.member("hookSpecificOutput"@) matches Some(output) && output.member(
            "permissionDecision"@,
        ) == Some(JsonView::Text(permission)))),
{
}

/// The words of an answer, where the program that reads it looks for them.
pub open spec fn words_told(format: OutputFormat, hook_event: Seq<char>, told: JsonView) -> Option<
    Seq<char>,
> {
    match format {
        OutputFormat::Cursor => told.text_member("user_message"@),
        OutputFormat::Claude => match told.member("hookSpecificOutput"@) {
            Some(output) => if hook_event == "PermissionRequest"@ {
                match output.member("decision"@) {
                    Some(decision) => decision.text_member("message"@),
                    None => None,
                }
            } else {
                output.text_member("permissionDecisionReason"@)
            },
            None => None,
        },
    }
}

/// A decision is written as it was taken, with its words: an approval lets the call
/// through and a denial does not; a denial is told with its reason, or else its message,
/// or else that it was remote. Nothing is written for any other status, nor for an event
/// that the terminal agent does not wait on.
pub proof fn decision_is_written_as_taken(
    format: &OutputFormat,
    hook_event: &str,
    status_type: &str,
    message: Option<&str>,
    reason: Option<&str>,
    r: Result<String, String>,
)
    requires
        call_ensures(format_output, (format, hook_event, status_type, message, reason), r) || (
        format is Cursor && call_ensures(format_cursor_output, (status_type, message, reason), r))
            || (format is Claude && call_ensures(
            format_claude_output,
            (hook_event, status_type, message, reason),
            r,
        )),
    ensures
        ({
            let approved = status_type@ == "approved"@;
            let denied = status_type@ == "denied"@;
            let on_request = hook_event@ == "PermissionRequest"@;
            let known_event = hook_event@ == "PreToolUse"@ || on_request;
            &&& r is Ok <==> (approved || denied) && (format is Cursor || known_event)
            &&& r is Err && (format is Cursor || known_event) ==> r->Err_0@
                == "unexpected approval status: "@ + status_type@
            &&& r is Err && format is Claude && !known_event ==> r->Err_0@
                == "unsupported hook event: "@ + hook_event@
            &&& r is Ok ==> exists|told: JsonView| {
                let words = words_told(*format, hook_event@, told);
                &&& r->Ok_0@ == #[trigger] crate::json::json_text(told)
                &&& lets_through(*format, hook_event@, told) == approved
                &&& (denied || format is Cursor) && reason is Some ==> words == Some(reason->0@)
                &&& (denied || format is Cursor) && reason is None && message is Some ==> words
                    == Some(message->0@)
                &&& format is Cursor && reason is None && message is None ==> words == Some(
                    "resolved via remote approval"@,
                )
                &&& denied && format is Claude && reason is None && message is None ==> words
                    == Some("denied via remote approval"@)
                &&& approved && format is Claude && on_request ==> words is None
                &&& approved && format is Claude && !on_request && message is Some ==> words
                    == Some(message->0@)
                &&& approved && format is Claude && !on_request && message is None ==> words
                    == Some(""@)
            }
        }),
{
    words_differ();
    let said = crate::json::opt_text(message);
    let why = crate::json::opt_text(reason);
    let answer = hook_answer(*format, hook_event@, status_type@, said, why);
    assert(written(r, answer));
    permission_request_is_decided_as_told(status_type@, said, why);
    call_is_decided_as_told(status_type@, said, why);
    cursor_is_told_the_decision(hook_event@, status_type@, said, why);
    nothing_is_told_without_a_decision(*format, hook_event@, status_type@, said, why);
    answer_lets_through_what_is_approved(*format, hook_event@, status_type@, said, why);
    if r is Ok {
        let told = answer->Ok_0;
        assert(r->Ok_0@ == crate::json::json_text(told));
    }
}

/// What is read as a delegate's permission is the text that stands where the program
/// would look for it.
pub proof fn permission_is_read_as_written(
    format: &OutputFormat,
    json: &Json,
    r: Option<&str>,
    permission: Seq<char>,
)
    requires
        call_ensures(extract_permission, (format, json), r),
    ensures
        format is Cursor ==> ((r is Some && r->0@ == permission) <==> json@.member("permission"@)
            == Some(JsonView::Text(permission))),
        format is Claude ==> ((r is Some && r->0@ == permission) <==> (json@.member(
            "hookSpecificOutput"@,
        ) is Some && json@.member("hookSpecificOutput"@)->0.member("permissionDecision"@) == Some(
            JsonView::Text(permission),
        ))),
{
}

} // verus!
