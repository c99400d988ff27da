//! What the hook does with a call, from reading it to answering it.

use vstd::prelude::*;

use crate::hook::config::{
    default_to_resolved, resolve_action, DefaultAction, ResolvedAction, ResolvedActionView,
    ToolConfig,
};
use crate::hook::output::{extract_permission, format_output, OutputFormat};
use crate::hook::remote::{HookInput, Resolution};
use crate::json::{Json, JsonView};
use crate::text::{joined, joined3, opt_str, same_text, split_words, trim, trim_end_char};

verus! {

/// Where to ask how the session of a call is approved.
pub fn approval_mode_url(server: &str, payload: &HookInput) -> (r: Result<String, String>)
    ensures
        match payload.session() {
            Some(session_id) => r is Ok && r->Ok_0@ == crate::hook::remote::server_base(server@)
                + "/api/v1/sessions/"@ + session_id + "/approval-mode"@,
            None => r is Err && r->Err_0@ == "missing session_id/conversation_id in payload"@,
        },
{
    match payload.session_id() {
        Some(session_id) => {
            let base = trim_end_char(server, '/');
            let session = joined3(base.as_str(), "/api/v1/sessions/", session_id);
            Ok(joined(session.as_str(), "/approval-mode"))
        },
        None => Err("missing session_id/conversation_id in payload".to_string()),
    }
}

/// What came of asking how a session is approved.
#[derive(Debug, PartialEq, Eq)]
pub enum ModeReply {
    /// The server could not be asked, and why.
    Unsent(String),
    /// The server does not know the session; this is its HTTP status.
    Refused(String),
    /// The answer could not be read, and why.
    Malformed(String),
    /// The session's approval mode.
    Mode(String),
}

/// What to do once it is known how the session is approved.
#[derive(Debug, PartialEq, Eq)]
pub enum ApproveStep {
    /// Say nothing: the program shows its own dialog.
    FallThrough,
    /// Ask the server, after saying this.
    AskRemote(Option<String>),
}

/// What to do once it is known how the session is approved. A session that the
/// server does not know is asked about remotely.
pub fn after_mode(session_id: &str, reply: ModeReply) -> (r: Result<ApproveStep, String>)
    ensures
        match reply {
            ModeReply::Unsent(fault) => r is Err && r->Err_0@
                == "failed to check approval mode: "@ + fault@,
            ModeReply::Refused(status) => r matches Ok(ApproveStep::AskRemote(Some(notice)))
                && notice@ == "session "@ + session_id@
                + " not found on server ("@ + status@ + "), defaulting to remote"@,
            ModeReply::Malformed(fault) => r is Err && r->Err_0@
                == "failed to parse approval mode: "@ + fault@,
            ModeReply::Mode(mode) => if mode@ == "terminal"@ {
                r == Ok::<_, String>(ApproveStep::FallThrough)
            } else {
                r == Ok::<_, String>(ApproveStep::AskRemote(None))
            },
        },
{
    match reply {
        ModeReply::Unsent(fault) => Err(
            joined("failed to check approval mode: ", fault.as_str()),
        ),
        ModeReply::Refused(status) => {
            let start = joined3("session ", session_id, " not found on server (");
            Ok(
                ApproveStep::AskRemote(
                    Some(joined3(start.as_str(), status.as_str(), "), defaulting to remote")),
                ),
            )
        },
        ModeReply::Malformed(fault) => Err(
            joined("failed to parse approval mode: ", fault.as_str()),
        ),
        ModeReply::Mode(mode) => {
            if same_text(mode.as_str(), "terminal") {
                Ok(ApproveStep::FallThrough)
            } else {
                Ok(ApproveStep::AskRemote(None))
            }
        },
    }
}

/// What the program that called the hook is told of the server's decision.
pub fn remote_output(
    format: &OutputFormat,
    payload: &HookInput,
    result: Result<Resolution, String>,
) -> (r: Result<String, String>)
    ensures
        match result {
            Ok(resolution) => crate::hook::output::written(
                r,
                crate::hook::output::hook_answer(
                    *format,
                    payload.event(),
                    resolution.status_type@,
                    crate::text::opt_view(resolution.message),
                    crate::text::opt_view(resolution.reason),
                ),
            ),
            Err(fault) => r == Err::<String, String>(fault),
        },
{
    match result {
        Ok(resolution) => format_output(
            format,
            payload.hook_event(),
            resolution.status_type.as_str(),
            opt_str(&resolution.message),
            opt_str(&resolution.reason),
        ),
        Err(fault) => Err(fault),
    }
}

/// What becomes of a call by the rules.
pub fn route(config: &ToolConfig, payload: &HookInput) -> (r: ResolvedAction)
    requires
        config@.wf(),
    ensures
        config@.decides(
            payload.tool(),
            match payload.tool_input {
                Some(input) => Some(input@),
                None => None,
            },
            crate::text::opt_view(payload.cwd),
            r@,
        ),
{
    let input = match &payload.tool_input {
        Some(input) => Some(input),
        None => None,
    };
    resolve_action(config, payload.called_tool(), input, opt_str(&payload.cwd))
}

/// What to do about a call that needs no delegate.
#[derive(Debug, PartialEq, Eq)]
pub enum SimpleStep {
    /// Print this, or fail with this.
    Print(Result<String, String>),
    /// Ask the server.
    AskRemote,
}

/// What to do about a call that needs no delegate. A denial without a message
/// says that it comes from policy.
pub fn execute_simple_action(
    action: &ResolvedAction,
    format: &OutputFormat,
    payload: &HookInput,
) -> (r: SimpleStep)
    requires
        !(action@ is Delegate),
    ensures
        match action@ {
            ResolvedActionView::Allow => r matches SimpleStep::Print(printed)
                && crate::hook::output::written(
                printed,
                crate::hook::output::hook_answer(
                    *format,
                    payload.event(),
                    "approved"@,
                    None,
                    None,
                ),
            ),
            ResolvedActionView::Deny(message) => r matches SimpleStep::Print(printed)
                && crate::hook::output::written(
                printed,
                crate::hook::output::hook_answer(
                    *format,
                    payload.event(),
                    "denied"@,
                    None,
                    Some(
                        match message {
                            Some(message) => message,
                            None => "denied by policy"@,
                        },
                    ),
                ),
            ),
            _ => r is AskRemote,
        },
{
    match action {
        ResolvedAction::Allow => SimpleStep::Print(
            format_output(format, payload.hook_event(), "approved", None, None),
        ),
        ResolvedAction::Deny(message) => {
            let reason = match message {
                Some(message) => message.as_str(),
                None => "denied by policy",
            };
            SimpleStep::Print(
                format_output(format, payload.hook_event(), "denied", None, Some(reason)),
            )
        },
        _ => SimpleStep::AskRemote,
    }
}

/// The program and the arguments of a delegate command.
pub fn delegate_words(command: &str) -> (r: Result<Vec<String>, String>)
    ensures
        match r {
            Ok(words) => words@.len() > 0 && crate::text::texts(words@) == crate::text::words(
                command@,
            ),
            Err(fault) => crate::text::words(command@).len() == 0 && fault@
                == "empty delegate command"@,
        },
{
    let words = split_words(command);
    assert(crate::text::texts(words@).len() == words@.len());
    if words.len() == 0 {
        Err("empty delegate command".to_string())
    } else {
        Ok(words)
    }
}

/// How a delegate's run ended.
#[derive(Debug, PartialEq, Eq)]
pub struct DelegateOutput {
    /// The code that it exited with, unless a signal ended it.
    pub exit_code: Option<i32>,
    /// Whether it reports success.
    pub success: bool,
    /// How the system describes the end.
    pub status: String,
    pub stdout: String,
}

/// What came of running a delegate.
#[derive(Debug, PartialEq, Eq)]
pub enum DelegateRun {
    /// The program could not be started, and why.
    NotSpawned { program: String, fault: String },
    /// The call could not be handed to it, and why.
    NotFed(String),
    /// It could not be waited for, and why.
    NotEnded(String),
    /// What it wrote is not a text, and why.
    NotText(String),
    Ended(DelegateOutput),
}

/// What a delegate decided, and what it wrote.
#[derive(Debug, PartialEq, Eq)]
pub struct DelegateResult {
    pub permission: Option<String>,
    pub raw_output: String,
}

/// What a `DelegateResult` says.
pub struct DelegateResultView {
    pub permission: Option<Seq<char>>,
    pub raw_output: Seq<char>,
}

impl View for DelegateResult {
    type V = DelegateResultView;

    open spec fn view(&self) -> DelegateResultView {
        DelegateResultView {
            permission: crate::text::opt_view(self.permission),
            raw_output: self.raw_output@,
        }
    }
}

/// What a delegate decided, given what is read in its output. The exit code 2
/// is a denial, whatever it wrote; any other failure is an error.
pub open spec fn delegate_decision(
    format: OutputFormat,
    output: DelegateOutput,
    parsed: Result<JsonView, Seq<char>>,
) -> Result<DelegateResultView, Seq<char>> {
    if output.exit_code == Some(2i32) {
        Ok(DelegateResultView { permission: Some("deny"@), raw_output: output.stdout@ })
    } else if !output.success {
        Err("delegate exited with status "@ + output.status@)
    } else {
        match parsed {
            Ok(answer) => Ok(
                DelegateResultView {
                    permission: crate::hook::output::permission_in(format, answer),
                    raw_output: output.stdout@,
                },
            ),
            Err(fault) => Err("failed to parse delegate output: "@ + fault),
        }
    }
}

/// What came of a run, given what is read in the delegate's output.
pub open spec fn delegate_outcome(
    format: OutputFormat,
    run: DelegateRun,
    parsed: Result<JsonView, Seq<char>>,
) -> Result<DelegateResultView, Seq<char>> {
    match run {
        DelegateRun::NotSpawned { program, fault } => Err(
            "failed to spawn delegate '"@ + program@ + "': "@ + fault@,
        ),
        DelegateRun::NotFed(fault) => Err("failed to write to delegate stdin: "@ + fault@),
        DelegateRun::NotEnded(fault) => Err("delegate command failed: "@ + fault@),
        DelegateRun::NotText(fault) => Err("delegate output is not valid UTF-8: "@ + fault@),
        DelegateRun::Ended(output) => delegate_decision(format, output, parsed),
    }
}

/// The view of what came of a run.
pub open spec fn delegate_view(r: Result<DelegateResult, String>) -> Result<
    DelegateResultView,
    Seq<char>,
> {
    match r {
        Ok(result) => Ok(result@),
        Err(fault) => Err(fault@),
    }
}

/// The view of what is read in a text.
pub open spec fn parsed_view(parsed: Result<Json, String>) -> Result<JsonView, Seq<char>> {
    match parsed {
        Ok(document) => Ok(document@),
        Err(fault) => Err(fault@),
    }
}

/// The text in which a delegate's answer is looked for.
pub open spec fn delegate_text(run: DelegateRun) -> Seq<char> {
    match run {
        DelegateRun::Ended(output) => crate::text::trimmed(output.stdout@),
        _ => Seq::empty(),
    }
}

/// What came of a run, given what is read in the delegate's output.
pub fn delegate_result_given(
    format: &OutputFormat,
    run: DelegateRun,
    parsed: Result<Json, String>,
) -> (r: Result<DelegateResult, String>)
    ensures
        delegate_view(r) == delegate_outcome(*format, run, parsed_view(parsed)),
{
    match run {
        DelegateRun::NotSpawned { program, fault } => {
            let start = joined3("failed to spawn delegate '", program.as_str(), "': ");
            Err(joined(start.as_str(), fault.as_str()))
        },
        DelegateRun::NotFed(fault) => Err(
            joined("failed to write to delegate stdin: ", fault.as_str()),
        ),
        DelegateRun::NotEnded(fault) => Err(joined("delegate command failed: ", fault.as_str())),
        DelegateRun::NotText(fault) => Err(
            joined("delegate output is not valid UTF-8: ", fault.as_str()),
        ),
        DelegateRun::Ended(output) => {
            let denied = match output.exit_code {
                Some(code) => code == 2,
                None => false,
            };
            if denied {
                return Ok(
                    DelegateResult {
                        permission: Some("deny".to_string()),
                        raw_output: output.stdout,
                    },
                );
            }
            if !output.success {
                return Err(joined("delegate exited with status ", output.status.as_str()));
            }
            match parsed {
                Ok(answer) => {
                    let permission = match extract_permission(format, &answer) {
                        Some(permission) => Some(permission.to_string()),
                        None => None,
                    };
                    Ok(DelegateResult { permission, raw_output: output.stdout })
                },
                Err(fault) => Err(joined("failed to parse delegate output: ", fault.as_str())),
            }
        },
    }
}

/// What came of running a delegate.
pub fn delegate_result(format: &OutputFormat, run: DelegateRun) -> (r: Result<
    DelegateResult,
    String,
>)
    ensures
        delegate_view(r) == delegate_outcome(
            *format,
            run,
            crate::json::parsed_json(delegate_text(run)),
        ),
{
    let text = match &run {
        DelegateRun::Ended(output) => trim(output.stdout.as_str()),
        _ => String::new(),
    };
    assert(text@ =~= delegate_text(run));
    let parsed = Json::from_text(text.as_str());
    delegate_result_given(format, run, parsed)
}

/// What to do once a delegate has decided.
#[derive(Debug, PartialEq, Eq)]
pub enum DelegateStep {
    /// Print what the delegate wrote.
    Print(String),
    /// Do this in its place.
    Act(ResolvedAction),
    /// Fail with this.
    Fail(String),
}

/// What to do once a delegate has decided: its word stands where it allows or
/// denies, the server is asked where it says so, and the default holds where it
/// says nothing.
pub fn after_delegate(result: DelegateResult, default: &DefaultAction) -> (r: DelegateStep)
    ensures
        match result@.permission {
            None => r matches DelegateStep::Act(action) && action@
                == crate::hook::config::default_resolved(*default),
            Some(permission) => if permission == "allow"@ || permission == "deny"@ {
                r matches DelegateStep::Print(printed) && printed@ == result@.raw_output
            } else if permission == "ask"@ {
                r matches DelegateStep::Act(action) && action@ is Ask
            } else {
                r matches DelegateStep::Fail(fault) && fault@
                    == "unexpected permission from delegate: "@ + permission
            },
        },
{
    match &result.permission {
        None => DelegateStep::Act(default_to_resolved(default)),
        Some(permission) => {
            if same_text(permission.as_str(), "allow") || same_text(permission.as_str(), "deny") {
                DelegateStep::Print(result.raw_output)
            } else if same_text(permission.as_str(), "ask") {
                DelegateStep::Act(ResolvedAction::Ask)
            } else {
                DelegateStep::Fail(
                    joined("unexpected permission from delegate: ", permission.as_str()),
                )
            }
        },
    }
}

/// A delegate that exits with the code 2 blocks the call: what it wrote is
/// printed, whatever is in it.
pub proof fn exit_code_two_blocks(
    format: OutputFormat,
    output: DelegateOutput,
    parsed: Result<JsonView, Seq<char>>,
)
    requires
        output.exit_code == Some(2i32),
    ensures
        delegate_outcome(format, DelegateRun::Ended(output), parsed) == Ok::<
            DelegateResultView,
            Seq<char>,
        >(DelegateResultView { permission: Some("deny"@), raw_output: output.stdout@ }),
{
}

/// The program shows its own dialog only where the server says that the session is
/// approved at the terminal. In any other mode, and for a session that the server does
/// not know, the operator is asked; where the mode cannot be had, nothing is decided.
pub proof fn operator_is_asked_unless_at_the_terminal(
    session_id: &str,
    reply: ModeReply,
    r: Result<ApproveStep, String>,
)
    requires
        call_ensures(after_mode, (session_id, reply), r),
    ensures
        r == Ok::<ApproveStep, String>(ApproveStep::FallThrough) <==> (reply matches ModeReply::Mode(
            mode,
        ) && mode@ == "terminal"@),
        (r matches Ok(ApproveStep::AskRemote(_))) <==> reply is Refused || (
        reply matches ModeReply::Mode(mode) && mode@ != "terminal"@),
        r is Err <==> reply is Unsent || reply is Malformed,
        reply is Refused ==> (r matches Ok(ApproveStep::AskRemote(Some(_)))),
{
}

/// What is printed on the server's word lets the call through only where the server
/// says that it is approved; where the server could not be asked, nothing is printed.
pub proof fn only_the_operator_lets_a_call_through(
    format: &OutputFormat,
    payload: &HookInput,
    result: Result<Resolution, String>,
    r: Result<String, String>,
)
    requires
        call_ensures(remote_output, (format, payload, result), r),
    ensures
        result is Err ==> r == Err::<String, String>(result->Err_0),
        r matches Ok(printed) ==> {
            &&& result matches Ok(resolution) && exists|told: JsonView|
                printed@ == #[trigger] crate::json::json_text(told)
                    && crate::hook::output::lets_through(*format, payload.event(), told) == (
                resolution.status_type@ == "approved"@)
        },
{
    if let Ok(resolution) = result {
        crate::hook::output::answer_lets_through_what_is_approved(
            *format,
            payload.event(),
            resolution.status_type@,
            crate::text::opt_view(resolution.message),
            crate::text::opt_view(resolution.reason),
        );
    }
}

/// A call that the rules allow is let through, one that they deny is not, and one that
/// they ask about is put to the server, with nothing printed.
pub proof fn simple_action_is_carried_out(
    action: &ResolvedAction,
    format: &OutputFormat,
    payload: &HookInput,
    r: SimpleStep,
)
    requires
        !(action@ is Delegate),
        call_ensures(execute_simple_action, (action, format, payload), r),
    ensures
        r is AskRemote <==> action@ is Ask,
        (r matches SimpleStep::Print(Ok(printed)) ==> exists|told: JsonView|
            printed@ == #[trigger] crate::json::json_text(told)
                && crate::hook::output::lets_through(*format, payload.event(), told) == (
            action@ is Allow)),
        action@ is Allow && (format is Cursor || payload.event() == "PreToolUse"@
            || payload.event() == "PermissionRequest"@) ==> (r matches SimpleStep::Print(Ok(_))),
{
    reveal_strlit("approved");
    reveal_strlit("denied");
    assert("approved"@.len() != "denied"@.len());
    let reason = match action@ {
        ResolvedActionView::Deny(Some(message)) => message,
        _ => "denied by policy"@,
    };
    crate::hook::output::answer_lets_through_what_is_approved(
        *format,
        payload.event(),
        "approved"@,
        None,
        None,
    );
    crate::hook::output::answer_lets_through_what_is_approved(
        *format,
        payload.event(),
        "denied"@,
        None,
        Some(reason),
    );
    crate::hook::output::permission_request_is_decided_as_told("approved"@, None, None);
    crate::hook::output::call_is_decided_as_told("approved"@, None, None);
    crate::hook::output::cursor_is_told_the_decision(payload.event(), "approved"@, None, None);
}

/// A rule's denial is told with the rule's message, and with policy as the reason where
/// the rule gives none.
pub proof fn denial_by_rule_is_told_with_its_message(
    action: &ResolvedAction,
    format: &OutputFormat,
    payload: &HookInput,
    r: SimpleStep,
)
    requires
        action is Deny,
        call_ensures(execute_simple_action, (action, format, payload), r),
        format is Cursor || payload.event() == "PreToolUse"@ || payload.event()
            == "PermissionRequest"@,
    ensures
        r matches SimpleStep::Print(Ok(printed)) && exists|told: JsonView| {
            let words = crate::hook::output::words_told(*format, payload.event(), told);
            &&& printed@ == #[trigger] crate::json::json_text(told)
            &&& !crate::hook::output::lets_through(*format, payload.event(), told)
            &&& action->Deny_0 is Some ==> words == Some(action->Deny_0->0@)
            &&& action->Deny_0 is None ==> words == Some("denied by policy"@)
        },
{
    let reason = match action->Deny_0 {
        Some(message) => message@,
        None => "denied by policy"@,
    };
    reveal_strlit("approved");
    reveal_strlit("denied");
    assert("approved"@.len() != "denied"@.len());
    crate::hook::output::permission_request_is_decided_as_told("denied"@, None, Some(reason));
    crate::hook::output::call_is_decided_as_told("denied"@, None, Some(reason));
    crate::hook::output::cursor_is_told_the_decision(
        payload.event(),
        "denied"@,
        None,
        Some(reason),
    );
    crate::hook::output::answer_lets_through_what_is_approved(
        *format,
        payload.event(),
        "denied"@,
        None,
        Some(reason),
    );
    let told = crate::hook::output::hook_answer(
        *format,
        payload.event(),
        "denied"@,
        None,
        Some(reason),
    )->Ok_0;
    assert(r matches SimpleStep::Print(Ok(printed)) && printed@ == crate::json::json_text(told));
}

/// The call that the rules are held against is the one that the hook was called on:
/// its tool, its input and its working directory.
pub proof fn rules_see_the_call(config: &ToolConfig, payload: &HookInput, r: ResolvedAction)
    requires
        config@.wf(),
        call_ensures(route, (config, payload), r),
    ensures
        ({
            let tool = match payload.tool_name {
                Some(name) => name@,
                None => "unknown"@,
            };
            let input = match payload.tool_input {
                Some(input) => Some(input@),
                None => None,
            };
            let cwd = match payload.cwd {
                Some(cwd) => Some(cwd@),
                None => None,
            };
            config@.decides(tool, input, cwd, r@)
        }),
{
}

/// A delegate's word is taken only where it ends well: it is what its output says. One
/// that fails is no decision, unless it exits with the code 2, which is a denial.
pub proof fn delegate_is_heard_only_where_it_ends_well(
    format: &OutputFormat,
    run: DelegateRun,
    parsed: Result<Json, String>,
    r: Result<DelegateResult, String>,
)
    requires
        call_ensures(delegate_result_given, (format, run, parsed), r),
    ensures
        !(run is Ended) ==> r is Err,
        run matches DelegateRun::Ended(output) ==> {
            &&& output.exit_code == Some(2i32) ==> r is Ok && r->Ok_0@.permission == Some("deny"@)
            &&& output.exit_code != Some(2i32) && !output.success ==> r is Err
            &&& output.exit_code != Some(2i32) && output.success && parsed is Err ==> r is Err
            &&& output.exit_code != Some(2i32) && output.success ==> (parsed matches Ok(answer)
                ==> r is Ok && r->Ok_0@.permission == crate::hook::output::permission_in(
                *format,
                answer@,
            ))
            &&& r matches Ok(result) ==> result@.raw_output == output.stdout@
        },
{
}

/// A delegate that allows or denies has the last word: what it wrote is printed as it
/// is. One that asks sends the call to the server, one that says nothing leaves it to
/// the default, and any other word is a fault.
pub proof fn delegate_has_the_last_word(
    result: DelegateResult,
    default: &DefaultAction,
    r: DelegateStep,
)
    requires
        call_ensures(after_delegate, (result, default), r),
    ensures
        ({
            let said = result@.permission;
            &&& r is Print <==> said == Some("allow"@) || said == Some("deny"@)
            &&& r matches DelegateStep::Print(printed) ==> printed@ == result@.raw_output
            &&& r is Fail <==> said is Some && said != Some("allow"@) && said != Some("deny"@)
                && said != Some("ask"@)
            &&& said == Some("ask"@) ==> (r matches DelegateStep::Act(action) && action@ is Ask)
            &&& said is None ==> (r matches DelegateStep::Act(action) && {
                &&& action@ is Allow <==> default is Allow
                &&& action@ is Deny <==> default is Deny
                &&& action@ is Ask <==> default is Ask
            })
        }),
{
    reveal_strlit("allow");
    reveal_strlit("deny");
    reveal_strlit("ask");
    assert("allow"@.len() == 5 && "deny"@.len() == 4 && "ask"@.len() == 3);
}

/// The operator's words are passed on: what is printed of a denial shows its reason, or
/// else its message; of an approval before a tool runs, and to Cursor, its message.
pub proof fn words_of_the_operator_are_passed_on(
    format: &OutputFormat,
    payload: &HookInput,
    resolution: Resolution,
    r: Result<String, String>,
)
    requires
        call_ensures(remote_output, (format, payload, Ok(resolution)), r),
        r is Ok,
    ensures
        exists|told: JsonView| {
            let words = crate::hook::output::words_told(*format, payload.event(), told);
            let denied = resolution.status_type@ == "denied"@;
            &&& r->Ok_0@ == #[trigger] crate::json::json_text(told)
            &&& (denied || format is Cursor) && resolution.reason is Some ==> words == Some(
                resolution.reason->0@,
            )
            &&& (denied || format is Cursor) && resolution.reason is None && resolution.message
                is Some ==> words == Some(resolution.message->0@)
            &&& !denied && format is Claude && payload.event() == "PreToolUse"@
                && resolution.message is Some ==> words == Some(resolution.message->0@)
        },
{
    let message = crate::text::opt_view(resolution.message);
    let reason = crate::text::opt_view(resolution.reason);
    let status = resolution.status_type@;
    reveal_strlit("PermissionRequest");
    reveal_strlit("PreToolUse");
    assert("PermissionRequest"@.len() == 17 && "PreToolUse"@.len() == 10);
    crate::hook::output::permission_request_is_decided_as_told(status, message, reason);
    crate::hook::output::call_is_decided_as_told(status, message, reason);
    crate::hook::output::cursor_is_told_the_decision(payload.event(), status, message, reason);
    crate::hook::output::nothing_is_told_without_a_decision(
        *format,
        payload.event(),
        status,
        message,
        reason,
    );
    let told = crate::hook::output::hook_answer(
        *format,
        payload.event(),
        status,
        message,
        reason,
    )->Ok_0;
    assert(r->Ok_0@ == crate::json::json_text(told));
}

/// The approval mode is asked for at the server, for the session of the call; a call
/// that names no session cannot be asked about.
pub proof fn mode_is_asked_for_the_session(
    server: &str,
    payload: &HookInput,
    r: Result<String, String>,
)
    requires
        call_ensures(approval_mode_url, (server, payload), r),
    ensures
        r is Err <==> payload.session_id is None && payload.conversation_id is None,
        r is Err ==> r->Err_0@ == "missing session_id/conversation_id in payload"@,
        r is Ok ==> {
            let session = if payload.session_id is Some {
                payload.session_id->0@
            } else {
                payload.conversation_id->0@
            };
            r->Ok_0@ == crate::text::without_trailing(server@, '/') + "/api/v1/sessions/"@ + session
                + "/approval-mode"@
        },
{
}

/// A delegate command has a program wherever it has a word at all, and all its words are
/// kept.
pub proof fn delegate_is_called_with_its_words(command: &str, r: Result<Vec<String>, String>)
    requires
        call_ensures(delegate_words, (command,), r),
    ensures
        r is Err <==> crate::text::words(command@).len() == 0,
        r is Err ==> r->Err_0@ == "empty delegate command"@,
        r is Ok ==> r->Ok_0@.len() == crate::text::words(command@).len() && forall|i: int|
            0 <= i < r->Ok_0@.len() ==> (#[trigger] r->Ok_0@[i])@ == crate::text::words(
                command@,
            )[i],
{
    if let Ok(words) = r {
        let shown = crate::text::texts(words@);
        assert(shown.len() == words@.len());
        assert forall|i: int| 0 <= i < words@.len() implies (#[trigger] words@[i])@
            == crate::text::words(command@)[i] by {
            assert(shown[i] == words@[i]@);
        }
    }
}

/// A delegate is heard by what it wrote, read without the blanks around it; one that
/// could not be run or fed, or whose output is no text or no document, is no decision;
/// one that exits with the code 2 denies.
pub proof fn delegate_is_heard_by_what_it_wrote(
    format: &OutputFormat,
    run: DelegateRun,
    r: Result<DelegateResult, String>,
)
    requires
        call_ensures(delegate_result, (format, run), r),
    ensures
        !(run is Ended) ==> r is Err,
        run matches DelegateRun::Ended(output) ==> {
            let denies = output.exit_code == Some(2i32);
            let answer = crate::json::parsed_json(crate::text::trimmed(output.stdout@));
            &&& r is Ok <==> denies || (output.success && answer is Ok)
            &&& r is Ok ==> r->Ok_0.raw_output@ == output.stdout@
            &&& denies ==> r->Ok_0.permission is Some && r->Ok_0.permission->0@ == "deny"@
            &&& !denies && r is Ok && format is Cursor ==> crate::text::opt_view(
                r->Ok_0.permission,
            ) == answer->Ok_0.text_member("permission"@)
            &&& !denies && r is Ok && format is Claude && answer->Ok_0.member(
                "hookSpecificOutput"@,
            ) is Some ==> crate::text::opt_view(r->Ok_0.permission) == answer->Ok_0.member(
                "hookSpecificOutput"@,
            )->0.text_member("permissionDecision"@)
            &&& !denies && r is Ok && format is Claude && answer->Ok_0.member(
                "hookSpecificOutput"@,
            ) is None ==> r->Ok_0.permission is None
        },
{
}

/// Each failure of a delegate says what failed and why.
pub proof fn delegate_failure_says_why(
    format: &OutputFormat,
    run: DelegateRun,
    parsed: Result<Json, String>,
    r: Result<DelegateResult, String>,
)
    requires
        call_ensures(delegate_result_given, (format, run, parsed), r),
        r is Err,
    ensures
        match run {
            DelegateRun::NotSpawned { program, fault } => r->Err_0@
                == "failed to spawn delegate '"@ + program@ + "': "@ + fault@,
            DelegateRun::NotFed(fault) => r->Err_0@ == "failed to write to delegate stdin: "@
                + fault@,
            DelegateRun::NotEnded(fault) => r->Err_0@ == "delegate command failed: "@ + fault@,
            DelegateRun::NotText(fault) => r->Err_0@ == "delegate output is not valid UTF-8: "@
                + fault@,
            DelegateRun::Ended(output) => if output.success {
                parsed is Err && r->Err_0@ == "failed to parse delegate output: "@
                    + parsed->Err_0@
            } else {
                r->Err_0@ == "delegate exited with status "@ + output.status@
            },
        },
{
}

/// Where the mode of a session cannot be had, it is said what failed and why; where the
/// server does not know the session, the operator is told so on the way to being asked.
pub proof fn missing_mode_is_told(
    session_id: &str,
    reply: ModeReply,
    r: Result<ApproveStep, String>,
)
    requires
        call_ensures(after_mode, (session_id, reply), r),
    ensures
        reply matches ModeReply::Unsent(why) ==> r is Err && r->Err_0@
            == "failed to check approval mode: "@ + why@,
        reply matches ModeReply::Malformed(why) ==> r is Err && r->Err_0@
            == "failed to parse approval mode: "@ + why@,
        reply matches ModeReply::Refused(status) ==> (r matches Ok(
            ApproveStep::AskRemote(Some(notice)),
        ) && notice@ == "session "@ + session_id@ + " not found on server ("@ + status@
            + "), defaulting to remote"@),
        reply is Mode ==> (r matches Ok(ApproveStep::AskRemote(notice)) ==> notice is None),
{
}

/// A word of a delegate that is none of those it may say is told as it was said.
pub proof fn strange_word_of_a_delegate_is_told(
    result: DelegateResult,
    default: &DefaultAction,
    r: DelegateStep,
)
    requires
        call_ensures(after_delegate, (result, default), r),
    ensures
        r matches DelegateStep::Fail(fault) ==> result.permission is Some && fault@
            == "unexpected permission from delegate: "@ + result.permission->0@,
        r matches DelegateStep::Act(ResolvedAction::Deny(message)) ==> message is None,
{
}

} // verus!
