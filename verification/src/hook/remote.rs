//! Asking the server about a tool call, and waiting for its answer.

use vstd::prelude::*;

use crate::ids::{format_uuid, new_uuid};
use crate::json::{Json, JsonView};
use crate::text::{clone_opt, joined, joined3, same_text, trim_end_char};

verus! {

/// What a hook is told of the call. The terminal agent names the session by
/// `session_id`, Cursor by `conversation_id`.
#[derive(Debug, PartialEq)]
pub struct HookInput {
    pub session_id: Option<String>,
    pub conversation_id: Option<String>,
    pub hook_event_name: Option<String>,
    pub tool_name: Option<String>,
    pub tool_input: Option<Json>,
    pub cwd: Option<String>,
}

/// A text that may be absent, or a stand-in for it.
pub open spec fn or_text(s: Option<String>, otherwise: Seq<char>) -> Seq<char> {
    match s {
        Some(s) => s@,
        None => otherwise,
    }
}

/// A text that may be absent, or a stand-in for it.
fn text_or<'a>(s: &'a Option<String>, otherwise: &'a str) -> (r: &'a str)
    ensures
        r@ == or_text(*s, otherwise@),
{
    match s {
        Some(s) => s.as_str(),
        None => otherwise,
    }
}

impl HookInput {
    /// The session that the call belongs to.
    pub open spec fn session(self) -> Option<Seq<char>> {
        match self.session_id {
            Some(id) => Some(id@),
            None => crate::text::opt_view(self.conversation_id),
        }
    }

    /// The session that the call belongs to.
    pub fn session_id(&self) -> (r: Option<&str>)
        ensures
            crate::json::opt_text(r) == self.session(),
    {
        match &self.session_id {
            Some(id) => Some(id.as_str()),
            None => match &self.conversation_id {
                Some(id) => Some(id.as_str()),
                None => None,
            },
        }
    }

    /// The event that the hook was called on.
    pub open spec fn event(self) -> Seq<char> {
        or_text(self.hook_event_name, "PreToolUse"@)
    }

    /// The event that the hook was called on.
    pub fn hook_event(&self) -> (r: &str)
        ensures
            r@ == self.event(),
    {
        text_or(&self.hook_event_name, "PreToolUse")
    }

    /// The tool that is called.
    pub open spec fn tool(self) -> Seq<char> {
        or_text(self.tool_name, "unknown"@)
    }

    /// The tool that is called.
    pub fn called_tool(&self) -> (r: &str)
        ensures
            r@ == self.tool(),
    {
        text_or(&self.tool_name, "unknown")
    }

    /// What the tool is called with.
    pub open spec fn input(self) -> JsonView {
        match self.tool_input {
            Some(input) => input@,
            None => JsonView::Object(Seq::empty()),
        }
    }
}

/// What the server is asked.
#[derive(Debug, PartialEq)]
pub struct ApprovalRequest {
    pub request_id: String,
    pub session_id: String,
    pub cwd: String,
    pub tool_name: String,
    pub tool_input: Json,
}

/// A question to the server, with the place to send it to.
#[derive(Debug, PartialEq)]
pub struct Registration {
    pub url: String,
    pub request: ApprovalRequest,
}

/// The server's address without slashes at its end.
pub open spec fn server_base(server: Seq<char>) -> Seq<char> {
    crate::text::without_trailing(server, '/')
}

impl Registration {
    /// Whether this is what the server at `server` is asked about a call.
    pub open spec fn asks(
        self,
        server: Seq<char>,
        payload: HookInput,
        request_id: Seq<char>,
    ) -> bool {
        &&& self.url@ == server_base(server) + "/api/v1/hooks/approval"@
        &&& self.request.request_id@ == request_id
        &&& payload.session() == Some(self.request.session_id@)
        &&& self.request.cwd@ == or_text(payload.cwd, "."@)
        &&& self.request.tool_name@ == payload.tool()
        &&& self.request.tool_input@ == payload.input()
    }
}

/// What the server is asked about a call, under a request identifier. A call
/// without a session cannot be asked about.
pub fn registration_with_id(server: &str, payload: &HookInput, request_id: String) -> (r: Result<
    Registration,
    String,
>)
    ensures
        match r {
            Ok(registration) => registration.asks(server@, *payload, request_id@),
            Err(fault) => payload.session() is None && fault@
                == "missing session_id/conversation_id"@,
        },
{
    let session_id = match payload.session_id() {
        Some(id) => id.to_string(),
        None => {
            return Err("missing session_id/conversation_id".to_string());
        },
    };
    let tool_input = match &payload.tool_input {
        Some(input) => input.clone(),
        None => {
            let none: Vec<(String, Json)> = Vec::new();
            assert(none@.map_values(|member: (String, Json)| (member.0@, member.1@))
                =~= Seq::empty());
            Json::object(none)
        },
    };
    let base = trim_end_char(server, '/');
    Ok(
        Registration {
            url: joined(base.as_str(), "/api/v1/hooks/approval"),
            request: ApprovalRequest {
                request_id,
                session_id,
                cwd: text_or(&payload.cwd, ".").to_string(),
                tool_name: payload.called_tool().to_string(),
                tool_input,
            },
        },
    )
}

/// What the server is asked about a call, under a new request identifier.
pub fn prepare_registration(server: &str, payload: &HookInput) -> (r: Result<
    Registration,
    String,
>)
    ensures
        match r {
            Ok(registration) => exists|id: u128|
                #[trigger] registration.asks(server@, *payload, crate::ids::uuid_text(id))
                    && crate::ids::random_uuid(id),
            Err(fault) => payload.session() is None && fault@
                == "missing session_id/conversation_id"@,
        },
{
    let id: u128 = new_uuid();
    registration_with_id(server, payload, format_uuid(id))
}

/// What became of a request for approval: its status, and what was said with it.
#[derive(Debug, PartialEq, Eq)]
pub struct Resolution {
    pub status_type: String,
    pub message: Option<String>,
    pub reason: Option<String>,
}

impl Clone for Resolution {
    fn clone(&self) -> (r: Self)
        ensures
            r == *self,
    {
        Resolution {
            status_type: self.status_type.clone(),
            message: clone_opt(&self.message),
            reason: clone_opt(&self.reason),
        }
    }
}

/// What came of sending the request for approval.
#[derive(Debug, PartialEq, Eq)]
pub enum RegisterOutcome {
    /// It could not be sent, and why.
    Unsent(String),
    /// The server refused it, with this HTTP status.
    Refused(String),
    /// The answer could not be read, and why.
    Malformed(String),
    /// The server knows the approval by `id`.
    Read { id: u128, resolution: Resolution },
}

/// What came of waiting for a decision once.
#[derive(Debug, PartialEq, Eq)]
pub enum WaitOutcome {
    /// The server could not be asked, and why.
    Unsent(String),
    /// The answer could not be read, and why.
    Malformed(String),
    /// The answer, with its HTTP status.
    Read { code: u16, resolution: Resolution },
}

/// A wait for a decision: where to ask, and until when.
#[derive(Debug, PartialEq, Eq)]
pub struct Poll {
    pub wait_url: String,
    pub deadline: u128,
}

/// What to do next.
#[derive(Debug, PartialEq, Eq)]
pub enum RemoteStep {
    /// Nothing: this is what came of it.
    Finish(Result<Resolution, String>),
    /// Ask the server again, unless the deadline has passed.
    Wait(Poll),
}

/// Whether `step` ends with the error `fault`.
pub open spec fn fails_with(step: RemoteStep, fault: Seq<char>) -> bool {
    step matches RemoteStep::Finish(Err(e)) && e@ == fault
}

/// What to do after the request for approval. A decision may come at once;
/// while the approval is pending there is a wait of `timeout_secs` from `now` on.
pub fn after_registration(
    server: &str,
    timeout_secs: u64,
    now: u128,
    outcome: RegisterOutcome,
) -> (r: RemoteStep)
    requires
        now <= crate::clock::longest_duration(),
    ensures
        match outcome {
            RegisterOutcome::Unsent(fault) => fails_with(
                r,
                "failed to register approval: "@ + fault@,
            ),
            RegisterOutcome::Refused(status) => fails_with(
                r,
                "server returned "@ + status@ + " for approval registration"@,
            ),
            RegisterOutcome::Malformed(fault) => fails_with(
                r,
                "failed to parse approval response: "@ + fault@,
            ),
            RegisterOutcome::Read { id, resolution } => if resolution.status_type@ == "pending"@ {
                r matches RemoteStep::Wait(poll) && poll.deadline == now + timeout_secs
                    * 1_000_000_000 && poll.wait_url@ == server_base(server@)
                    + "/api/v1/approvals/"@ + crate::ids::uuid_text(id) + "/wait"@
            } else {
                r == RemoteStep::Finish(Ok(resolution))
            },
        },
{
    match outcome {
        RegisterOutcome::Unsent(fault) => RemoteStep::Finish(
            Err(joined("failed to register approval: ", fault.as_str())),
        ),
        RegisterOutcome::Refused(status) => RemoteStep::Finish(
            Err(joined3("server returned ", status.as_str(), " for approval registration")),
        ),
        RegisterOutcome::Malformed(fault) => RemoteStep::Finish(
            Err(joined("failed to parse approval response: ", fault.as_str())),
        ),
        RegisterOutcome::Read { id, resolution } => {
            if !same_text(resolution.status_type.as_str(), "pending") {
                return RemoteStep::Finish(Ok(resolution));
            }
            let base = trim_end_char(server, '/');
            let id_text = format_uuid(id);
            let approval_url = joined3(base.as_str(), "/api/v1/approvals/", id_text.as_str());
            RemoteStep::Wait(
                Poll {
                    wait_url: joined(approval_url.as_str(), "/wait"),
                    deadline: now + timeout_secs as u128 * 1_000_000_000,
                },
            )
        },
    }
}

/// What to do before the server is asked once more: the wait ends at its deadline.
pub fn before_wait(poll: Poll, now: u128) -> (r: RemoteStep)
    ensures
        now >= poll.deadline ==> fails_with(r, "approval timed out"@),
        now < poll.deadline ==> r == RemoteStep::Wait(poll),
{
    if now >= poll.deadline {
        RemoteStep::Finish(Err("approval timed out".to_string()))
    } else {
        RemoteStep::Wait(poll)
    }
}

/// What to do after the server was asked: a pending approval is waited for on,
/// anything else ends the wait.
pub fn after_wait(poll: Poll, outcome: WaitOutcome) -> (r: RemoteStep)
    ensures
        match outcome {
            WaitOutcome::Unsent(fault) => fails_with(r, "wait request failed: "@ + fault@),
            WaitOutcome::Malformed(fault) => fails_with(
                r,
                "failed to parse wait response: "@ + fault@,
            ),
            WaitOutcome::Read { code, resolution } => if code == 202
                || resolution.status_type@ == "pending"@ {
                r == RemoteStep::Wait(poll)
            } else {
                r == RemoteStep::Finish(Ok(resolution))
            },
        },
{
    match outcome {
        WaitOutcome::Unsent(fault) => RemoteStep::Finish(
            Err(joined("wait request failed: ", fault.as_str())),
        ),
        WaitOutcome::Malformed(fault) => RemoteStep::Finish(
            Err(joined("failed to parse wait response: ", fault.as_str())),
        ),
        WaitOutcome::Read { code, resolution } => {
            if code == 202 || same_text(resolution.status_type.as_str(), "pending") {
                RemoteStep::Wait(poll)
            } else {
                RemoteStep::Finish(Ok(resolution))
            }
        },
    }
}

/// How often the server is asked before the hook gives up.
pub const MAX_ATTEMPTS: u32 = 3;

/// How many seconds pass between two attempts.
pub const RETRY_DELAY_SECS: u64 = 2;

/// What to do after an attempt.
#[derive(Debug, PartialEq, Eq)]
pub enum RetryStep {
    /// Nothing: this is what came of it.
    Finish(Result<Resolution, String>),
    /// Try again after the delay, as this attempt, and say why.
    Again { attempt: u32, notice: String },
}

/// The number of an attempt that is not the last.
pub open spec fn attempt_digit(attempt: u32) -> Seq<char> {
    if attempt == 1 {
        "1"@
    } else {
        "2"@
    }
}

/// The view of what came of an attempt.
pub open spec fn attempt_view(result: Result<Resolution, String>) -> Result<
    Resolution,
    Seq<char>,
> {
    match result {
        Ok(resolution) => Ok(resolution),
        Err(fault) => Err(fault@),
    }
}

/// What the tries end with after this attempt, if they end: success ends them,
/// and so does the failure of the last one.
pub open spec fn attempt_end(attempt: int, result: Result<Resolution, Seq<char>>) -> Option<
    Result<Resolution, Seq<char>>,
> {
    match result {
        Ok(resolution) => Some(Ok(resolution)),
        Err(fault) => if attempt < MAX_ATTEMPTS {
            None
        } else {
            Some(Err("failed after 3 attempts: "@ + fault))
        },
    }
}

/// What to do after an attempt: success ends the tries, a failure is retried as
/// long as there are attempts left, and the last failure is the one reported.
pub fn after_attempt(attempt: u32, result: Result<Resolution, String>) -> (r: RetryStep)
    requires
        1 <= attempt <= MAX_ATTEMPTS,
    ensures
        match attempt_end(attempt as int, attempt_view(result)) {
            Some(end) => r matches RetryStep::Finish(given) && attempt_view(given) == end,
            None => r matches RetryStep::Again { attempt: next, notice } && next == attempt + 1
                && notice@ == "attempt "@ + attempt_digit(attempt)
                + "/3 failed: "@ + attempt_view(result)->Err_0 + ", retrying in 2s"@,
        },
{
    match result {
        Ok(resolution) => RetryStep::Finish(Ok(resolution)),
        Err(fault) => {
            if attempt < MAX_ATTEMPTS {
                let digit = if attempt == 1 {
                    "1"
                } else {
                    "2"
                };
                let start = joined3("attempt ", digit, "/3 failed: ");
                RetryStep::Again {
                    attempt: attempt + 1,
                    notice: joined3(start.as_str(), fault.as_str(), ", retrying in 2s"),
                }
            } else {
                RetryStep::Finish(Err(joined("failed after 3 attempts: ", fault.as_str())))
            }
        },
    }
}

/// What the tries end with, given what came of each attempt in order, if they end.
pub open spec fn tried(results: Seq<Result<Resolution, Seq<char>>>) -> Option<
    Result<Resolution, Seq<char>>,
>
    decreases results.len(),
{
    if results.len() == 0 {
        None
    } else {
        match tried(results.drop_last()) {
            Some(end) => Some(end),
            None => attempt_end(results.len() as int, results.last()),
        }
    }
}

/// After three attempts the tries have ended, whatever came of them. They have
/// failed only if all three failed.
pub proof fn tries_are_bounded(results: Seq<Result<Resolution, Seq<char>>>)
    requires
        results.len() == MAX_ATTEMPTS,
    ensures
        tried(results) is Some,
        tried(results)->0 is Err <==> forall|i: int|
            0 <= i < results.len() ==> #[trigger] results[i] is Err,
{
    reveal_with_fuel(tried, 4);
    let two = results.drop_last();
    let one = two.drop_last();
    assert(one.last() == results[0] && two.last() == results[1] && results.last() == results[2]);
}

/// A call belongs to the session that it names by `session_id`, or else to the one that
/// it names by `conversation_id`; with neither it belongs to none.
pub proof fn session_is_named_by_either(payload: HookInput)
    ensures
        payload.session_id is Some ==> payload.session() == Some(payload.session_id->0@),
        payload.session_id is None && payload.conversation_id is Some ==> payload.session()
            == Some(payload.conversation_id->0@),
        payload.session() is None <==> payload.session_id is None && payload.conversation_id
            is None,
{
}

/// What the server is asked about is the call itself: its session, its tool and its
/// input as they were given, under the identifier that was drawn. Only a call without
/// a session is not asked about.
pub proof fn server_is_asked_about_the_call(
    server: &str,
    payload: &HookInput,
    request_id: String,
    r: Result<Registration, String>,
)
    requires
        call_ensures(registration_with_id, (server, payload, request_id), r),
    ensures
        r is Err <==> payload.session_id is None && payload.conversation_id is None,
        r matches Ok(registration) ==> {
            &&& registration.request.request_id@ == request_id@
            &&& payload.session_id is Some ==> registration.request.session_id@
                == payload.session_id->0@
            &&& payload.session_id is None ==> registration.request.session_id@
                == payload.conversation_id->0@
            &&& payload.tool_name is Some ==> registration.request.tool_name@
                == payload.tool_name->0@
            &&& payload.tool_name is None ==> registration.request.tool_name@ == "unknown"@
            &&& payload.tool_input is Some ==> registration.request.tool_input@
                == payload.tool_input->0@
            &&& payload.tool_input is None ==> registration.request.tool_input@
                == JsonView::Object(Seq::empty())
            &&& payload.cwd is Some ==> registration.request.cwd@ == payload.cwd->0@
            &&& payload.cwd is None ==> registration.request.cwd@ == "."@
        },
{
}

/// The wait for a decision ends only with one: what the server answers to the request
/// is reported as it is where it is not pending, and waited for where it is, as long as
/// was asked for. Where there is no answer, none is made up.
pub proof fn registration_is_waited_for_while_pending(
    server: &str,
    timeout_secs: u64,
    now: u128,
    outcome: RegisterOutcome,
    r: RemoteStep,
)
    requires
        now <= crate::clock::longest_duration(),
        call_ensures(after_registration, (server, timeout_secs, now, outcome), r),
    ensures
        r matches RemoteStep::Wait(poll) ==> {
            &&& outcome matches RegisterOutcome::Read { id, resolution }
            &&& resolution.status_type@ == "pending"@
            &&& poll.deadline - now == timeout_secs * 1_000_000_000
        },
        r matches RemoteStep::Finish(Ok(told)) ==> (outcome matches RegisterOutcome::Read {
            id,
            resolution,
        } && told == resolution && resolution.status_type@ != "pending"@),
        (r matches RemoteStep::Finish(Err(_))) <==> !(outcome is Read),
{
}

/// A wait ends at its deadline and not before.
pub proof fn wait_lasts_until_its_deadline(poll: Poll, now: u128, r: RemoteStep)
    requires
        call_ensures(before_wait, (poll, now), r),
    ensures
        r is Wait <==> now < poll.deadline,
        r matches RemoteStep::Wait(same) ==> same == poll,
        r matches RemoteStep::Finish(end) ==> end is Err,
{
}

/// A decision that the server tells ends the wait and is reported as it is; a pending
/// approval is waited for on, at the same place and up to the same deadline; a failure
/// is never taken for a decision.
pub proof fn wait_ends_with_a_decision(poll: Poll, outcome: WaitOutcome, r: RemoteStep)
    requires
        call_ensures(after_wait, (poll, outcome), r),
    ensures
        r is Wait <==> (outcome matches WaitOutcome::Read { code, resolution } && (code == 202
            || resolution.status_type@ == "pending"@)),
        r matches RemoteStep::Wait(same) ==> same == poll,
        r matches RemoteStep::Finish(Ok(told)) ==> (outcome matches WaitOutcome::Read {
            code,
            resolution,
        } && told == resolution && resolution.status_type@ != "pending"@ && code != 202),
        (r matches RemoteStep::Finish(Err(_))) <==> !(outcome is Read),
{
}

/// The first success is what the tries end with; where all fail, the last failure is
/// told.
pub proof fn first_success_counts(results: Seq<Result<Resolution, Seq<char>>>, i: int)
    requires
        0 <= i < results.len() <= 3,
    ensures
        results[i] is Ok && (forall|j: int| 0 <= j < i ==> #[trigger] results[j] is Err)
            ==> tried(results) == Some(results[i]),
        results.len() == 3 && (forall|j: int| 0 <= j < 3 ==> #[trigger] results[j] is Err)
            ==> tried(results) == Some(
            Err::<Resolution, Seq<char>>("failed after 3 attempts: "@ + results[2]->Err_0),
        ),
        results.len() < 3 && (forall|j: int|
            0 <= j < results.len() ==> #[trigger] results[j] is Err) ==> tried(results) is None,
{
    reveal_with_fuel(tried, 5);
    let a = results.drop_last();
    let b = a.drop_last();
    let c = b.drop_last();
    if results.len() == 3 {
        assert(b.last() == results[0] && a.last() == results[1] && results.last() == results[2]);
        assert(c.len() == 0);
    } else if results.len() == 2 {
        assert(a.last() == results[0] && results.last() == results[1]);
        assert(b.len() == 0);
    } else {
        assert(results.last() == results[0]);
        assert(a.len() == 0);
    }
}

/// A success is never tried again, and a failure is until the third; the attempts are
/// counted one by one.
pub proof fn failure_is_tried_again(
    attempt: u32,
    result: Result<Resolution, String>,
    r: RetryStep,
)
    requires
        1 <= attempt <= 3,
        call_ensures(after_attempt, (attempt, result), r),
    ensures
        r is Again <==> result is Err && attempt < 3,
        r matches RetryStep::Again { attempt: next, .. } ==> next == attempt + 1,
        r matches RetryStep::Finish(end) ==> {
            &&& end is Ok <==> result is Ok
            &&& result is Ok ==> end == result
        },
{
}

/// What a hook is told is read as it was told: the session by either name, the event
/// and the tool by their names, and stand-ins where there are none.
pub proof fn call_is_read_as_told(
    payload: &HookInput,
    session: Option<&str>,
    event: &str,
    tool: &str,
)
    requires
        call_ensures(HookInput::session_id, (payload,), session),
        call_ensures(HookInput::hook_event, (payload,), event),
        call_ensures(HookInput::called_tool, (payload,), tool),
    ensures
        payload.session_id is Some ==> session is Some && session->0@ == payload.session_id->0@,
        payload.session_id is None && payload.conversation_id is Some ==> session is Some
            && session->0@ == payload.conversation_id->0@,
        payload.session_id is None && payload.conversation_id is None ==> session is None,
        payload.hook_event_name is Some ==> event@ == payload.hook_event_name->0@,
        payload.hook_event_name is None ==> event@ == "PreToolUse"@,
        payload.tool_name is Some ==> tool@ == payload.tool_name->0@,
        payload.tool_name is None ==> tool@ == "unknown"@,
{
}

/// A request is sent to the server that was named, at the place for approvals, under an
/// identifier that was drawn for it; the wait for its decision is at the approval that
/// the server answered with.
pub proof fn server_is_asked_at_its_own_place(
    server: &str,
    payload: &HookInput,
    given: Result<Registration, String>,
    request_id: String,
    drawn: Result<Registration, String>,
    timeout_secs: u64,
    now: u128,
    id: u128,
    resolution: Resolution,
    step: RemoteStep,
)
    requires
        call_ensures(registration_with_id, (server, payload, request_id), given),
        call_ensures(prepare_registration, (server, payload), drawn),
        call_ensures(
            after_registration,
            (server, timeout_secs, now, RegisterOutcome::Read { id, resolution }),
            step,
        ),
    ensures
        ({
            let base = crate::text::without_trailing(server@, '/');
            &&& given is Ok ==> given->Ok_0.url@ == base + "/api/v1/hooks/approval"@
            &&& given is Err ==> given->Err_0@ == "missing session_id/conversation_id"@
            &&& drawn is Ok == given is Ok
            &&& drawn is Err ==> drawn->Err_0@ == given->Err_0@
            &&& drawn is Ok ==> {
                &&& drawn->Ok_0.url@ == given->Ok_0.url@
                &&& drawn->Ok_0.request.session_id@ == given->Ok_0.request.session_id@
                &&& drawn->Ok_0.request.tool_name@ == given->Ok_0.request.tool_name@
                &&& drawn->Ok_0.request.tool_input@ == given->Ok_0.request.tool_input@
                &&& drawn->Ok_0.request.cwd@ == given->Ok_0.request.cwd@
                &&& exists|n: u128|
                    crate::ids::random_uuid(n) && drawn->Ok_0.request.request_id@
                        == #[trigger] crate::ids::uuid_text(n)
            }
            &&& step matches RemoteStep::Wait(poll) ==> poll.wait_url@ == base
                + "/api/v1/approvals/"@ + crate::ids::uuid_text(id) + "/wait"@
        }),
{
    if drawn is Ok {
        let n = choose|n: u128|
            #[trigger] drawn->Ok_0.asks(server@, *payload, crate::ids::uuid_text(n))
                && crate::ids::random_uuid(n);
        assert(drawn->Ok_0.request.request_id@ == crate::ids::uuid_text(n));
    }
}

/// Each failure to ask the server says what failed and why, and a wait that ran out
/// says so.
pub proof fn failure_to_ask_says_why(
    server: &str,
    timeout_secs: u64,
    now: u128,
    registered: RegisterOutcome,
    poll: Poll,
    waited: WaitOutcome,
    first: RemoteStep,
    before: RemoteStep,
    after: RemoteStep,
    fault: String,
)
    requires
        call_ensures(after_registration, (server, timeout_secs, now, registered), first),
        call_ensures(before_wait, (poll, now), before),
        call_ensures(after_wait, (poll, waited), after),
    ensures
        first == RemoteStep::Finish(Err(fault)) ==> match registered {
            RegisterOutcome::Unsent(why) => fault@ == "failed to register approval: "@ + why@,
            RegisterOutcome::Refused(status) => fault@ == "server returned "@ + status@
                + " for approval registration"@,
            RegisterOutcome::Malformed(why) => fault@ == "failed to parse approval response: "@
                + why@,
            RegisterOutcome::Read { .. } => false,
        },
        before == RemoteStep::Finish(Err(fault)) ==> fault@ == "approval timed out"@,
        after == RemoteStep::Finish(Err(fault)) ==> match waited {
            WaitOutcome::Unsent(why) => fault@ == "wait request failed: "@ + why@,
            WaitOutcome::Malformed(why) => fault@ == "failed to parse wait response: "@ + why@,
            WaitOutcome::Read { .. } => false,
        },
{
}

/// Each failed attempt is told by its number and its cause, and the last failure by its
/// cause.
pub proof fn failed_attempt_is_told(
    attempt: u32,
    fault: String,
    r: RetryStep,
)
    requires
        1 <= attempt <= 3,
        call_ensures(after_attempt, (attempt, Err(fault)), r),
    ensures
        r matches RetryStep::Again { attempt: next, notice } ==> notice@ == (if attempt == 1 {
            "attempt "@ + "1"@
        } else {
            "attempt "@ + "2"@
        }) + "/3 failed: "@ + fault@ + ", retrying in 2s"@,
        r matches RetryStep::Finish(end) ==> end is Err && end->Err_0@
            == "failed after 3 attempts: "@ + fault@,
{
}

} // verus!
