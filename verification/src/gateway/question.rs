//! Questions of plan mode: put to the operator through the server, and waited for.

use vstd::prelude::*;

use crate::ids::format_uuid;
use crate::json::{Json, JsonView};
use crate::protocol::question::{
    QuestionDecision, QuestionResolveRequest, QuestionStatus, QuestionStatusView,
};
use crate::protocol::secret::Secret;
use crate::text::{joined, joined3, trim_end_char};

verus! {

/// What the question command is called with.
pub struct QuestionArgs {
    /// Whether OpenCode asks; no other provider asks questions.
    pub opencode: bool,
    /// The server's address.
    pub server: String,
    /// The token that the server knows the gateway by.
    pub token: Secret,
    /// How many seconds to wait for an answer.
    pub timeout: u64,
}

/// Why there is no answer.
#[derive(Debug, PartialEq, Eq)]
pub enum QuestionFlowError {
    /// The operator said no.
    Rejected(String),
    /// The operator said nothing in time.
    Timeout,
    /// The server could not be asked.
    Pipeline(String),
}

/// What a `QuestionFlowError` says.
pub enum QuestionFlowErrorView {
    Rejected(Seq<char>),
    Timeout,
    Pipeline(Seq<char>),
}

impl View for QuestionFlowError {
    type V = QuestionFlowErrorView;

    open spec fn view(&self) -> QuestionFlowErrorView {
        match self {
            QuestionFlowError::Rejected(reason) => QuestionFlowErrorView::Rejected(reason@),
            QuestionFlowError::Timeout => QuestionFlowErrorView::Timeout,
            QuestionFlowError::Pipeline(reason) => QuestionFlowErrorView::Pipeline(reason@),
        }
    }
}

/// The answers to the questions: for each the labels that were chosen.
pub open spec fn answers_view(answers: Vec<Vec<String>>) -> Seq<Seq<Seq<char>>> {
    answers.deep_view()
}

/// What comes of a question in the end.
pub open spec fn flow_view(r: Result<Vec<Vec<String>>, QuestionFlowError>) -> Result<
    Seq<Seq<Seq<char>>>,
    QuestionFlowErrorView,
> {
    match r {
        Ok(answers) => Ok(answers_view(answers)),
        Err(fault) => Err(fault@),
    }
}

/// What comes of a question whose wait is over, by its status.
pub open spec fn status_outcome(status: QuestionStatusView) -> Result<
    Seq<Seq<Seq<char>>>,
    QuestionFlowErrorView,
> {
    match status {
        QuestionStatusView::Answered { answers } => Ok(answers),
        QuestionStatusView::Rejected { reason } => Err(
            QuestionFlowErrorView::Rejected(
                match reason {
                    Some(reason) => reason,
                    None => "rejected by operator"@,
                },
            ),
        ),
        QuestionStatusView::Cancelled => Err(
            QuestionFlowErrorView::Pipeline("question cancelled"@),
        ),
        QuestionStatusView::Pending => Err(
            QuestionFlowErrorView::Pipeline(
                "server returned an unexpected final pending question status"@,
            ),
        ),
    }
}

/// What comes of a question whose wait is over, by its status.
pub fn resolved_question_status(status: QuestionStatus) -> (r: Result<
    Vec<Vec<String>>,
    QuestionFlowError,
>)
    ensures
        flow_view(r) == status_outcome(status@),
{
    match status {
        QuestionStatus::Answered { answers } => Ok(answers),
        QuestionStatus::Rejected { reason } => Err(
            QuestionFlowError::Rejected(
                match reason {
                    Some(reason) => reason,
                    None => "rejected by operator".to_string(),
                },
            ),
        ),
        QuestionStatus::Cancelled => Err(
            QuestionFlowError::Pipeline("question cancelled".to_string()),
        ),
        QuestionStatus::Pending => Err(
            QuestionFlowError::Pipeline(
                "server returned an unexpected final pending question status".to_string(),
            ),
        ),
    }
}

/// What comes of a question at its deadline: nobody answered where the server
/// was last found waiting, and the server is at fault where it was not.
pub open spec fn deadline_outcome(last_wait_was_healthy: bool) -> QuestionFlowErrorView {
    if last_wait_was_healthy {
        QuestionFlowErrorView::Timeout
    } else {
        QuestionFlowErrorView::Pipeline("question wait failed until the deadline"@)
    }
}

/// What comes of a question at its deadline.
pub fn question_deadline_error(last_wait_was_healthy: bool) -> (r: QuestionFlowError)
    ensures
        r@ == deadline_outcome(last_wait_was_healthy),
{
    if last_wait_was_healthy {
        QuestionFlowError::Timeout
    } else {
        QuestionFlowError::Pipeline("question wait failed until the deadline".to_string())
    }
}

/// Fails from the deadline on.
pub fn ensure_question_before_deadline(
    now: u128,
    deadline: u128,
    last_wait_was_healthy: bool,
) -> (r: Result<(), QuestionFlowError>)
    ensures
        now < deadline ==> r is Ok,
        now >= deadline ==> r is Err && r->Err_0@ == deadline_outcome(last_wait_was_healthy),
{
    if now >= deadline {
        Err(question_deadline_error(last_wait_was_healthy))
    } else {
        Ok(())
    }
}

/// What comes of some work that is begun at `now` and broken off at the deadline:
/// `done` is what the work came to, unless it was broken off.
pub fn await_question_deadline<T>(
    now: u128,
    deadline: u128,
    last_wait_was_healthy: bool,
    done: Option<T>,
) -> (r: Result<T, QuestionFlowError>)
    ensures
        now >= deadline || done is None ==> r is Err && r->Err_0@ == deadline_outcome(
            last_wait_was_healthy,
        ),
        now < deadline && done is Some ==> r == Ok::<T, QuestionFlowError>(done->0),
{
    match ensure_question_before_deadline(now, deadline, last_wait_was_healthy) {
        Ok(()) => {},
        Err(fault) => {
            return Err(fault);
        },
    }
    match done {
        Some(output) => Ok(output),
        None => Err(question_deadline_error(last_wait_was_healthy)),
    }
}

/// A wait for an answer: where to ask, until when, and whether the server was
/// last found waiting.
#[derive(Debug, PartialEq, Eq)]
pub struct QuestionPoll {
    pub wait_url: String,
    pub deadline: u128,
    pub last_wait_was_healthy: bool,
}

/// What a reply of the server holds.
#[derive(Debug, PartialEq, Eq)]
pub enum ReplyBody {
    /// It could not be read.
    Unread,
    /// It does not say what became of the question.
    Malformed,
    /// What became of the question.
    Status(QuestionStatus),
}

/// What happened in the wait.
#[derive(Debug, PartialEq, Eq)]
pub enum PollEvent {
    /// The wait begins, or goes on after a pause or a pending reply.
    Begin,
    /// What was under way was broken off at the deadline.
    BrokenOff,
    /// The server could not be asked.
    Unsent,
    /// The server replied, with this HTTP status as a number and in words.
    Reply { code: u16, status: String, body: ReplyBody },
}

/// What to do next.
#[derive(Debug, PartialEq, Eq)]
pub enum PollAction {
    /// Ask the server.
    Ask,
    /// Pause for two seconds, then go on.
    Pause,
    /// Go on at once.
    GoOn,
    /// Nothing: this is what came of it.
    Finish(Result<Vec<Vec<String>>, QuestionFlowError>),
}

/// What a `PollAction` says.
pub enum PollActionView {
    Ask,
    Pause,
    GoOn,
    Finish(Result<Seq<Seq<Seq<char>>>, QuestionFlowErrorView>),
}

impl View for PollAction {
    type V = PollActionView;

    open spec fn view(&self) -> PollActionView {
        match self {
            PollAction::Ask => PollActionView::Ask,
            PollAction::Pause => PollActionView::Pause,
            PollAction::GoOn => PollActionView::GoOn,
            PollAction::Finish(r) => PollActionView::Finish(flow_view(*r)),
        }
    }
}

/// How many seconds to pause after a failure.
pub const POLL_PAUSE_SECS: u64 = 2;

/// Whether an HTTP status tells of success.
pub open spec fn success(code: u16) -> bool {
    200 <= code < 300
}

/// Whether an HTTP status puts the fault with the one who asked.
pub open spec fn client_error(code: u16) -> bool {
    400 <= code < 500
}

/// What to do about a failure that may pass: pause, unless the deadline is there.
pub open spec fn after_failure(poll: QuestionPoll, now: u128) -> (bool, PollActionView) {
    if now >= poll.deadline {
        (false, PollActionView::Finish(Err(deadline_outcome(false))))
    } else {
        (false, PollActionView::Pause)
    }
}

/// What to do about an event, and whether the server counts as found waiting
/// from then on.
pub open spec fn polled(poll: QuestionPoll, event: PollEvent, now: u128) -> (
    bool,
    PollActionView,
) {
    let healthy = poll.last_wait_was_healthy;
    match event {
        PollEvent::Begin => if now >= poll.deadline {
            (healthy, PollActionView::Finish(Err(deadline_outcome(healthy))))
        } else {
            (healthy, PollActionView::Ask)
        },
        PollEvent::BrokenOff => (
            healthy,
            PollActionView::Finish(Err(deadline_outcome(healthy))),
        ),
        PollEvent::Unsent => after_failure(poll, now),
        PollEvent::Reply { code, status, body } => if client_error(code) {
            (
                healthy,
                PollActionView::Finish(
                    Err(
                        QuestionFlowErrorView::Pipeline(
                            "server returned "@ + status@ + " for question wait"@,
                        ),
                    ),
                ),
            )
        } else if !success(code) {
            after_failure(poll, now)
        } else {
            match body {
                ReplyBody::Unread => after_failure(poll, now),
                ReplyBody::Malformed => after_failure(poll, now),
                ReplyBody::Status(found) => if now >= poll.deadline {
                    (healthy, PollActionView::Finish(Err(deadline_outcome(healthy))))
                } else if code == 202 {
                    if found@ is Pending {
                        (true, PollActionView::GoOn)
                    } else {
                        (
                            healthy,
                            PollActionView::Finish(
                                Err(
                                    QuestionFlowErrorView::Pipeline(
                                        "server returned "@ + status@
                                            + " with non-pending question status"@,
                                    ),
                                ),
                            ),
                        )
                    }
                } else {
                    (healthy, PollActionView::Finish(status_outcome(found@)))
                },
            }
        },
    }
}

/// Notes a failure that may pass.
fn note_failure(poll: &mut QuestionPoll, now: u128) -> (r: PollAction)
    ensures
        (final(poll).last_wait_was_healthy, r@) == after_failure(*old(poll), now),
        final(poll).wait_url == old(poll).wait_url,
        final(poll).deadline == old(poll).deadline,
{
    poll.last_wait_was_healthy = false;
    if now >= poll.deadline {
        PollAction::Finish(Err(question_deadline_error(false)))
    } else {
        PollAction::Pause
    }
}

/// Takes an event of the wait and says what to do next.
pub fn poll_for_answer(poll: &mut QuestionPoll, event: PollEvent, now: u128) -> (r: PollAction)
    ensures
        (final(poll).last_wait_was_healthy, r@) == polled(*old(poll), event, now),
        final(poll).wait_url == old(poll).wait_url,
        final(poll).deadline == old(poll).deadline,
{
    match event {
        PollEvent::Begin => {
            if now >= poll.deadline {
                PollAction::Finish(Err(question_deadline_error(poll.last_wait_was_healthy)))
            } else {
                PollAction::Ask
            }
        },
        PollEvent::BrokenOff => PollAction::Finish(
            Err(question_deadline_error(poll.last_wait_was_healthy)),
        ),
        PollEvent::Unsent => note_failure(poll, now),
        PollEvent::Reply { code, status, body } => {
            if 400 <= code && code < 500 {
                return PollAction::Finish(
                    Err(
                        QuestionFlowError::Pipeline(
                            joined3("server returned ", status.as_str(), " for question wait"),
                        ),
                    ),
                );
            }
            if code < 200 || code >= 300 {
                return note_failure(poll, now);
            }
            let found = match body {
                ReplyBody::Unread => {
                    return note_failure(poll, now);
                },
                ReplyBody::Malformed => {
                    return note_failure(poll, now);
                },
                ReplyBody::Status(found) => found,
            };
            if now >= poll.deadline {
                return PollAction::Finish(
                    Err(question_deadline_error(poll.last_wait_was_healthy)),
                );
            }
            if code == 202 {
                if found.is_resolved() {
                    return PollAction::Finish(
                        Err(
                            QuestionFlowError::Pipeline(
                                joined3(
                                    "server returned ",
                                    status.as_str(),
                                    " with non-pending question status",
                                ),
                            ),
                        ),
                    );
                }
                poll.last_wait_was_healthy = true;
                return PollAction::GoOn;
            }
            PollAction::Finish(resolved_question_status(found))
        },
    }
}

/// Where questions are put.
pub fn question_register_url(server: &str) -> (r: String)
    ensures
        r@ == crate::hook::remote::server_base(server@) + "/api/v1/hooks/question"@,
{
    let base = trim_end_char(server, '/');
    joined(base.as_str(), "/api/v1/hooks/question")
}

/// What came of putting a question.
#[derive(Debug, PartialEq, Eq)]
pub enum QuestionRegisterOutcome {
    /// It could not be sent, and why.
    Unsent(String),
    /// The server refused it, with this HTTP status.
    Refused(String),
    /// The answer could not be read, and why.
    Malformed(String),
    /// The server knows the question by `id`.
    Read { id: u128, status: QuestionStatus },
}

/// What to do once a question is put.
#[derive(Debug, PartialEq, Eq)]
pub enum QuestionStep {
    /// Nothing: this is what came of it.
    Finish(Result<Vec<Vec<String>>, QuestionFlowError>),
    /// Wait for the answer; where the wait is given up, say so at `cancel_url`.
    Wait { poll: QuestionPoll, cancel_url: String },
}

/// The address of a question.
pub open spec fn question_url(server: Seq<char>, id: u128) -> Seq<char> {
    crate::hook::remote::server_base(server) + "/api/v1/questions/"@ + crate::ids::uuid_text(id)
}

/// Whether `step` ends with a fault of the server.
pub open spec fn ends_in_pipeline_error(step: QuestionStep, reason: Seq<char>) -> bool {
    step matches QuestionStep::Finish(r) && flow_view(r) == Err::<
        Seq<Seq<Seq<char>>>,
        QuestionFlowErrorView,
    >(QuestionFlowErrorView::Pipeline(reason))
}

/// What to do once a question is put. It may be over at once, as when it was put
/// before; while it is pending there is a wait from `now` on.
pub fn after_question_registration(
    args: &QuestionArgs,
    now: u128,
    outcome: QuestionRegisterOutcome,
) -> (r: QuestionStep)
    requires
        now <= crate::clock::longest_duration(),
    ensures
        match outcome {
            QuestionRegisterOutcome::Unsent(fault) => ends_in_pipeline_error(
                r,
                "failed to register question: "@ + fault@,
            ),
            QuestionRegisterOutcome::Refused(status) => ends_in_pipeline_error(
                r,
                "server returned "@ + status@ + " for question registration"@,
            ),
            QuestionRegisterOutcome::Malformed(fault) => ends_in_pipeline_error(
                r,
                "failed to parse question response: "@ + fault@,
            ),
            QuestionRegisterOutcome::Read { id, status } => if status@ is Pending {
                r matches QuestionStep::Wait { poll, cancel_url } && {
                    &&& poll.wait_url@ == question_url(args.server@, id) + "/wait"@
                    &&& cancel_url@ == question_url(args.server@, id) + "/resolve"@
                    &&& poll.deadline == now + args.timeout * 1_000_000_000
                    &&& poll.last_wait_was_healthy
                }
            } else {
                r matches QuestionStep::Finish(end) && flow_view(end) == status_outcome(status@)
            },
        },
{
    match outcome {
        QuestionRegisterOutcome::Unsent(fault) => QuestionStep::Finish(
            Err(
                QuestionFlowError::Pipeline(
                    joined("failed to register question: ", fault.as_str()),
                ),
            ),
        ),
        QuestionRegisterOutcome::Refused(status) => QuestionStep::Finish(
            Err(
                QuestionFlowError::Pipeline(
                    joined3("server returned ", status.as_str(), " for question registration"),
                ),
            ),
        ),
        QuestionRegisterOutcome::Malformed(fault) => QuestionStep::Finish(
            Err(
                QuestionFlowError::Pipeline(
                    joined("failed to parse question response: ", fault.as_str()),
                ),
            ),
        ),
        QuestionRegisterOutcome::Read { id, status } => {
            if status.is_resolved() {
                return QuestionStep::Finish(resolved_question_status(status));
            }
            let base = trim_end_char(args.server.as_str(), '/');
            let id_text = format_uuid(id);
            let url = joined3(base.as_str(), "/api/v1/questions/", id_text.as_str());
            QuestionStep::Wait {
                poll: QuestionPoll {
                    wait_url: joined(url.as_str(), "/wait"),
                    deadline: now + args.timeout as u128 * 1_000_000_000,
                    last_wait_was_healthy: true,
                },
                cancel_url: joined(url.as_str(), "/resolve"),
            }
        },
    }
}

/// What the server is told where the wait is given up.
pub fn cancel_request() -> (r: QuestionResolveRequest)
    ensures
        r.decision == QuestionDecision::Cancel,
        r.answers is None,
        crate::text::opt_view(r.reason) == Some("aborted by signal"@),
{
    QuestionResolveRequest {
        decision: QuestionDecision::Cancel,
        answers: None,
        reason: Some("aborted by signal".to_string()),
    }
}

/// What comes of a question where the wait is given up.
pub fn aborted() -> (r: Result<Vec<Vec<String>>, QuestionFlowError>)
    ensures
        flow_view(r) == Err::<Seq<Seq<Seq<char>>>, QuestionFlowErrorView>(
            QuestionFlowErrorView::Pipeline("aborted by signal"@),
        ),
{
    Err(QuestionFlowError::Pipeline("aborted by signal".to_string()))
}

/// The code that the question command exits with where its input is no question.
pub const BAD_INPUT_EXIT_CODE: u8 = 2;

/// The code that the question command exits with.
pub open spec fn exit_code_of(
    r: Result<Seq<Seq<Seq<char>>>, QuestionFlowErrorView>,
) -> u8 {
    match r {
        Ok(_) => 0,
        Err(QuestionFlowErrorView::Rejected(_)) => 1,
        Err(QuestionFlowErrorView::Timeout) => 3,
        Err(QuestionFlowErrorView::Pipeline(_)) => 4,
    }
}

/// The code that the question command exits with: 0 for an answer, 1 for a
/// rejection, 3 where nobody answered and 4 where the server is at fault.
pub fn question_exit_code(r: &Result<Vec<Vec<String>>, QuestionFlowError>) -> (code: u8)
    ensures
        code == exit_code_of(flow_view(*r)),
{
    match r {
        Ok(_) => 0,
        Err(QuestionFlowError::Rejected(_)) => 1,
        Err(QuestionFlowError::Timeout) => 3,
        Err(QuestionFlowError::Pipeline(_)) => 4,
    }
}

/// What is said where there is no answer.
pub fn failure_notice(fault: &QuestionFlowError) -> (r: String)
    ensures
        r@ == "agent-hub-gateway question: "@ + match fault@ {
            QuestionFlowErrorView::Rejected(reason) => reason,
            QuestionFlowErrorView::Timeout => "question timed out"@,
            QuestionFlowErrorView::Pipeline(reason) => reason,
        },
{
    match fault {
        QuestionFlowError::Rejected(reason) => joined(
            "agent-hub-gateway question: ",
            reason.as_str(),
        ),
        QuestionFlowError::Timeout => joined(
            "agent-hub-gateway question: ",
            "question timed out",
        ),
        QuestionFlowError::Pipeline(reason) => joined(
            "agent-hub-gateway question: ",
            reason.as_str(),
        ),
    }
}

/// The answers to one question as a document.
pub open spec fn labels_document(labels: Seq<Seq<char>>) -> JsonView {
    JsonView::Array(labels.map_values(|label: Seq<char>| JsonView::Text(label)))
}

/// The answers to all questions as a document.
pub open spec fn answers_document(answers: Seq<Seq<Seq<char>>>) -> JsonView {
    JsonView::Object(
        seq![
            (
                "answers"@,
                JsonView::Array(
                    answers.map_values(|labels: Seq<Seq<char>>| labels_document(labels)),
                ),
            ),
        ],
    )
}

/// The answers to one question as a document.
fn labels_json(labels: &Vec<String>) -> (r: Json)
    ensures
        r@ == labels_document(labels.deep_view()),
{
    let mut items: Vec<Json> = Vec::new();
    let mut i: usize = 0;
    while i < labels.len()
        invariant
            i <= labels@.len(),
            items@.len() == i,
            forall|j: int|
                0 <= j < i ==> (#[trigger] items@[j])@ == JsonView::Text(labels@[j]@),
        decreases labels@.len() - i,
    {
        items.push(Json::from_string(labels[i].clone()));
        i += 1;
    }
    assert(items@.map_values(|item: Json| item@) =~= labels_document(
        labels.deep_view(),
    )->Array_0);
    Json::array(items)
}

/// What the question command prints for answers.
pub fn answers_output(answers: &Vec<Vec<String>>) -> (r: String)
    ensures
        r@ == crate::json::json_text(answers_document(answers_view(*answers))),
{
    let mut items: Vec<Json> = Vec::new();
    let mut i: usize = 0;
    while i < answers.len()
        invariant
            i <= answers@.len(),
            items@.len() == i,
            forall|j: int|
                0 <= j < i ==> (#[trigger] items@[j])@ == labels_document(
                    answers@[j].deep_view(),
                ),
        decreases answers@.len() - i,
    {
        items.push(labels_json(&answers[i]));
        i += 1;
    }
    assert(items@.map_values(|item: Json| item@) =~= answers_view(*answers).map_values(
        |labels: Seq<Seq<char>>| labels_document(labels),
    ));
    Json::object1("answers", Json::array(items)).to_text()
}

/// A time-out is reported only where the deadline has passed, or work was broken
/// off at it, while the server was last found waiting.
pub proof fn timeout_needs_a_healthy_wait(poll: QuestionPoll, event: PollEvent, now: u128)
    requires
        polled(poll, event, now).1 == PollActionView::Finish(Err(QuestionFlowErrorView::Timeout)),
    ensures
        poll.last_wait_was_healthy,
        now >= poll.deadline || event is BrokenOff,
{
}

/// A rejection is reported only where the server said that the operator rejected
/// the question, and before the deadline.
pub proof fn rejection_needs_the_operator(
    poll: QuestionPoll,
    event: PollEvent,
    now: u128,
    reason: Seq<char>,
)
    requires
        polled(poll, event, now).1 == PollActionView::Finish(
            Err(QuestionFlowErrorView::Rejected(reason)),
        ),
    ensures
        now < poll.deadline,
        event matches PollEvent::Reply { body: ReplyBody::Status(found), .. }
            && found@ is Rejected,
{
}

/// An answer is reported only where the server gave it before the deadline.
pub proof fn late_answers_do_not_count(poll: QuestionPoll, event: PollEvent, now: u128)
    requires
        now >= poll.deadline,
    ensures
        polled(poll, event, now).1 matches PollActionView::Finish(r) && r is Err,
{
}

/// What the command exits with tells the outcomes apart, and none of them is
/// taken for bad input.
pub proof fn exit_codes_tell_outcomes_apart(
    one: Result<Seq<Seq<Seq<char>>>, QuestionFlowErrorView>,
    other: Result<Seq<Seq<Seq<char>>>, QuestionFlowErrorView>,
)
    requires
        exit_code_of(one) == exit_code_of(other),
    ensures
        one is Ok == other is Ok,
        one is Err && other is Err ==> {
            &&& one->Err_0 is Rejected == other->Err_0 is Rejected
            &&& one->Err_0 is Timeout == other->Err_0 is Timeout
            &&& one->Err_0 is Pipeline == other->Err_0 is Pipeline
        },
        exit_code_of(one) != BAD_INPUT_EXIT_CODE,
{
}

/// Whether the server counts as found waiting after a run of events.
pub open spec fn health_after(poll: QuestionPoll, events: Seq<(PollEvent, u128)>) -> bool
    decreases events.len(),
{
    if events.len() == 0 {
        poll.last_wait_was_healthy
    } else {
        let before = QuestionPoll {
            last_wait_was_healthy: health_after(poll, events.drop_last()),
            ..poll
        };
        polled(before, events.last().0, events.last().1).0
    }
}

/// Whether an event is a failure that may pass: nothing came back, or a reply that
/// tells neither of success nor of a fault of the one who asked, or one of success
/// that cannot be read or made sense of.
pub open spec fn fails(event: PollEvent) -> bool {
    match event {
        PollEvent::Unsent => true,
        PollEvent::Reply { code, body, .. } => !client_error(code) && (!success(code)
            || !(body is Status)),
        _ => false,
    }
}

/// Whether an event shows the server waiting: it says in time that the question is
/// still pending.
pub open spec fn shows_waiting(poll: QuestionPoll, event: PollEvent, now: u128) -> bool {
    now < poll.deadline && (event matches PollEvent::Reply {
        code,
        body: ReplyBody::Status(found),
        ..
    } && code == 202 && found@ is Pending)
}

/// After a failure, whatever went before, a deadline is the server's fault until
/// the server is found waiting again.
pub proof fn failure_marks_the_wait(
    poll: QuestionPoll,
    events: Seq<(PollEvent, u128)>,
    failure: PollEvent,
    now: u128,
    later: Seq<(PollEvent, u128)>,
)
    requires
        fails(failure),
        forall|i: int|
            0 <= i < later.len() ==> !shows_waiting(
                poll,
                (#[trigger] later[i]).0,
                later[i].1,
            ),
    ensures
        !health_after(poll, events.push((failure, now)) + later),
    decreases later.len(),
{
    let all = events.push((failure, now)) + later;
    if later.len() == 0 {
        assert(all.drop_last() =~= events);
        assert(all.last() == (failure, now));
    } else {
        let fewer = later.drop_last();
        assert forall|i: int| 0 <= i < fewer.len() implies !shows_waiting(
            poll,
            (#[trigger] fewer[i]).0,
            fewer[i].1,
        ) by {
            assert(fewer[i] == later[i]);
        }
        failure_marks_the_wait(poll, events, failure, now, fewer);
        assert(all.drop_last() =~= events.push((failure, now)) + fewer);
        assert(all.last() == later[later.len() - 1]);
    }
}

/// Once the server is found waiting, a deadline that passes then is a time-out.
pub proof fn waiting_server_clears_the_mark(
    poll: QuestionPoll,
    events: Seq<(PollEvent, u128)>,
    event: PollEvent,
    now: u128,
)
    requires
        shows_waiting(poll, event, now),
    ensures
        health_after(poll, events.push((event, now))),
{
    assert(events.push((event, now)).drop_last() =~= events);
}

/// What becomes of a question is what its status says: the answers as they were given, a
/// rejection with the operator's reason, or else that the operator rejected it; a
/// question that was cancelled, or is pending still, has no answer by fault of the
/// server.
pub proof fn outcome_is_what_the_status_says(
    status: QuestionStatus,
    r: Result<Vec<Vec<String>>, QuestionFlowError>,
)
    requires
        call_ensures(resolved_question_status, (status,), r),
    ensures
        status@ is Answered <==> r is Ok,
        status@ is Rejected <==> r is Err && r->Err_0@ is Rejected,
        status@ is Cancelled || status@ is Pending <==> r is Err && r->Err_0@ is Pipeline,
        status matches QuestionStatus::Answered { answers } ==> r is Ok && r->Ok_0.deep_view()
            == answers.deep_view(),
        status matches QuestionStatus::Rejected { reason } ==> r->Err_0@->Rejected_0 == (
        if reason is Some {
            reason->0@
        } else {
            "rejected by operator"@
        }),
        status@ is Cancelled ==> r->Err_0@->Pipeline_0 == "question cancelled"@,
        status@ is Pending ==> r->Err_0@->Pipeline_0
            == "server returned an unexpected final pending question status"@,
{
}

/// A deadline is a time-out exactly where the server was last found waiting, and is not
/// there before its time; work that ends before it counts, and is what it came to.
pub proof fn deadline_counts_from_its_time<T>(
    now: u128,
    deadline: u128,
    healthy: bool,
    done: Option<T>,
    fault: QuestionFlowError,
    ensured: Result<(), QuestionFlowError>,
    awaited: Result<T, QuestionFlowError>,
)
    requires
        call_ensures(question_deadline_error, (healthy,), fault),
        call_ensures(ensure_question_before_deadline, (now, deadline, healthy), ensured),
        call_ensures(await_question_deadline::<T>, (now, deadline, healthy, done), awaited),
    ensures
        healthy <==> fault@ is Timeout,
        !healthy ==> fault@ is Pipeline && fault@->Pipeline_0
            == "question wait failed until the deadline"@,
        ensured is Ok <==> now < deadline,
        ensured is Err ==> ensured->Err_0@ == fault@,
        awaited is Ok <==> now < deadline && done is Some,
        awaited is Ok ==> awaited->Ok_0 == done->0,
        awaited is Err ==> awaited->Err_0@ == fault@,
{
}

/// What the wait does with each event. It begins by asking, unless the deadline is
/// there; an answer or a rejection that comes in time ends it with what the server said;
/// a question that is pending is waited for on; a fault of the one who asked ends it;
/// and any other failure is followed by a pause. The place and the deadline stay.
pub proof fn wait_does_what_each_event_asks_for(
    poll: &mut QuestionPoll,
    event: PollEvent,
    now: u128,
    r: PollAction,
)
    requires
        call_ensures(poll_for_answer, (poll, event, now), r),
    ensures
        final(poll).wait_url@ == old(poll).wait_url@,
        final(poll).deadline == old(poll).deadline,
        ({
            let late = now >= old(poll).deadline;
            let healthy = old(poll).last_wait_was_healthy;
            let given_up = r@ is Finish && r@->Finish_0 is Err && (if healthy {
                r@->Finish_0->Err_0 is Timeout
            } else {
                r@->Finish_0->Err_0 is Pipeline
            });
            &&& event is Begin && !late ==> r@ is Ask && final(poll).last_wait_was_healthy
                == healthy
            &&& event is Begin && late ==> given_up
            &&& event is BrokenOff ==> given_up
            &&& event is Unsent ==> !final(poll).last_wait_was_healthy && (if late {
                r@ is Finish && r@->Finish_0 is Err && r@->Finish_0->Err_0 is Pipeline
            } else {
                r@ is Pause
            })
            &&& event matches PollEvent::Reply { code, status, body } ==> {
                &&& 400 <= code < 500 ==> r@ is Finish && r@->Finish_0 is Err
                    && r@->Finish_0->Err_0 is Pipeline && r@->Finish_0->Err_0->Pipeline_0
                    == "server returned "@ + status@ + " for question wait"@
                &&& (code < 200 || 300 <= code < 400 || code >= 500 || (200 <= code < 300 && !(
                body is Status))) ==> !final(poll).last_wait_was_healthy && (if late {
                    r@ is Finish && r@->Finish_0 is Err && r@->Finish_0->Err_0 is Pipeline
                } else {
                    r@ is Pause
                })
                &&& 200 <= code < 300 ==> (body matches ReplyBody::Status(found) ==> {
                    &&& late ==> given_up
                    &&& !late && code == 202 && found@ is Pending ==> r@ is GoOn
                        && final(poll).last_wait_was_healthy
                    &&& !late && code == 202 && !(found@ is Pending) ==> r@ is Finish
                        && r@->Finish_0 is Err && r@->Finish_0->Err_0 is Pipeline
                        && r@->Finish_0->Err_0->Pipeline_0 == "server returned "@ + status@
                        + " with non-pending question status"@
                    &&& !late && code != 202 && found@ is Answered ==> r@ is Finish
                        && r@->Finish_0 is Ok && r@->Finish_0->Ok_0 == found@->answers
                    &&& !late && code != 202 && found@ is Rejected ==> r@ is Finish
                        && r@->Finish_0 is Err && r@->Finish_0->Err_0 is Rejected && (
                    found@->Rejected_reason is Some ==> r@->Finish_0->Err_0->Rejected_0
                        == found@->Rejected_reason->0)
                    &&& !late && code != 202 && (found@ is Pending || found@ is Cancelled) ==> r@
                        is Finish && r@->Finish_0 is Err && r@->Finish_0->Err_0 is Pipeline
                })
            }
        }),
{
}

/// An answer is never made up: the wait ends with answers only where the server told
/// them, in time, with a reply of success.
pub proof fn answers_come_from_the_server(
    poll: &mut QuestionPoll,
    event: PollEvent,
    now: u128,
    r: PollAction,
)
    requires
        call_ensures(poll_for_answer, (poll, event, now), r),
        r@ matches PollActionView::Finish(Ok(_)),
    ensures
        now < old(poll).deadline,
        event matches PollEvent::Reply { code, status, body: ReplyBody::Status(found) } && 200
            <= code < 300 && code != 202 && found@ is Answered && found@->answers
            == r@->Finish_0->Ok_0,
{
}

/// A question is put to the server that was named, and waited for and given up at the
/// question that the server answered with, for as many seconds as was asked for. One
/// that is over at once is not waited for, and ends as its status says; where it could
/// not be put, the server is at fault.
pub proof fn question_is_put_and_waited_for(
    args: &QuestionArgs,
    now: u128,
    outcome: QuestionRegisterOutcome,
    server: &str,
    url: String,
    r: QuestionStep,
)
    requires
        now <= crate::clock::longest_duration(),
        server@ == args.server@,
        call_ensures(question_register_url, (server,), url),
        call_ensures(after_question_registration, (args, now, outcome), r),
    ensures
        url@ == crate::text::without_trailing(server@, '/') + "/api/v1/hooks/question"@,
        r is Wait <==> (outcome matches QuestionRegisterOutcome::Read { id, status } && status@
            is Pending),
        r matches QuestionStep::Wait { poll, cancel_url } ==> {
            let base = crate::text::without_trailing(server@, '/');
            let place = base + "/api/v1/questions/"@ + crate::ids::uuid_text(outcome->id);
            &&& poll.deadline - now == args.timeout * 1_000_000_000
            &&& poll.last_wait_was_healthy
            &&& poll.wait_url@ == place + "/wait"@
            &&& cancel_url@ == place + "/resolve"@
        },
        r matches QuestionStep::Finish(end) ==> match outcome {
            QuestionRegisterOutcome::Unsent(why) => end is Err && end->Err_0@ is Pipeline
                && end->Err_0@->Pipeline_0 == "failed to register question: "@ + why@,
            QuestionRegisterOutcome::Refused(status) => end is Err && end->Err_0@ is Pipeline
                && end->Err_0@->Pipeline_0 == "server returned "@ + status@
                + " for question registration"@,
            QuestionRegisterOutcome::Malformed(why) => end is Err && end->Err_0@ is Pipeline
                && end->Err_0@->Pipeline_0 == "failed to parse question response: "@ + why@,
            QuestionRegisterOutcome::Read { id, status } => {
                &&& status@ is Answered <==> end is Ok
                &&& status@ is Answered ==> end->Ok_0.deep_view() == status@->answers
                &&& status@ is Rejected <==> end is Err && end->Err_0@ is Rejected
                &&& status@ is Rejected && status@->Rejected_reason is Some
                    ==> end->Err_0@->Rejected_0 == status@->Rejected_reason->0
            },
        },
{
}

/// The wait is given up by a cancellation, which is no answer and no rejection.
pub proof fn giving_up_is_a_cancellation(
    request: QuestionResolveRequest,
    end: Result<Vec<Vec<String>>, QuestionFlowError>,
)
    requires
        call_ensures(cancel_request, (), request),
        call_ensures(aborted, (), end),
    ensures
        request.decision == QuestionDecision::Cancel,
        request.answers is None,
        request.reason is Some,
        request.reason->0@ == "aborted by signal"@,
        end is Err,
        end->Err_0@ is Pipeline,
        end->Err_0@->Pipeline_0 == "aborted by signal"@,
{
}

/// The command succeeds exactly where there is an answer; a rejection, a time-out and a
/// fault of the server have codes of their own, and are said in words.
pub proof fn command_ends_as_the_question_did(
    r: &Result<Vec<Vec<String>>, QuestionFlowError>,
    code: u8,
    notice: String,
)
    requires
        call_ensures(question_exit_code, (r,), code),
        r is Err ==> call_ensures(failure_notice, (&r->Err_0,), notice),
    ensures
        code == 0 <==> r is Ok,
        code == 1 <==> r is Err && r->Err_0@ is Rejected,
        code == 3 <==> r is Err && r->Err_0@ is Timeout,
        code == 4 <==> r is Err && r->Err_0@ is Pipeline,
        code == 0 || code == 1 || code == 3 || code == 4,
        r is Err ==> notice@ == "agent-hub-gateway question: "@ + match r->Err_0 {
            QuestionFlowError::Rejected(reason) => reason@,
            QuestionFlowError::Timeout => "question timed out"@,
            QuestionFlowError::Pipeline(reason) => reason@,
        },
{
}

/// What is printed holds all answers, for each question its labels, in their order.
pub proof fn answers_are_printed_as_given(answers: &Vec<Vec<String>>, r: String)
    requires
        call_ensures(answers_output, (answers,), r),
    ensures
        exists|told: JsonView| {
            let listed = told.member("answers"@)->0->Array_0;
            &&& r@ == #[trigger] crate::json::json_text(told)
            &&& told.member("answers"@) is Some
            &&& told.member("answers"@)->0 is Array
            &&& listed.len() == answers@.len()
            &&& forall|i: int|
                0 <= i < answers@.len() ==> (#[trigger] listed[i]) is Array
                    && listed[i]->Array_0.len() == answers@[i]@.len()
            &&& forall|i: int, j: int|
                0 <= i < answers@.len() && 0 <= j < answers@[i]@.len() ==> (
                #[trigger] listed[i]->Array_0[j]) == JsonView::Text(answers@[i]@[j]@)
        },
{
    let all = answers_view(*answers);
    let told = answers_document(all);
    crate::json::member_of_one("answers"@, told->Object_0[0].1);
    let listed = told.member("answers"@)->0->Array_0;
    assert forall|i: int| 0 <= i < answers@.len() implies (#[trigger] listed[i]) is Array
        && listed[i]->Array_0.len() == answers@[i]@.len() by {
        assert(listed[i] == labels_document(all[i]));
    }
    assert forall|i: int, j: int|
        0 <= i < answers@.len() && 0 <= j < answers@[i]@.len() implies (
    #[trigger] listed[i]->Array_0[j]) == JsonView::Text(answers@[i]@[j]@) by {
        assert(listed[i] == labels_document(all[i]));
    }
    assert(r@ == crate::json::json_text(told));
}

} // verus!
