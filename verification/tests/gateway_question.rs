//! Questions of plan mode.

use agent_hub::gateway::question::{
    aborted, after_question_registration, answers_output, await_question_deadline, cancel_request,
    ensure_question_before_deadline, failure_notice, poll_for_answer, question_deadline_error,
    question_exit_code, question_register_url, resolved_question_status, PollAction, PollEvent,
    QuestionArgs, QuestionFlowError, QuestionPoll, QuestionRegisterOutcome, QuestionStep,
    ReplyBody, BAD_INPUT_EXIT_CODE,
};
use agent_hub::protocol::question::{QuestionDecision, QuestionStatus};
use agent_hub::protocol::secret::Secret;

fn seconds(n: u128) -> u128 {
    n * 1_000_000_000
}

fn args() -> QuestionArgs {
    QuestionArgs {
        opencode: true,
        server: "http://localhost:8080//".to_string(),
        token: Secret::new("test-token"),
        timeout: 2,
    }
}

fn waiting() -> QuestionPoll {
    let read = QuestionRegisterOutcome::Read { id: 2, status: QuestionStatus::Pending };
    match after_question_registration(&args(), seconds(10), read) {
        QuestionStep::Wait { poll, .. } => poll,
        QuestionStep::Finish(_) => panic!("a pending question is waited for"),
    }
}

fn reply(code: u16, status: &str, body: ReplyBody) -> PollEvent {
    PollEvent::Reply { code, status: status.to_string(), body }
}

fn pending_reply() -> PollEvent {
    reply(202, "202 Accepted", ReplyBody::Status(QuestionStatus::Pending))
}

fn finished(action: PollAction) -> Result<Vec<Vec<String>>, QuestionFlowError> {
    match action {
        PollAction::Finish(result) => result,
        other => panic!("the wait goes on: {other:?}"),
    }
}

/// What work that takes up to `finishes_at` comes to where it is broken off at the
/// deadline.
fn done_by<T>(deadline: u128, finishes_at: u128, output: T) -> Option<T> {
    (finishes_at < deadline).then_some(output)
}

/// Runs a wait on what each ask comes to, and counts the asks. What comes after the
/// last one is broken off at the deadline.
fn run(replies: Vec<PollEvent>) -> (usize, Result<Vec<Vec<String>>, QuestionFlowError>) {
    let mut poll = waiting();
    let mut asks = 0;
    let mut replies = replies.into_iter();
    loop {
        match poll_for_answer(&mut poll, PollEvent::Begin, seconds(10)) {
            PollAction::Ask => asks += 1,
            other => return (asks, finished(other)),
        }
        let action = match replies.next() {
            Some(event) => poll_for_answer(&mut poll, event, seconds(10)),
            None => poll_for_answer(&mut poll, PollEvent::BrokenOff, seconds(12)),
        };
        match action {
            PollAction::GoOn | PollAction::Pause => {}
            other => return (asks, finished(other)),
        }
    }
}

#[test]
fn question_rejection_is_distinct_from_indeterminate_outcomes() {
    assert!(matches!(
        resolved_question_status(QuestionStatus::Rejected {
            reason: Some("no".to_string()),
        }),
        Err(QuestionFlowError::Rejected(_))
    ));
    assert!(matches!(
        resolved_question_status(QuestionStatus::Cancelled),
        Err(QuestionFlowError::Pipeline(_))
    ));
    assert!(matches!(
        resolved_question_status(QuestionStatus::Pending),
        Err(QuestionFlowError::Pipeline(_))
    ));
    assert_eq!(question_deadline_error(true), QuestionFlowError::Timeout);
    assert!(matches!(
        question_deadline_error(false),
        QuestionFlowError::Pipeline(_)
    ));
}

#[test]
fn question_deadline_rejects_late_answer_after_healthy_pending() {
    let deadline = seconds(5);
    let answer = || vec![vec!["late answer".to_string()]];
    // Work that takes six seconds from zero on is broken off before it comes to this.
    let done = done_by(deadline, seconds(6), answer());
    let result = await_question_deadline(0, deadline, true, done);
    assert_eq!(result.unwrap_err(), QuestionFlowError::Timeout);
    assert_eq!(
        await_question_deadline(0, deadline, true, done_by(deadline, seconds(4), answer())),
        Ok(answer())
    );
    // Nor does the answer count where it is handed in at or after the deadline.
    for now in [deadline, seconds(6)] {
        let result = await_question_deadline(now, deadline, true, Some(answer()));
        assert_eq!(result.unwrap_err(), QuestionFlowError::Timeout);
        let mut poll = QuestionPoll { deadline, ..waiting() };
        assert_eq!(poll_for_answer(&mut poll, pending_reply(), 0), PollAction::GoOn);
        let answered = QuestionStatus::Answered { answers: answer() };
        let event = reply(200, "200 OK", ReplyBody::Status(answered));
        let late = finished(poll_for_answer(&mut poll, event, now));
        assert_eq!(late.unwrap_err(), QuestionFlowError::Timeout);
    }
}

#[test]
fn question_deadline_after_recurring_failure_is_pipeline_error() {
    let deadline = seconds(5);
    let done = done_by(deadline, seconds(6), ());
    let result = await_question_deadline(0, deadline, false, done);
    assert!(matches!(result, Err(QuestionFlowError::Pipeline(_))));
}

#[test]
fn work_that_is_done_in_time_counts_and_none_begins_at_the_deadline() {
    assert_eq!(await_question_deadline(4, 5, true, Some(7)), Ok(7));
    assert_eq!(await_question_deadline(5, 5, true, Some(7)), Err(QuestionFlowError::Timeout));
    assert_eq!(ensure_question_before_deadline(4, 5, false), Ok(()));
    assert_eq!(
        ensure_question_before_deadline(5, 5, false),
        Err(QuestionFlowError::Pipeline("question wait failed until the deadline".to_string()))
    );
}

#[test]
fn question_explicit_rejection_exits_one() {
    let rejected = QuestionStatus::Rejected { reason: Some("operator rejected this".to_string()) };
    let (asks, result) = run(vec![reply(200, "200 OK", ReplyBody::Status(rejected))]);
    assert_eq!(result, Err(QuestionFlowError::Rejected("operator rejected this".to_string())));
    assert_eq!(question_exit_code(&result), 1);
    assert_eq!(asks, 1);
}

#[test]
fn question_healthy_wait_timeout_exits_three() {
    let (asks, result) = run(vec![pending_reply()]);
    assert_eq!(result, Err(QuestionFlowError::Timeout));
    assert_eq!(question_exit_code(&result), 3);
    assert_eq!(asks, 2);
}

#[test]
fn question_failed_wait_until_deadline_exits_four() {
    let mut poll = waiting();
    let mut asks = 0;
    assert_eq!(poll_for_answer(&mut poll, PollEvent::Begin, seconds(10)), PollAction::Ask);
    asks += 1;
    assert_eq!(poll_for_answer(&mut poll, pending_reply(), seconds(10)), PollAction::GoOn);
    assert_eq!(poll_for_answer(&mut poll, PollEvent::Begin, seconds(10)), PollAction::Ask);
    asks += 1;
    let failure = || reply(500, "500 Internal Server Error", ReplyBody::Unread);
    assert_eq!(poll_for_answer(&mut poll, failure(), seconds(10)), PollAction::Pause);
    // The deadline passes in the pause.
    let result = finished(poll_for_answer(&mut poll, PollEvent::BrokenOff, seconds(12)));
    assert_eq!(question_exit_code(&result), 4);
    assert_eq!(asks, 2);
    // It is no different where another ask is broken off.
    let (asks, result) = run(vec![pending_reply(), failure()]);
    assert_eq!(question_exit_code(&result), 4);
    assert_eq!(asks, 3);
}

#[test]
fn each_failure_of_a_wait_pauses_and_marks_it() {
    for event in [
        PollEvent::Unsent,
        reply(503, "503 Service Unavailable", ReplyBody::Unread),
        reply(302, "302 Found", ReplyBody::Unread),
        reply(200, "200 OK", ReplyBody::Unread),
        reply(200, "200 OK", ReplyBody::Malformed),
    ] {
        let mut poll = waiting();
        assert_eq!(poll_for_answer(&mut poll, event, seconds(11)), PollAction::Pause);
        assert!(!poll.last_wait_was_healthy);
        assert_eq!(poll_for_answer(&mut poll, pending_reply(), seconds(11)), PollAction::GoOn);
        assert!(poll.last_wait_was_healthy);
    }
    let mut poll = waiting();
    let result = finished(poll_for_answer(&mut poll, PollEvent::Unsent, seconds(12)));
    assert_eq!(question_exit_code(&result), 4);
}

#[test]
fn replies_that_make_no_sense_end_the_wait() {
    let mut poll = waiting();
    let refused = reply(404, "404 Not Found", ReplyBody::Unread);
    assert_eq!(
        finished(poll_for_answer(&mut poll, refused, seconds(11))),
        Err(QuestionFlowError::Pipeline(
            "server returned 404 Not Found for question wait".to_string()
        ))
    );
    let odd = reply(202, "202 Accepted", ReplyBody::Status(QuestionStatus::Cancelled));
    assert_eq!(
        finished(poll_for_answer(&mut poll, odd, seconds(11))),
        Err(QuestionFlowError::Pipeline(
            "server returned 202 Accepted with non-pending question status".to_string()
        ))
    );
    let still = reply(200, "200 OK", ReplyBody::Status(QuestionStatus::Pending));
    assert_eq!(
        finished(poll_for_answer(&mut poll, still, seconds(11))),
        Err(QuestionFlowError::Pipeline(
            "server returned an unexpected final pending question status".to_string()
        ))
    );
}

#[test]
fn late_answer_is_dropped() {
    let mut poll = waiting();
    let answers = vec![vec!["Yes".to_string()]];
    let event = reply(200, "200 OK", ReplyBody::Status(QuestionStatus::Answered { answers }));
    let result = finished(poll_for_answer(&mut poll, event, seconds(12)));
    assert_eq!(result, Err(QuestionFlowError::Timeout));
}

#[test]
fn answer_is_printed_and_exits_zero() {
    let mut poll = waiting();
    let answers = vec![vec!["Yes".to_string(), "a \"b\"\n".to_string()], vec![]];
    let event = reply(200, "200 OK", ReplyBody::Status(QuestionStatus::Answered { answers }));
    let result = finished(poll_for_answer(&mut poll, event, seconds(11)));
    assert_eq!(question_exit_code(&result), 0);
    assert_eq!(
        answers_output(&result.unwrap()),
        "{\"answers\":[[\"Yes\",\"a \\\"b\\\"\\n\"],[]]}"
    );
}

#[test]
fn question_is_put_and_waited_for_at_its_own_address() {
    assert_eq!(
        question_register_url("http://localhost:8080//"),
        "http://localhost:8080/api/v1/hooks/question"
    );
    let read = QuestionRegisterOutcome::Read { id: 2, status: QuestionStatus::Pending };
    let step = after_question_registration(&args(), seconds(10), read);
    let base = "http://localhost:8080/api/v1/questions/00000000-0000-0000-0000-000000000002";
    assert_eq!(
        step,
        QuestionStep::Wait {
            poll: QuestionPoll {
                wait_url: format!("{base}/wait"),
                deadline: seconds(12),
                last_wait_was_healthy: true,
            },
            cancel_url: format!("{base}/resolve"),
        }
    );
}

#[test]
fn question_that_cannot_be_put_is_the_pipelines_fault() {
    for (outcome, reason) in [
        (
            QuestionRegisterOutcome::Unsent("refused".to_string()),
            "failed to register question: refused",
        ),
        (
            QuestionRegisterOutcome::Refused("401 Unauthorized".to_string()),
            "server returned 401 Unauthorized for question registration",
        ),
        (
            QuestionRegisterOutcome::Malformed("eof".to_string()),
            "failed to parse question response: eof",
        ),
        (
            QuestionRegisterOutcome::Read { id: 2, status: QuestionStatus::Cancelled },
            "question cancelled",
        ),
    ] {
        let step = after_question_registration(&args(), 0, outcome);
        let fault = Err(QuestionFlowError::Pipeline(reason.to_string()));
        assert_eq!(step, QuestionStep::Finish(fault));
    }
}

#[test]
fn wait_that_is_given_up_is_cancelled() {
    let request = cancel_request();
    assert_eq!(request.decision, QuestionDecision::Cancel);
    assert_eq!(request.answers, None);
    assert_eq!(request.reason.as_deref(), Some("aborted by signal"));
    assert_eq!(question_exit_code(&aborted()), 4);
}

#[test]
fn failures_are_said_in_words() {
    let no = resolved_question_status(QuestionStatus::Rejected { reason: None }).unwrap_err();
    assert_eq!(failure_notice(&no), "agent-hub-gateway question: rejected by operator");
    assert_eq!(
        failure_notice(&QuestionFlowError::Timeout),
        "agent-hub-gateway question: question timed out"
    );
    assert_eq!(
        failure_notice(&QuestionFlowError::Pipeline("x".to_string())),
        "agent-hub-gateway question: x"
    );
    assert_eq!(BAD_INPUT_EXIT_CODE, 2);
    assert_eq!(args().token.expose(), "test-token");
}
