//! What the server answers to requests about approvals, questions and sessions.

use vstd::prelude::*;

use crate::clock::UtcTime;
use crate::ids::format_uuid;
use crate::protocol::approval::{
    Approval, ApprovalDecision, ApprovalGrantDuration, ApprovalResolveRequest, ApprovalStatus,
    ApprovalStatusView, ApprovalView, ApprovalWaitResponse,
};
use crate::protocol::question::{
    PendingQuestion, QuestionDecision, QuestionResolveRequest, QuestionStatus, QuestionStatusView,
    QuestionWaitResponse,
};
use crate::protocol::session::{ApprovalModeResponse, SessionNotifyConfig};
use crate::server::approvals::{
    ApprovalRegistry, RegisterApproval, RegistrationOutcome, TemporaryGrantError,
};
use crate::server::model::RegistryView;

verus! {

/// Why a request is not met.
#[derive(Debug, PartialEq, Eq)]
pub enum AppError {
    ApprovalNotFound(String),
    QuestionNotFound(String),
    SessionNotFound(String),
    BadRequest(String),
}

/// What an `AppError` says.
pub enum AppErrorView {
    ApprovalNotFound(Seq<char>),
    QuestionNotFound(Seq<char>),
    SessionNotFound(Seq<char>),
    BadRequest(Seq<char>),
}

impl View for AppError {
    type V = AppErrorView;

    open spec fn view(&self) -> AppErrorView {
        match self {
            AppError::ApprovalNotFound(id) => AppErrorView::ApprovalNotFound(id@),
            AppError::QuestionNotFound(id) => AppErrorView::QuestionNotFound(id@),
            AppError::SessionNotFound(id) => AppErrorView::SessionNotFound(id@),
            AppError::BadRequest(reason) => AppErrorView::BadRequest(reason@),
        }
    }
}

/// The HTTP status for a request that is met.
pub const OK: u16 = 200;

/// The HTTP status for a wait that goes on.
pub const ACCEPTED: u16 = 202;

/// How many seconds a request for a decision waits.
pub const WAIT_SECS: u64 = 55;

/// The view of an approval or of why there is none.
pub open spec fn approval_result(r: Result<Approval, AppError>) -> Result<
    ApprovalView,
    AppErrorView,
> {
    match r {
        Ok(approval) => Ok(approval@),
        Err(fault) => Err(fault@),
    }
}

/// The approval with an identifier, or that there is none.
pub open spec fn found_approval(registry: RegistryView, id: u128) -> Result<
    ApprovalView,
    AppErrorView,
> {
    match registry.approval(id) {
        Some(approval) => Ok(approval),
        None => Err(AppErrorView::ApprovalNotFound(crate::ids::uuid_text(id))),
    }
}

/// All pending approvals.
pub fn handle_list_pending(registry: &ApprovalRegistry) -> (r: Vec<Approval>)
    requires
        registry.wf(),
    ensures
        registry@.lists_pending(crate::protocol::approval::approval_views(r@)),
{
    registry.list_pending()
}

/// One approval.
pub fn handle_get_approval(registry: &ApprovalRegistry, id: u128) -> (r: Result<
    Approval,
    AppError,
>)
    requires
        registry.wf(),
    ensures
        approval_result(r) == found_approval(registry@, id),
{
    match registry.get(id) {
        Some(approval) => Ok(approval),
        None => Err(AppError::ApprovalNotFound(format_uuid(id))),
    }
}

/// The answer to a wait, or what to watch until there is one.
pub enum WaitStart {
    /// Answer with this HTTP status and this.
    Answer(u16, ApprovalWaitResponse),
    /// Watch this for a decision.
    Watch(tokio::sync::watch::Receiver<ApprovalStatus>),
}

/// Begins a wait for a decision at `now`. The poll is noted; a decision that is
/// there is answered at once.
pub fn begin_approval_wait_at(registry: &mut ApprovalRegistry, id: u128, now: u128) -> (r: Result<
    WaitStart,
    AppError,
>)
    requires
        old(registry).wf(),
    ensures
        final(registry).wf(),
        final(registry).keeps_watchers(*old(registry)),
        final(registry)@ == old(registry)@.polled(id, now),
        match old(registry)@.approval(id) {
            None => r matches Err(fault) && fault@ == AppErrorView::ApprovalNotFound(
                crate::ids::uuid_text(id),
            ),
            Some(approval) => if approval.pending() {
                &&& r matches Ok(WaitStart::Watch(rx))
                &&& crate::server::approvals::channel_heard(rx) == final(registry).channels()[id]
                &&& crate::server::approvals::first_seen(rx) == seq![approval.status]
            } else {
                r matches Ok(WaitStart::Answer(code, answer)) && code == OK && answer.status@
                    == approval.status
            },
        },
{
    match (registry.get(id), registry.subscribe(id)) {
        (Some(approval), Some(receiver)) => {
            registry.touch_at(id, now);
            if approval.status.is_resolved() {
                Ok(WaitStart::Answer(OK, ApprovalWaitResponse { status: approval.status }))
            } else {
                Ok(WaitStart::Watch(receiver))
            }
        },
        _ => {
            assert(registry@.polled(id, now) == registry@);
            Err(AppError::ApprovalNotFound(format_uuid(id)))
        },
    }
}

/// Begins a wait for a decision now.
pub fn begin_approval_wait(registry: &mut ApprovalRegistry, id: u128) -> (r: Result<
    WaitStart,
    AppError,
>)
    requires
        old(registry).wf(),
    ensures
        final(registry).wf(),
        final(registry).keeps_watchers(*old(registry)),
        exists|now: u128|
            now <= crate::clock::longest_duration() && final(registry)@
                == #[trigger] old(registry)@.polled(id, now),
        match old(registry)@.approval(id) {
            None => r matches Err(fault) && fault@ == AppErrorView::ApprovalNotFound(
                crate::ids::uuid_text(id),
            ),
            Some(approval) => if approval.pending() {
                &&& r matches Ok(WaitStart::Watch(rx))
                &&& crate::server::approvals::channel_heard(rx) == final(registry).channels()[id]
                &&& crate::server::approvals::first_seen(rx) == seq![approval.status]
            } else {
                r matches Ok(WaitStart::Answer(code, answer)) && code == OK && answer.status@
                    == approval.status
            },
        },
{
    let now: u128 = registry.now();
    begin_approval_wait_at(registry, id, now)
}

/// Ends a wait for a decision: `changed` says whether the status changed in time,
/// `status` is what it then was. Without a decision the wait goes on.
pub fn finish_approval_wait(changed: bool, status: ApprovalStatus) -> (r: (
    u16,
    ApprovalWaitResponse,
))
    ensures
        changed && status@.resolved() ==> r.0 == OK && r.1.status == status,
        !(changed && status@.resolved()) ==> r.0 == ACCEPTED && r.1.status@ is Pending,
{
    if changed && status.is_resolved() {
        (OK, ApprovalWaitResponse { status })
    } else {
        (ACCEPTED, ApprovalWaitResponse { status: ApprovalStatus::Pending })
    }
}

/// The status that a decision stands for.
pub open spec fn decided_status(
    decision: ApprovalDecision,
    message: Option<String>,
) -> ApprovalStatusView {
    match decision {
        ApprovalDecision::Approve => ApprovalStatusView::Approved {
            message: crate::text::opt_view(message),
        },
        ApprovalDecision::Deny => ApprovalStatusView::Denied {
            reason: match message {
                Some(message) => message@,
                None => Seq::empty(),
            },
        },
        ApprovalDecision::Cancel => ApprovalStatusView::Cancelled,
    }
}

/// The status that a decision stands for. A denial without a message has an
/// empty reason.
fn status_of_decision(decision: ApprovalDecision, message: Option<String>) -> (r: ApprovalStatus)
    ensures
        r@ == decided_status(decision, message),
{
    match decision {
        ApprovalDecision::Approve => ApprovalStatus::Approved { message },
        ApprovalDecision::Deny => {
            let reason = match message {
                Some(message) => message,
                None => String::new(),
            };
            assert(message is None ==> reason@ =~= Seq::empty());
            ApprovalStatus::Denied { reason }
        },
        ApprovalDecision::Cancel => ApprovalStatus::Cancelled,
    }
}

/// What is told where a denial or a cancellation comes with a grant.
pub const GRANT_WITHOUT_APPROVAL_MESSAGE: &'static str =
    "approve_for is valid only with an approve decision";

/// What a refused grant is answered.
pub open spec fn grant_fault(id: u128, refusal: TemporaryGrantError) -> AppErrorView {
    match refusal {
        TemporaryGrantError::ApprovalNotFound => AppErrorView::ApprovalNotFound(
            crate::ids::uuid_text(id),
        ),
        _ => AppErrorView::BadRequest(refusal.text()),
    }
}

/// What a decision does, and what it is answered. `now` counts for a decision
/// that comes with a grant.
pub open spec fn resolve_answer(
    registry: RegistryView,
    id: u128,
    body: Result<ApprovalResolveRequest, String>,
    now: u128,
) -> (RegistryView, Result<ApprovalView, AppErrorView>) {
    match body {
        Err(fault) => (registry, Err(AppErrorView::BadRequest(fault@))),
        Ok(request) => {
            let status = decided_status(request.decision, request.message);
            match request.approve_for {
                Some(duration) => if request.decision != ApprovalDecision::Approve {
                    (
                        registry,
                        Err(AppErrorView::BadRequest(GRANT_WITHOUT_APPROVAL_MESSAGE@)),
                    )
                } else {
                    match registry.grant_refusal(id, status) {
                        Some(refusal) => (registry, Err(grant_fault(id, refusal))),
                        None => {
                            let after = registry.decided_with_grant(
                                id,
                                status,
                                (now + duration.nanos()) as u128,
                            );
                            (after, found_approval(after, id))
                        },
                    }
                },
                None => {
                    let after = registry.decided(id, status);
                    (after, found_approval(after, id))
                },
            }
        },
    }
}

/// Takes a decision at `now`.
pub fn handle_approval_resolve_at(
    registry: &mut ApprovalRegistry,
    id: u128,
    body: Result<ApprovalResolveRequest, String>,
    now: u128,
) -> (r: Result<Approval, AppError>)
    requires
        old(registry).wf(),
        now + ApprovalGrantDuration::TwentyFourHours.nanos() <= u128::MAX,
    ensures
        final(registry).wf(),
        final(registry).keeps_watchers(*old(registry)),
        (final(registry)@, approval_result(r)) == resolve_answer(old(registry)@, id, body, now),
{
    let request = match body {
        Ok(request) => request,
        Err(fault) => {
            return Err(AppError::BadRequest(fault));
        },
    };
    if request.approve_for.is_some() && request.decision != ApprovalDecision::Approve {
        return Err(AppError::BadRequest(GRANT_WITHOUT_APPROVAL_MESSAGE.to_string()));
    }
    let status = status_of_decision(request.decision, request.message);
    match request.approve_for {
        Some(duration) => match registry.resolve_with_grant_at(id, status, duration, now) {
            Ok(approval) => Ok(approval),
            Err(TemporaryGrantError::ApprovalNotFound) => Err(
                AppError::ApprovalNotFound(format_uuid(id)),
            ),
            Err(refusal) => Err(AppError::BadRequest(refusal.message().to_string())),
        },
        None => match registry.resolve(id, status) {
            Some(approval) => Ok(approval),
            None => Err(AppError::ApprovalNotFound(format_uuid(id))),
        },
    }
}

/// Takes a decision now.
pub fn handle_approval_resolve(
    registry: &mut ApprovalRegistry,
    id: u128,
    body: Result<ApprovalResolveRequest, String>,
) -> (r: Result<Approval, AppError>)
    requires
        old(registry).wf(),
    ensures
        final(registry).wf(),
        final(registry).keeps_watchers(*old(registry)),
        exists|now: u128|
            now <= crate::clock::longest_duration() && (final(registry)@, approval_result(r))
                == #[trigger] resolve_answer(old(registry)@, id, body, now),
{
    let now: u128 = registry.now();
    handle_approval_resolve_at(registry, id, body, now)
}

/// How a session is approved.
pub fn handle_get_approval_mode(id: &str, config: Option<SessionNotifyConfig>) -> (r: Result<
    ApprovalModeResponse,
    AppError,
>)
    ensures
        match config {
            Some(config) => r == Ok::<_, AppError>(
                ApprovalModeResponse { approval_mode: config.approval_mode },
            ),
            None => r matches Err(fault) && fault@ == AppErrorView::SessionNotFound(id@),
        },
{
    match config {
        Some(config) => Ok(ApprovalModeResponse { approval_mode: config.approval_mode }),
        None => Err(AppError::SessionNotFound(id.to_string())),
    }
}

/// What an update of a session is answered; `updated` is how it is treated from
/// then on, if there is such a session.
pub fn handle_update_session(id: &str, updated: Option<SessionNotifyConfig>) -> (r: Result<
    SessionNotifyConfig,
    AppError,
>)
    ensures
        match updated {
            Some(config) => r == Ok::<_, AppError>(config),
            None => r matches Err(fault) && fault@ == AppErrorView::SessionNotFound(id@),
        },
{
    match updated {
        Some(config) => Ok(config),
        None => Err(AppError::SessionNotFound(id.to_string())),
    }
}

/// One question, where there is such a question.
pub fn handle_get_question(id: u128, found: Option<PendingQuestion>) -> (r: Result<
    PendingQuestion,
    AppError,
>)
    ensures
        match found {
            Some(question) => r == Ok::<_, AppError>(question),
            None => r matches Err(fault) && fault@ == AppErrorView::QuestionNotFound(
                crate::ids::uuid_text(id),
            ),
        },
{
    match found {
        Some(question) => Ok(question),
        None => Err(AppError::QuestionNotFound(format_uuid(id))),
    }
}

/// Begins a wait for an answer: `found` is the status of the question, if there
/// is such a question. What is not pending any more is answered at once; nothing
/// is answered while it is.
pub fn begin_question_wait(id: u128, found: Option<QuestionStatus>) -> (r: Result<
    Option<(u16, QuestionWaitResponse)>,
    AppError,
>)
    ensures
        match found {
            None => r matches Err(fault) && fault@ == AppErrorView::QuestionNotFound(
                crate::ids::uuid_text(id),
            ),
            Some(status) => if status@ is Pending {
                r matches Ok(None)
            } else {
                r == Ok::<_, AppError>(Some((OK, QuestionWaitResponse { status })))
            },
        },
{
    match found {
        Some(status) => {
            if status.is_resolved() {
                Ok(Some((OK, QuestionWaitResponse { status })))
            } else {
                Ok(None)
            }
        },
        None => Err(AppError::QuestionNotFound(format_uuid(id))),
    }
}

/// Ends a wait for an answer: `changed` says whether the status changed in time,
/// `status` is what it then was.
pub fn finish_question_wait(changed: bool, status: QuestionStatus) -> (r: (
    u16,
    QuestionWaitResponse,
))
    ensures
        changed && !(status@ is Pending) ==> r.0 == OK && r.1.status == status,
        !changed || status@ is Pending ==> r.0 == ACCEPTED && r.1.status@ is Pending,
{
    if changed && status.is_resolved() {
        (OK, QuestionWaitResponse { status })
    } else {
        (ACCEPTED, QuestionWaitResponse { status: QuestionStatus::Pending })
    }
}

/// The status that a decision on a question stands for. An answer without
/// answers is an empty one.
pub fn question_status(request: QuestionResolveRequest) -> (r: QuestionStatus)
    ensures
        r@ == match request.decision {
            QuestionDecision::Answer => QuestionStatusView::Answered {
                answers: match request.answers {
                    Some(answers) => answers.deep_view(),
                    None => Seq::empty(),
                },
            },
            QuestionDecision::Reject => QuestionStatusView::Rejected {
                reason: request.reason.deep_view(),
            },
            QuestionDecision::Cancel => QuestionStatusView::Cancelled,
        },
{
    match request.decision {
        QuestionDecision::Answer => {
            let answers = match request.answers {
                Some(answers) => answers,
                None => {
                    let none: Vec<Vec<String>> = Vec::new();
                    assert(none.deep_view() =~= Seq::empty());
                    none
                },
            };
            QuestionStatus::Answered { answers }
        },
        QuestionDecision::Reject => QuestionStatus::Rejected { reason: request.reason },
        QuestionDecision::Cancel => QuestionStatus::Cancelled,
    }
}

/// A request that is refused changes nothing.
pub proof fn refused_decision_changes_nothing(
    registry: RegistryView,
    id: u128,
    body: Result<ApprovalResolveRequest, String>,
    now: u128,
)
    ensures
        resolve_answer(registry, id, body, now).1 is Err ==> resolve_answer(
            registry,
            id,
            body,
            now,
        ).0 == registry,
{
    if let Ok(request) = body {
        let status = decided_status(request.decision, request.message);
        if request.approve_for is None && registry.approval(id) is None {
            assert(registry.decided(id, status) == registry);
        }
    }
}

/// A timed approval lasts as long as the operator chose. After a successful decision at
/// `now` with a duration, a call of the same session with the same command is approved
/// without being asked about at every time before `now` plus that duration, and waits
/// for the operator at every time from then on.
pub proof fn timed_approval_lasts_as_chosen(
    registry: &mut ApprovalRegistry,
    id: u128,
    request: ApprovalResolveRequest,
    now: u128,
    r: Result<Approval, AppError>,
    later: &mut ApprovalRegistry,
    call: RegisterApproval,
    created_at: UtcTime,
    t: u128,
    call_id: u128,
    outcome: RegistrationOutcome,
)
    requires
        old(registry).wf(),
        now + ApprovalGrantDuration::TwentyFourHours.nanos() <= u128::MAX,
        call_ensures(handle_approval_resolve_at, (registry, id, Ok(request), now), r),
        r is Ok,
        request.approve_for is Some,
        old(later)@ == final(registry)@,
        call_ensures(
            ApprovalRegistry::register_with_id,
            (later, call, created_at, t, call_id),
            outcome,
        ),
        old(registry)@.answering(call.request_id@) is None,
        call.tool@ is Bash,
        call.session_id@ == old(registry)@.entries[id].approval.session_id,
        call.tool_input@.text_member("command"@)
            == old(registry)@.entries[id].approval.tool_input.text_member("command"@),
    ensures
        outcome.is_new,
        now <= t < now + request.approve_for->0.nanos() ==> outcome.approval.status@ is Approved,
        t >= now + request.approve_for->0.nanos() ==> outcome.approval.status@ is Pending,
{
    (*old(registry)).view_is_wf();
    let status = decided_status(request.decision, request.message);
    crate::server::laws::grant_lets_the_same_call_through_until_its_end(
        old(registry)@,
        id,
        status,
        (now + request.approve_for->0.nanos()) as u128,
        call@,
        created_at,
        t,
        call_id,
    );
}

/// A decision with a duration leaves one grant, for the session and the command of the
/// approval, which ends that long after some time at which the decision was taken; every
/// other grant stays. A decision without one leaves all grants.
pub proof fn timed_approval_leaves_other_grants(
    registry: &mut ApprovalRegistry,
    id: u128,
    body: Result<ApprovalResolveRequest, String>,
    r: Result<Approval, AppError>,
    key: (Seq<char>, Seq<char>),
)
    requires
        old(registry).wf(),
        call_ensures(handle_approval_resolve, (registry, id, body), r),
    ensures
        r is Err || body->Ok_0.approve_for is None ==> final(registry)@.grants
            == old(registry)@.grants,
        r is Ok && body->Ok_0.approve_for is Some ==> {
            let approval = old(registry)@.entries[id].approval;
            let own = (approval.session_id, approval.tool_input.text_member("command"@)->0);
            &&& approval.tool is Bash
            &&& approval.tool_input.text_member("command"@) is Some
            &&& final(registry)@.grants.contains_key(own)
            &&& exists|now: u128|
                now <= crate::clock::longest_duration() && #[trigger] (now
                    + body->Ok_0.approve_for->0.nanos()) as u128
                    == final(registry)@.grants[own]
            &&& key != own ==> final(registry)@.grants.contains_key(key)
                == old(registry)@.grants.contains_key(key) && final(registry)@.grants[key]
                == old(registry)@.grants[key]
        },
{
    let now = choose|now: u128|
        now <= crate::clock::longest_duration() && (final(registry)@, approval_result(r))
            == #[trigger] resolve_answer(old(registry)@, id, body, now);
    refused_decision_changes_nothing(old(registry)@, id, body, now);
    if r is Ok && body->Ok_0.approve_for is Some {
        let approval = old(registry)@.entries[id].approval;
        let own = (approval.session_id, approval.tool_input.text_member("command"@)->0);
        assert((now + body->Ok_0.approve_for->0.nanos()) as u128 == final(registry)@.grants[own]);
    }
}

/// The operator's word is what becomes of an approval: one that waits is approved with
/// the message, denied with the message as the reason, or cancelled, as the request
/// says, and nothing else of it changes. It is answered as it then is. One that is
/// decided already is answered as it is.
pub proof fn decision_is_taken_as_told(
    registry: &mut ApprovalRegistry,
    id: u128,
    request: ApprovalResolveRequest,
    now: u128,
    r: Result<Approval, AppError>,
)
    requires
        old(registry).wf(),
        call_ensures(handle_approval_resolve_at, (registry, id, Ok(request), now), r)
            || call_ensures(handle_approval_resolve, (registry, id, Ok(request)), r),
    ensures
        ({
            let before = old(registry)@.entries[id].approval;
            let after = final(registry)@.entries[id].approval;
            &&& r is Ok ==> {
                &&& old(registry)@.entries.contains_key(id)
                &&& final(registry)@.entries.contains_key(id)
                &&& r->Ok_0@ == after
                &&& after.id == before.id
                &&& after.request_id == before.request_id
                &&& after.session_id == before.session_id
                &&& after.session_display_name == before.session_display_name
                &&& after.project == before.project
                &&& after.tool == before.tool
                &&& after.tool_input == before.tool_input
                &&& after.provider == before.provider
                &&& after.request_type == before.request_type
                &&& after.context == before.context
                &&& after.created_at == before.created_at
                &&& final(registry)@.entries[id].last_polled_at
                    == old(registry)@.entries[id].last_polled_at
                &&& !(before.status is Pending) ==> after.status == before.status
                &&& before.status is Pending && request.decision == ApprovalDecision::Approve
                    ==> after.status is Approved && after.status->message
                    == crate::text::opt_view(request.message)
                &&& before.status is Pending && request.decision == ApprovalDecision::Deny
                    ==> after.status is Denied && (request.message is Some
                    ==> after.status->reason == request.message->0@) && (request.message is None
                    ==> after.status->reason.len() == 0)
                &&& before.status is Pending && request.decision == ApprovalDecision::Cancel
                    ==> after.status is Cancelled
            }
            &&& old(registry)@.entries.contains_key(id) && request.approve_for is None ==> r is Ok
        }),
{
    if call_ensures(handle_approval_resolve, (registry, id, Ok(request)), r) {
        let at = choose|at: u128|
            at <= crate::clock::longest_duration() && (final(registry)@, approval_result(r))
                == #[trigger] resolve_answer(old(registry)@, id, Ok(request), at);
        assert((final(registry)@, approval_result(r)) == resolve_answer(
            old(registry)@,
            id,
            Ok(request),
            at,
        ));
    }
    (*old(registry)).view_is_wf();
}

/// A decision on one approval leaves every other approval, and which requests and
/// sessions the approvals belong to.
pub proof fn decision_leaves_the_rest(
    registry: &mut ApprovalRegistry,
    id: u128,
    body: Result<ApprovalResolveRequest, String>,
    now: u128,
    r: Result<Approval, AppError>,
    other: u128,
)
    requires
        old(registry).wf(),
        call_ensures(handle_approval_resolve_at, (registry, id, body, now), r) || call_ensures(
            handle_approval_resolve,
            (registry, id, body),
            r,
        ),
        other != id,
    ensures
        final(registry)@.entries.contains_key(other) == old(registry)@.entries.contains_key(other),
        final(registry)@.entries[other] == old(registry)@.entries[other],
        final(registry)@.by_request == old(registry)@.by_request,
        final(registry)@.by_session == old(registry)@.by_session,
        r is Err ==> final(registry)@ == old(registry)@,
{
    let at = if call_ensures(handle_approval_resolve, (registry, id, body), r) {
        choose|at: u128|
            at <= crate::clock::longest_duration() && (final(registry)@, approval_result(r))
                == #[trigger] resolve_answer(old(registry)@, id, body, at)
    } else {
        now
    };
    refused_decision_changes_nothing(old(registry)@, id, body, at);
}

/// Each refusal of a decision has its ground, and says it: a request that cannot be
/// read, a duration without an approval, an approval that does not exist, and a
/// duration on an approval that is decided, is of another tool, or has no command.
/// Nothing else is refused.
pub proof fn refusal_says_its_ground(
    registry: &mut ApprovalRegistry,
    id: u128,
    body: Result<ApprovalResolveRequest, String>,
    now: u128,
    r: Result<Approval, AppError>,
)
    requires
        old(registry).wf(),
        call_ensures(handle_approval_resolve_at, (registry, id, body, now), r) || call_ensures(
            handle_approval_resolve,
            (registry, id, body),
            r,
        ),
    ensures
        body matches Err(fault) ==> r is Err && r->Err_0@ is BadRequest && r->Err_0@->BadRequest_0
            == fault@,
        body matches Ok(request) ==> {
            let known = old(registry)@.entries.contains_key(id);
            let approval = old(registry)@.entries[id].approval;
            let timed = request.approve_for is Some;
            let approves = request.decision == ApprovalDecision::Approve;
            let has_command = approval.tool_input.text_member("command"@) is Some;
            &&& r is Ok <==> known && (timed ==> approves && approval.status is Pending
                && approval.tool is Bash && has_command)
            &&& timed && !approves ==> r is Err && r->Err_0@ is BadRequest
                && r->Err_0@->BadRequest_0 == "approve_for is valid only with an approve decision"@
            &&& !(timed && !approves) && !known ==> r is Err && r->Err_0@ is ApprovalNotFound
                && r->Err_0@->ApprovalNotFound_0 == crate::ids::uuid_text(id)
            &&& timed && approves && known && !(approval.status is Pending) ==> r is Err
                && r->Err_0@ is BadRequest && r->Err_0@->BadRequest_0
                == "temporary grants require a pending approval decision"@
            &&& timed && approves && known && approval.status is Pending && !(approval.tool is Bash)
                ==> r is Err && r->Err_0@ is BadRequest && r->Err_0@->BadRequest_0
                == "temporary grants are supported only for Bash approvals"@
            &&& timed && approves && known && approval.status is Pending && approval.tool is Bash
                && !has_command ==> r is Err && r->Err_0@ is BadRequest && r->Err_0@->BadRequest_0
                == "Bash approval does not contain a string command"@
        },
{
    let at = if call_ensures(handle_approval_resolve, (registry, id, body), r) {
        choose|at: u128|
            at <= crate::clock::longest_duration() && (final(registry)@, approval_result(r))
                == #[trigger] resolve_answer(old(registry)@, id, body, at)
    } else {
        now
    };
    assert((final(registry)@, approval_result(r)) == resolve_answer(
        old(registry)@,
        id,
        body,
        at,
    ));
}

/// An approval is given as the registry has it, and that there is none is said with the
/// identifier that was asked for.
pub proof fn approval_is_given_as_kept(
    registry: &ApprovalRegistry,
    id: u128,
    r: Result<Approval, AppError>,
)
    requires
        registry.wf(),
        call_ensures(handle_get_approval, (registry, id), r),
    ensures
        registry@.entries.contains_key(id) ==> r is Ok && r->Ok_0@ == registry@.entries[id].approval
            && r->Ok_0.id == id,
        !registry@.entries.contains_key(id) ==> r is Err && r->Err_0@ is ApprovalNotFound
            && r->Err_0@->ApprovalNotFound_0 == crate::ids::uuid_text(id),
{
    (*registry).view_is_wf();
}

/// All that is listed waits, all that waits is listed, and nothing is listed twice; of
/// two, the one that was created first stands first.
pub proof fn all_that_waits_is_listed(registry: &ApprovalRegistry, r: Vec<Approval>, id: u128)
    requires
        registry.wf(),
        call_ensures(handle_list_pending, (registry,), r),
    ensures
        registry@.entries.contains_key(id) && registry@.entries[id].approval.status is Pending
            ==> exists|i: int|
            0 <= i < r@.len() && (#[trigger] r@[i])@ == registry@.entries[id].approval,
        forall|i: int|
            0 <= i < r@.len() ==> (#[trigger] r@[i])@.status is Pending
                && registry@.entries.contains_key(r@[i]@.id)
                && registry@.entries[r@[i]@.id].approval == r@[i]@,
        forall|i: int, j: int|
            0 <= i < j < r@.len() ==> (#[trigger] r@[i])@.id != (#[trigger] r@[j])@.id
                && !r@[j]@.created_at.earlier(r@[i]@.created_at),
{
    (*registry).view_is_wf();
    let listed = crate::protocol::approval::approval_views(r@);
    crate::server::laws::snapshot_lists_approvals(registry@, listed);
    assert forall|i: int| 0 <= i < r@.len() implies (#[trigger] r@[i])@.status is Pending
        && registry@.entries.contains_key(r@[i]@.id) && registry@.entries[r@[i]@.id].approval
        == r@[i]@ by {
        assert(listed[i] == r@[i]@);
    }
    assert forall|i: int, j: int| 0 <= i < j < r@.len() implies (#[trigger] r@[i])@.id != (
    #[trigger] r@[j])@.id && !r@[j]@.created_at.earlier(r@[i]@.created_at) by {
        assert(listed[i] == r@[i]@ && listed[j] == r@[j]@);
    }
    if registry@.entries.contains_key(id) && registry@.entries[id].approval.status is Pending {
        let approval_of = |id: u128| registry@.entries[id].approval;
        assert(registry@.pending_ids().contains(id));
        assert(registry@.pending_ids().map(approval_of).contains(approval_of(id)));
        assert(listed.to_set().contains(approval_of(id)));
        let i = choose|i: int| 0 <= i < listed.len() && listed[i] == approval_of(id);
        assert(r@[i]@ == registry@.entries[id].approval);
    }
}

/// A wait for an approval that is decided is answered at once, with the decision; one
/// for an approval that is pending is not answered but watches it; one for no approval
/// is told so. The approval stays as it is.
pub proof fn wait_is_answered_once_decided(
    registry: &mut ApprovalRegistry,
    id: u128,
    now: u128,
    r: Result<WaitStart, AppError>,
    other: u128,
)
    requires
        old(registry).wf(),
        call_ensures(begin_approval_wait_at, (registry, id, now), r) || call_ensures(
            begin_approval_wait,
            (registry, id),
            r,
        ),
    ensures
        ({
            let known = old(registry)@.entries.contains_key(id);
            let approval = old(registry)@.entries[id].approval;
            &&& !known ==> r is Err && r->Err_0@ is ApprovalNotFound
                && r->Err_0@->ApprovalNotFound_0 == crate::ids::uuid_text(id)
            &&& known && approval.status is Pending ==> r is Ok && r->Ok_0 is Watch
            &&& known && !(approval.status is Pending) ==> r is Ok && r->Ok_0 is Answer
                && r->Ok_0->Answer_0 == 200 && r->Ok_0->Answer_1.status@ == approval.status
            &&& final(registry)@.entries.contains_key(other)
                == old(registry)@.entries.contains_key(other)
            &&& known || other != id ==> final(registry)@.entries[other].approval
                == old(registry)@.entries[other].approval
            &&& other != id ==> final(registry)@.entries[other].last_polled_at
                == old(registry)@.entries[other].last_polled_at
            &&& final(registry)@.grants == old(registry)@.grants
        }),
{
}

/// A wait at `now` is noted as a poll at `now`.
pub proof fn wait_is_noted(
    registry: &mut ApprovalRegistry,
    id: u128,
    now: u128,
    r: Result<WaitStart, AppError>,
)
    requires
        old(registry).wf(),
        call_ensures(begin_approval_wait_at, (registry, id, now), r),
        old(registry)@.entries.contains_key(id),
    ensures
        final(registry)@.entries[id].last_polled_at == Some(now),
{
}

/// A wait that has seen no decision ends as one that goes on, and is told nothing but
/// that it does; one that has seen a decision is told that decision.
pub proof fn wait_ends_with_what_was_seen(
    changed: bool,
    status: ApprovalStatus,
    r: (u16, ApprovalWaitResponse),
)
    requires
        call_ensures(finish_approval_wait, (changed, status), r),
    ensures
        r.0 == 200 || r.0 == 202,
        r.0 == 200 <==> changed && !(status@ is Pending),
        r.0 == 200 ==> r.1.status@ == status@,
        r.0 == 202 ==> r.1.status@ is Pending,
{
}

/// A client is told the approval mode that its session has, and that there is no such
/// session otherwise.
pub proof fn mode_is_told_as_kept(
    id: &str,
    config: Option<SessionNotifyConfig>,
    mode: Result<ApprovalModeResponse, AppError>,
    updated: Result<SessionNotifyConfig, AppError>,
)
    requires
        call_ensures(handle_get_approval_mode, (id, config), mode),
        call_ensures(handle_update_session, (id, config), updated),
    ensures
        mode is Ok == config is Some,
        updated is Ok == config is Some,
        config matches Some(kept) ==> mode->Ok_0.approval_mode == kept.approval_mode
            && updated->Ok_0.approval_mode == kept.approval_mode,
        config is None ==> {
            &&& mode->Err_0@ is SessionNotFound
            &&& mode->Err_0@->SessionNotFound_0 == id@
            &&& updated->Err_0@ is SessionNotFound
            &&& updated->Err_0@->SessionNotFound_0 == id@
        },
{
}

/// A question is given as it is kept, and that there is none is said with the
/// identifier that was asked for.
pub proof fn question_is_given_as_kept(
    id: u128,
    found: Option<PendingQuestion>,
    r: Result<PendingQuestion, AppError>,
)
    requires
        call_ensures(handle_get_question, (id, found), r),
    ensures
        found matches Some(question) ==> r is Ok && r->Ok_0 == question,
        found is None ==> r is Err && r->Err_0@ is QuestionNotFound && r->Err_0@->QuestionNotFound_0
            == crate::ids::uuid_text(id),
{
}

/// A wait for a question that is pending goes on; for any other it is answered with
/// what became of the question, at once or when it ends.
pub proof fn question_wait_is_answered_once_settled(
    id: u128,
    found: Option<QuestionStatus>,
    begun: Result<Option<(u16, QuestionWaitResponse)>, AppError>,
    changed: bool,
    status: QuestionStatus,
    ended: (u16, QuestionWaitResponse),
)
    requires
        call_ensures(begin_question_wait, (id, found), begun),
        call_ensures(finish_question_wait, (changed, status), ended),
    ensures
        found is None ==> begun is Err && begun->Err_0@ is QuestionNotFound
            && begun->Err_0@->QuestionNotFound_0 == crate::ids::uuid_text(id),
        found matches Some(known) ==> begun is Ok && (begun->Ok_0 is None <==> known@ is Pending)
            && (!(known@ is Pending) ==> (begun->Ok_0->0).0 == 200 && (begun->Ok_0->0).1.status
            == known),
        ended.0 == 200 || ended.0 == 202,
        ended.0 == 200 <==> changed && !(status@ is Pending),
        ended.0 == 200 ==> ended.1.status == status,
        ended.0 == 202 ==> ended.1.status@ is Pending,
{
}

/// A question becomes what the operator says: answered with all answers given, in
/// their order; rejected with the reason given, if any; or cancelled. It is pending
/// after none of these.
pub proof fn question_becomes_what_the_operator_says(
    request: QuestionResolveRequest,
    r: QuestionStatus,
)
    requires
        call_ensures(question_status, (request,), r),
    ensures
        request.decision == QuestionDecision::Answer <==> r@ is Answered,
        request.decision == QuestionDecision::Reject <==> r@ is Rejected,
        request.decision == QuestionDecision::Cancel <==> r@ is Cancelled,
        !(r@ is Pending),
        request.decision == QuestionDecision::Answer && request.answers is None
            ==> r@->answers.len() == 0,
        request.decision == QuestionDecision::Answer ==> (request.answers matches Some(answers)
            ==> r@->answers.len() == answers@.len() && forall|i: int, j: int|
            0 <= i < answers@.len() && 0 <= j < answers@[i]@.len() ==> r@->answers[i].len()
                == answers@[i]@.len() && #[trigger] r@->answers[i][j] == answers@[i]@[j]@),
        request.decision == QuestionDecision::Reject ==> (request.reason is Some
            <==> r@->Rejected_reason is Some) && (request.reason matches Some(reason)
            ==> r@->Rejected_reason->0 == reason@),
{
}

/// Whoever waits for a pending approval listens to that approval, and finds it pending.
pub proof fn wait_listens_to_its_approval(
    registry: &mut ApprovalRegistry,
    id: u128,
    now: u128,
    r: Result<WaitStart, AppError>,
)
    requires
        old(registry).wf(),
        call_ensures(begin_approval_wait_at, (registry, id, now), r) || call_ensures(
            begin_approval_wait,
            (registry, id),
            r,
        ),
    ensures
        r matches Ok(WaitStart::Watch(rx)) ==> {
            &&& crate::server::approvals::channel_heard(rx) == old(registry).channels()[id]
            &&& crate::server::approvals::first_seen(rx).len() == 1
            &&& crate::server::approvals::first_seen(rx)[0] is Pending
        },
{
}

} // verus!
