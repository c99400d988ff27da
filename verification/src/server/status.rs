//! What a session is doing, as far as the server knows.

use vstd::prelude::*;

use crate::protocol::approval::{Approval, ApprovalView};
use crate::protocol::question::PendingQuestion;
use crate::protocol::session::{
    EffectiveSessionStatus, EffectiveSessionStatusView, SessionStatus, SessionView, StoredSession,
};
use crate::server::approvals::ApprovalRegistry;
use crate::server::model::RegistryView;
use crate::text::{byte_len, chars_of, clone_opt, joined, joined3, opt_str, text_between};

verus! {

/// A text of more than 60 bytes cut after its sixtieth character, with dots.
pub open spec fn shortened(text: Seq<char>) -> Seq<char> {
    if crate::text::utf8_len(text) > 60 {
        (if text.len() > 60 {
            text.take(60)
        } else {
            text
        }) + "..."@
    } else {
        text
    }
}

/// Cuts a long text.
fn shorten(text: String) -> (r: String)
    ensures
        r@ == shortened(text@),
{
    if byte_len(text.as_str()) > 60 {
        let chars = chars_of(text.as_str());
        let end: usize = if chars.len() > 60 {
            60
        } else {
            chars.len()
        };
        let start = text_between(&chars, 0, end);
        assert(start@ =~= if text@.len() > 60 {
            text@.take(60)
        } else {
            text@
        });
        joined(start.as_str(), "...")
    } else {
        text
    }
}

/// What a session waits for where an approval is pending.
pub open spec fn approval_reason(approval: ApprovalView) -> Seq<char> {
    "Pending approval: "@ + approval.tool.name() + " — "@ + shortened(
        crate::json::json_text(approval.tool_input),
    )
}

/// What a session waits for where a question is pending.
pub open spec fn question_reason(question: PendingQuestion) -> Seq<char> {
    "Plan question: "@ + if question.questions@.len() > 0 {
        question.questions@[0].header@
    } else {
        "question"@
    }
}

/// What a session is doing: ended sessions have ended; a pending approval comes
/// before a pending question, and both before what the client last reported.
pub open spec fn effective_status(
    stored: SessionStatus,
    waiting_reason: Option<Seq<char>>,
    pending_approval: Option<ApprovalView>,
    pending_question: Option<PendingQuestion>,
) -> EffectiveSessionStatusView {
    if stored == SessionStatus::Ended {
        EffectiveSessionStatusView::Ended
    } else if pending_approval is Some {
        EffectiveSessionStatusView::Waiting { reason: Some(approval_reason(pending_approval->0)) }
    } else if pending_question is Some {
        EffectiveSessionStatusView::Waiting { reason: Some(question_reason(pending_question->0)) }
    } else {
        match stored {
            SessionStatus::Waiting => EffectiveSessionStatusView::Waiting {
                reason: waiting_reason,
            },
            SessionStatus::Idle => EffectiveSessionStatusView::Idle,
            _ => EffectiveSessionStatusView::Active,
        }
    }
}

/// The view of an approval that may be absent.
pub open spec fn opt_approval(approval: Option<&Approval>) -> Option<ApprovalView> {
    match approval {
        Some(approval) => Some(approval@),
        None => None,
    }
}

/// A question that may be absent.
pub open spec fn opt_question(question: Option<&PendingQuestion>) -> Option<PendingQuestion> {
    match question {
        Some(question) => Some(*question),
        None => None,
    }
}

/// What a session is doing.
pub fn resolve_effective_status(
    stored: SessionStatus,
    waiting_reason: Option<&str>,
    pending_approval: Option<&Approval>,
    pending_question: Option<&PendingQuestion>,
) -> (r: EffectiveSessionStatus)
    ensures
        r@ == effective_status(
            stored,
            crate::json::opt_text(waiting_reason),
            opt_approval(pending_approval),
            opt_question(pending_question),
        ),
{
    if stored == SessionStatus::Ended {
        return EffectiveSessionStatus::Ended;
    }
    if let Some(approval) = pending_approval {
        let input = shorten(approval.tool_input.to_text());
        let start = joined3("Pending approval: ", approval.tool.as_str(), " — ");
        return EffectiveSessionStatus::Waiting {
            reason: Some(joined(start.as_str(), input.as_str())),
        };
    }
    if let Some(question) = pending_question {
        let header = if question.questions.len() > 0 {
            question.questions[0].header.as_str()
        } else {
            "question"
        };
        return EffectiveSessionStatus::Waiting {
            reason: Some(joined("Plan question: ", header)),
        };
    }
    match stored {
        SessionStatus::Waiting => EffectiveSessionStatus::Waiting {
            reason: match waiting_reason {
                Some(reason) => Some(reason.to_string()),
                None => None,
            },
        },
        SessionStatus::Idle => EffectiveSessionStatus::Idle,
        _ => EffectiveSessionStatus::Active,
    }
}

/// Whether `view` shows `stored`, with what it is doing.
pub open spec fn shows(
    view: SessionView,
    stored: StoredSession,
    pending_approval: Option<ApprovalView>,
    pending_question: Option<PendingQuestion>,
) -> bool {
    &&& view.session_id@ == stored.session_id@
    &&& view.project@ == stored.project@
    &&& view.config == stored.config
    &&& view.editor_type == stored.editor_type
    &&& view.display_name == stored.display_name
    &&& view.status@ == effective_status(
        stored.stored_status,
        crate::text::opt_view(stored.waiting_reason),
        pending_approval,
        pending_question,
    )
}

/// Whether `view` shows `stored` with the approvals of a registry.
pub open spec fn shown(
    registry: RegistryView,
    view: SessionView,
    stored: StoredSession,
    pending_question: Option<PendingQuestion>,
) -> bool {
    exists|pending: Option<ApprovalView>|
        #[trigger] registry.is_first_pending(stored.session_id@, pending) && shows(
            view,
            stored,
            pending,
            pending_question,
        )
}

/// The sessions as they are shown. `questions` holds for each session its oldest
/// pending question, if it has one.
pub fn build_session_views(
    sessions: &Vec<StoredSession>,
    approvals: &ApprovalRegistry,
    questions: &Vec<Option<PendingQuestion>>,
) -> (r: Vec<SessionView>)
    requires
        approvals.wf(),
        questions@.len() == sessions@.len(),
    ensures
        r@.len() == sessions@.len(),
        forall|i: int|
            0 <= i < sessions@.len() ==> shown(
                approvals@,
                #[trigger] r@[i],
                sessions@[i],
                questions@[i],
            ),
{
    let mut views: Vec<SessionView> = Vec::new();
    let mut i: usize = 0;
    while i < sessions.len()
        invariant
            i <= sessions@.len(),
            approvals.wf(),
            questions@.len() == sessions@.len(),
            views@.len() == i,
            forall|j: int|
                0 <= j < i ==> shown(
                    approvals@,
                    #[trigger] views@[j],
                    sessions@[j],
                    questions@[j],
                ),
        decreases sessions@.len() - i,
    {
        let stored = &sessions[i];
        let pending = approvals.first_pending_for_session(&stored.session_id);
        let pending_approval = match &pending {
            Some(approval) => Some(approval),
            None => None,
        };
        let pending_question = match &questions[i] {
            Some(question) => Some(question),
            None => None,
        };
        let status = resolve_effective_status(
            stored.stored_status,
            opt_str(&stored.waiting_reason),
            pending_approval,
            pending_question,
        );
        let view = SessionView {
            session_id: stored.session_id.clone(),
            project: stored.project.clone(),
            config: stored.config,
            editor_type: stored.editor_type,
            status,
            display_name: clone_opt(&stored.display_name),
        };
        assert(approvals@.is_first_pending(
            sessions@[i as int].session_id@,
            opt_approval(pending_approval),
        ));
        assert(shows(
            view,
            sessions@[i as int],
            opt_approval(pending_approval),
            questions@[i as int],
        ));
        views.push(view);
        i += 1;
    }
    views
}

/// A session that has ended has ended, whatever is pending.
pub proof fn ended_sessions_stay_ended(
    waiting_reason: Option<Seq<char>>,
    pending_approval: Option<ApprovalView>,
    pending_question: Option<PendingQuestion>,
)
    ensures
        effective_status(SessionStatus::Ended, waiting_reason, pending_approval, pending_question)
            is Ended,
{
}

/// A session with something pending waits, whatever its client last reported.
pub proof fn pending_work_makes_a_session_wait(
    stored: SessionStatus,
    waiting_reason: Option<Seq<char>>,
    pending_approval: Option<ApprovalView>,
    pending_question: Option<PendingQuestion>,
)
    requires
        stored != SessionStatus::Ended,
        pending_approval is Some || pending_question is Some,
    ensures
        effective_status(stored, waiting_reason, pending_approval, pending_question) is Waiting,
{
}

/// A session with a pending approval waits for it, whatever its client last reported
/// and whatever question is pending too: the reason names the tool and shows what it
/// is called with, a long input by its start.
pub proof fn pending_approval_is_what_a_session_waits_for(
    stored: SessionStatus,
    waiting_reason: Option<Seq<char>>,
    approval: ApprovalView,
    pending_question: Option<PendingQuestion>,
)
    requires
        stored != SessionStatus::Ended,
    ensures
        ({
            let status = effective_status(
                stored,
                waiting_reason,
                Some(approval),
                pending_question,
            );
            let start = "Pending approval: "@ + approval.tool.name() + " — "@;
            let input = crate::json::json_text(approval.tool_input);
            &&& status matches EffectiveSessionStatusView::Waiting { reason: Some(reason) }
                && crate::text::starts_with(reason, start) && {
                let shown = reason.skip(start.len() as int);
                &&& crate::text::utf8_len(input) <= 60 ==> shown == input
                &&& crate::text::utf8_len(input) > 60 && input.len() > 60 ==> shown == input.take(
                    60,
                ) + "..."@
                &&& crate::text::utf8_len(input) > 60 && input.len() <= 60 ==> shown == input
                    + "..."@
            }
        }),
{
    let start = "Pending approval: "@ + approval.tool.name() + " — "@;
    let shown = shortened(crate::json::json_text(approval.tool_input));
    let reason = start + shown;
    assert(reason.take(start.len() as int) =~= start);
    assert(reason.skip(start.len() as int) =~= shown);
}

/// A session with a pending question and no pending approval waits for the question,
/// whatever its client last reported: the reason names the first of its parts.
pub proof fn pending_question_is_what_a_session_waits_for(
    stored: SessionStatus,
    waiting_reason: Option<Seq<char>>,
    question: PendingQuestion,
)
    requires
        stored != SessionStatus::Ended,
    ensures
        ({
            let status = effective_status(stored, waiting_reason, None, Some(question));
            &&& status matches EffectiveSessionStatusView::Waiting { reason: Some(reason) } && {
                &&& question.questions@.len() > 0 ==> reason == "Plan question: "@
                    + question.questions@[0].header@
                &&& question.questions@.len() == 0 ==> reason == "Plan question: "@ + "question"@
            }
        }),
{
}

/// A session with nothing pending is doing what its client last reported, and waits
/// for what the client said; nothing but a session that its client ended has ended.
pub proof fn quiet_session_is_as_reported(
    stored: SessionStatus,
    waiting_reason: Option<Seq<char>>,
    pending_approval: Option<ApprovalView>,
    pending_question: Option<PendingQuestion>,
)
    ensures
        effective_status(stored, waiting_reason, pending_approval, pending_question) is Ended
            <==> stored == SessionStatus::Ended,
        ({
            let quiet = effective_status(stored, waiting_reason, None, None);
            &&& quiet is Active <==> stored == SessionStatus::Active
            &&& quiet is Idle <==> stored == SessionStatus::Idle
            &&& quiet is Waiting <==> stored == SessionStatus::Waiting
            &&& quiet matches EffectiveSessionStatusView::Waiting { reason } ==> reason
                == waiting_reason
        }),
{
}

/// A session that is shown is the stored one, and waits for its oldest pending
/// approval where it has one and has not ended.
pub proof fn shown_session_is_the_stored_one(
    registry: RegistryView,
    view: SessionView,
    stored: StoredSession,
    pending_question: Option<PendingQuestion>,
)
    requires
        shown(registry, view, stored, pending_question),
    ensures
        view.session_id@ == stored.session_id@,
        view.project@ == stored.project@,
        view.config == stored.config,
        view.editor_type == stored.editor_type,
        view.display_name == stored.display_name,
        view.status@ is Ended <==> stored.stored_status == SessionStatus::Ended,
        stored.stored_status != SessionStatus::Ended && (exists|id: u128| #[trigger]
            registry.is_candidate(stored.session_id@, id)) ==> exists|oldest: ApprovalView| {
            &&& #[trigger] registry.is_first_pending(stored.session_id@, Some(oldest))
            &&& view.status@ == effective_status(stored.stored_status, None, Some(oldest), None)
        },
{
    let pending = choose|pending: Option<ApprovalView>|
        #[trigger] registry.is_first_pending(stored.session_id@, pending) && shows(
            view,
            stored,
            pending,
            pending_question,
        );
    quiet_session_is_as_reported(
        stored.stored_status,
        crate::text::opt_view(stored.waiting_reason),
        pending,
        pending_question,
    );
    if stored.stored_status != SessionStatus::Ended && (exists|id: u128| #[trigger]
        registry.is_candidate(stored.session_id@, id)) {
        let id = choose|id: u128| #[trigger] registry.is_candidate(stored.session_id@, id);
        assert(pending is Some);
        assert(registry.is_first_pending(stored.session_id@, Some(pending->0)));
    }
}

/// What a session is doing, as it is worked out: ended where its client ended it;
/// otherwise waiting for the pending approval, whatever its client last reported and
/// whatever question is pending; or else for the pending question; and with nothing
/// pending, what its client last reported.
pub proof fn session_waits_for_what_is_pending(
    stored: SessionStatus,
    waiting_reason: Option<&str>,
    pending_approval: Option<&Approval>,
    pending_question: Option<&PendingQuestion>,
    r: EffectiveSessionStatus,
)
    requires
        call_ensures(
            resolve_effective_status,
            (stored, waiting_reason, pending_approval, pending_question),
            r,
        ),
    ensures
        stored == SessionStatus::Ended <==> r is Ended,
        stored != SessionStatus::Ended && pending_approval is Some ==> {
            let approval = pending_approval->0;
            let start = "Pending approval: "@ + approval.tool@.name() + " — "@;
            let input = crate::json::json_text(approval.tool_input@);
            let reason = r->reason->0@;
            &&& r is Waiting
            &&& r->reason is Some
            &&& reason.take(start.len() as int) == start
            &&& crate::text::utf8_len(input) <= 60 ==> reason.skip(start.len() as int) == input
            &&& crate::text::utf8_len(input) > 60 && input.len() > 60 ==> reason.skip(
                start.len() as int,
            ) == input.take(60) + "..."@
            &&& crate::text::utf8_len(input) > 60 && input.len() <= 60 ==> reason.skip(
                start.len() as int,
            ) == input + "..."@
        },
        stored != SessionStatus::Ended && pending_approval is None && pending_question is Some ==> {
            let questions = pending_question->0.questions@;
            &&& r is Waiting
            &&& r->reason is Some
            &&& questions.len() > 0 ==> r->reason->0@ == "Plan question: "@ + questions[0].header@
            &&& questions.len() == 0 ==> r->reason->0@ == "Plan question: "@ + "question"@
        },
        pending_approval is None && pending_question is None ==> {
            &&& r is Active <==> stored == SessionStatus::Active
            &&& r is Idle <==> stored == SessionStatus::Idle
            &&& r is Waiting <==> stored == SessionStatus::Waiting
            &&& r is Waiting ==> crate::text::opt_view(r->reason) == crate::json::opt_text(
                waiting_reason,
            )
        },
{
    quiet_session_is_as_reported(
        stored,
        crate::json::opt_text(waiting_reason),
        opt_approval(pending_approval),
        opt_question(pending_question),
    );
    if stored != SessionStatus::Ended {
        if let Some(approval) = pending_approval {
            pending_approval_is_what_a_session_waits_for(
                stored,
                crate::json::opt_text(waiting_reason),
                approval@,
                opt_question(pending_question),
            );
        } else if let Some(question) = pending_question {
            pending_question_is_what_a_session_waits_for(
                stored,
                crate::json::opt_text(waiting_reason),
                *question,
            );
        }
    }
}

/// Every session is shown, in its place, as the one that is stored; it has ended only
/// where its client ended it, and waits where it has not and an approval of its own or a
/// question is pending. The approvals of other sessions play no part.
pub proof fn sessions_are_shown_as_stored(
    sessions: &Vec<StoredSession>,
    approvals: &ApprovalRegistry,
    questions: &Vec<Option<PendingQuestion>>,
    r: Vec<SessionView>,
    i: int,
)
    requires
        approvals.wf(),
        questions@.len() == sessions@.len(),
        call_ensures(build_session_views, (sessions, approvals, questions), r),
        0 <= i < sessions@.len(),
    ensures
        r@.len() == sessions@.len(),
        ({
            let stored = sessions@[i];
            let view = r@[i];
            let asked = exists|id: u128| #[trigger]
                approvals@.entries.contains_key(id) && approvals@.entries[id].approval.status
                    is Pending && approvals@.entries[id].approval.session_id
                    == stored.session_id@;
            &&& view.session_id@ == stored.session_id@
            &&& view.project@ == stored.project@
            &&& view.config == stored.config
            &&& view.editor_type == stored.editor_type
            &&& view.display_name == stored.display_name
            &&& view.status@ is Ended <==> stored.stored_status == SessionStatus::Ended
            &&& stored.stored_status != SessionStatus::Ended ==> (view.status@ is Waiting <==> asked
                || questions@[i] is Some || stored.stored_status == SessionStatus::Waiting)
            &&& stored.stored_status != SessionStatus::Ended && !asked && questions@[i] is None
                ==> (view.status@ is Idle <==> stored.stored_status == SessionStatus::Idle) && (
            view.status@ is Waiting ==> view.status@->reason == crate::text::opt_view(
                stored.waiting_reason,
            ))
            &&& stored.stored_status != SessionStatus::Ended && asked ==> exists|first: u128| {
                let approval = approvals@.entries[first].approval;
                &&& #[trigger] approvals@.entries.contains_key(first)
                &&& approval.status is Pending
                &&& approval.session_id == stored.session_id@
                &&& view.status@->reason == Some(approval_reason(approval))
                &&& forall|id: u128| #[trigger]
                    approvals@.entries.contains_key(id) && approvals@.entries[id].approval.status
                        is Pending && approvals@.entries[id].approval.session_id
                        == stored.session_id@
                        ==> !approvals@.entries[id].approval.created_at.earlier(
                        approval.created_at,
                    )
            }
        }),
{
    let registry = approvals@;
    let stored = sessions@[i];
    let view = r@[i];
    assert(shown(registry, r@[i], sessions@[i], questions@[i]));
    let pending = choose|pending: Option<ApprovalView>|
        #[trigger] registry.is_first_pending(stored.session_id@, pending) && shows(
            view,
            stored,
            pending,
            questions@[i],
        );
    quiet_session_is_as_reported(
        stored.stored_status,
        crate::text::opt_view(stored.waiting_reason),
        pending,
        questions@[i],
    );
    assert forall|id: u128| #[trigger]
        registry.entries.contains_key(id) && registry.entries[id].approval.status is Pending
            && registry.entries[id].approval.session_id
            == stored.session_id@ implies registry.is_candidate(stored.session_id@, id) by {}
    if let Some(first) = pending {
        assert(registry.entries.contains_key(first.id));
        assert(registry.is_candidate(stored.session_id@, first.id));
        assert forall|id: u128| #[trigger]
            registry.entries.contains_key(id) && registry.entries[id].approval.status is Pending
                && registry.entries[id].approval.session_id
                == stored.session_id@ implies !registry.entries[id].approval.created_at.earlier(
            first.created_at,
        ) by {
            assert(registry.is_candidate(stored.session_id@, id));
        }
    } else {
        assert forall|id: u128| #[trigger]
            registry.entries.contains_key(id) && registry.entries[id].approval.status is Pending
                implies registry.entries[id].approval.session_id != stored.session_id@ by {
            assert(!registry.is_candidate(stored.session_id@, id));
        }
    }
}

} // verus!
