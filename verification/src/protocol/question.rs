//! Questions that an agent puts to the operator.

use vstd::prelude::*;

use crate::protocol::session::SessionId;

verus! {

/// One question with the answers to choose from.
#[derive(Debug, PartialEq, Eq)]
pub struct QuestionInfo {
    pub question: String,
    pub header: String,
    pub options: Vec<QuestionOption>,
    pub multiple: Option<bool>,
    pub custom: Option<bool>,
}

/// One answer to choose from.
#[derive(Debug, PartialEq, Eq)]
pub struct QuestionOption {
    pub label: String,
    pub description: String,
}

/// What has become of a question.
#[derive(Debug, PartialEq, Eq)]
pub enum QuestionStatus {
    Pending,
    Answered { answers: Vec<Vec<String>> },
    Rejected { reason: Option<String> },
    Cancelled,
}

/// What a `QuestionStatus` says.
pub enum QuestionStatusView {
    Pending,
    Answered { answers: Seq<Seq<Seq<char>>> },
    Rejected { reason: Option<Seq<char>> },
    Cancelled,
}

impl View for QuestionStatus {
    type V = QuestionStatusView;

    open spec fn view(&self) -> QuestionStatusView {
        match self {
            QuestionStatus::Pending => QuestionStatusView::Pending,
            QuestionStatus::Answered { answers } => QuestionStatusView::Answered {
                answers: answers.deep_view(),
            },
            QuestionStatus::Rejected { reason } => QuestionStatusView::Rejected {
                reason: reason.deep_view(),
            },
            QuestionStatus::Cancelled => QuestionStatusView::Cancelled,
        }
    }
}

impl QuestionStatus {
    /// Whether the question needs no answer any more.
    pub fn is_resolved(&self) -> (r: bool)
        ensures
            r == !(self@ is Pending),
    {
        match self {
            QuestionStatus::Pending => false,
            _ => true,
        }
    }
}

/// A question that waits for an answer, as the server keeps it.
#[derive(Debug, PartialEq, Eq)]
pub struct PendingQuestion {
    pub id: u128,
    pub request_id: String,
    pub session_id: SessionId,
    pub session_display_name: String,
    pub project: String,
    pub question_request_id: String,
    pub questions: Vec<QuestionInfo>,
    pub provider: String,
    pub status: QuestionStatus,
}

/// What the operator does with a question.
#[derive(Clone, Copy, Debug, PartialEq, Eq, Structural)]
pub enum QuestionDecision {
    Answer,
    Reject,
    Cancel,
}

/// The operator's decision on a question.
#[derive(Debug, PartialEq, Eq)]
pub struct QuestionResolveRequest {
    pub decision: QuestionDecision,
    pub answers: Option<Vec<Vec<String>>>,
    pub reason: Option<String>,
}

/// What a poll for a question's answer is told.
#[derive(Debug, PartialEq, Eq)]
pub struct QuestionWaitResponse {
    pub status: QuestionStatus,
}

/// A question needs no answer any more in every status but the pending one.
pub proof fn only_pending_needs_an_answer(status: &QuestionStatus, r: bool)
    requires
        call_ensures(QuestionStatus::is_resolved, (status,), r),
    ensures
        r <==> status is Answered || status is Rejected || status is Cancelled,
        !r <==> status is Pending,
{
}

} // verus!
