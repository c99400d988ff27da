//! Sessions of an agent.

use vstd::prelude::*;

use crate::text::same_text;

verus! {

/// The name that a provider gives a session.
#[derive(Debug, PartialEq, Eq)]
pub struct SessionId(String);

impl View for SessionId {
    type V = Seq<char>;

    closed spec fn view(&self) -> Seq<char> {
        self.0@
    }
}

impl Clone for SessionId {
    fn clone(&self) -> (r: Self)
        ensures
            r@ == self@,
    {
        SessionId(self.0.clone())
    }
}

impl SessionId {
    /// The session with the name `name`.
    pub fn new(name: &str) -> (r: Self)
        ensures
            r@ == name@,
    {
        SessionId(name.to_string())
    }

    /// The session's name.
    pub fn as_str(&self) -> (r: &str)
        ensures
            r@ == self@,
    {
        self.0.as_str()
    }

    /// Whether two sessions are the same.
    pub fn same(&self, other: &SessionId) -> (r: bool)
        ensures
            r == (self@ == other@),
    {
        same_text(self.as_str(), other.as_str())
    }
}

/// What a client last reported of a session.
#[derive(Clone, Copy, Debug, PartialEq, Eq, Structural)]
pub enum SessionStatus {
    Active,
    Idle,
    Waiting,
    Ended,
}

/// What a session is doing, as far as the server knows.
#[derive(Debug, PartialEq, Eq)]
pub enum EffectiveSessionStatus {
    Active,
    Idle,
    Waiting { reason: Option<String> },
    Ended,
}

/// What an `EffectiveSessionStatus` says.
pub enum EffectiveSessionStatusView {
    Active,
    Idle,
    Waiting { reason: Option<Seq<char>> },
    Ended,
}

impl View for EffectiveSessionStatus {
    type V = EffectiveSessionStatusView;

    open spec fn view(&self) -> EffectiveSessionStatusView {
        match self {
            EffectiveSessionStatus::Active => EffectiveSessionStatusView::Active,
            EffectiveSessionStatus::Idle => EffectiveSessionStatusView::Idle,
            EffectiveSessionStatus::Waiting { reason } => EffectiveSessionStatusView::Waiting {
                reason: reason.deep_view(),
            },
            EffectiveSessionStatus::Ended => EffectiveSessionStatusView::Ended,
        }
    }
}

/// The program that a session runs in.
#[derive(Clone, Copy, Debug, PartialEq, Eq, Structural)]
pub enum Provider {
    Claude,
    Cursor,
    OpenCode,
    Unknown,
}

/// Who decides on the tool calls of a session.
#[derive(Clone, Copy, Debug, PartialEq, Eq, Structural)]
pub enum SessionApprovalMode {
    /// The operator, through the server.
    Remote,
    /// Whoever sits at the terminal.
    Terminal,
}

/// How a session is treated.
#[derive(Clone, Copy, Debug, PartialEq, Eq, Structural)]
pub struct SessionNotifyConfig {
    pub approval_mode: SessionApprovalMode,
}

/// What a client is told of how a session is approved.
#[derive(Clone, Copy, Debug, PartialEq, Eq, Structural)]
pub struct ApprovalModeResponse {
    pub approval_mode: SessionApprovalMode,
}

/// A session as the server keeps it.
#[derive(Debug, PartialEq, Eq)]
pub struct StoredSession {
    pub session_id: SessionId,
    pub project: String,
    pub config: SessionNotifyConfig,
    pub editor_type: Provider,
    pub stored_status: SessionStatus,
    pub waiting_reason: Option<String>,
    pub display_name: Option<String>,
}

/// A session as it is shown.
#[derive(Debug, PartialEq, Eq)]
pub struct SessionView {
    pub session_id: SessionId,
    pub project: String,
    pub config: SessionNotifyConfig,
    pub editor_type: Provider,
    pub status: EffectiveSessionStatus,
    pub display_name: Option<String>,
}

/// A session keeps its name, and is the same as another exactly where their names are.
pub proof fn session_is_told_by_its_name(
    name: &str,
    other: &str,
    one: SessionId,
    two: SessionId,
    told: &str,
    same: bool,
)
    requires
        call_ensures(SessionId::new, (name,), one),
        call_ensures(SessionId::new, (other,), two),
        call_ensures(SessionId::as_str, (&one,), told),
        call_ensures(SessionId::same, (&one, &two), same),
    ensures
        told@ == name@,
        same <==> name@ == other@,
{
}

} // verus!
