//! Approvals of tool calls.

use vstd::prelude::*;

use crate::clock::UtcTime;
use crate::json::{Json, JsonView};
use crate::protocol::session::SessionId;
use crate::protocol::tool::{Tool, ToolView};
use crate::text::{clone_texts, same_text};

verus! {

/// Context attached to an approval request for the operator to look at.
#[derive(Debug, PartialEq, Eq)]
pub enum ExtraContext {
    /// A unified diff of what a tool that writes files would change.
    Diff { diff: String },
    /// A delegate's reason for escalating a shell command.
    DippyReason { dippy_reason: String },
}

/// What an `ExtraContext` says.
pub enum ExtraContextView {
    Diff { diff: Seq<char> },
    DippyReason { dippy_reason: Seq<char> },
}

impl View for ExtraContext {
    type V = ExtraContextView;

    open spec fn view(&self) -> ExtraContextView {
        match self {
            ExtraContext::Diff { diff } => ExtraContextView::Diff { diff: diff@ },
            ExtraContext::DippyReason { dippy_reason } => ExtraContextView::DippyReason {
                dippy_reason: dippy_reason@,
            },
        }
    }
}

impl ExtraContextView {
    /// The text to show.
    pub open spec fn text(self) -> Seq<char> {
        match self {
            ExtraContextView::Diff { diff } => diff,
            ExtraContextView::DippyReason { dippy_reason } => dippy_reason,
        }
    }
}

impl Clone for ExtraContext {
    fn clone(&self) -> (r: Self)
        ensures
            r@ == self@,
    {
        match self {
            ExtraContext::Diff { diff } => ExtraContext::Diff { diff: diff.clone() },
            ExtraContext::DippyReason { dippy_reason } => ExtraContext::DippyReason {
                dippy_reason: dippy_reason.clone(),
            },
        }
    }
}

impl ExtraContext {
    /// The text to show.
    pub fn to_text(&self) -> (r: String)
        ensures
            r@ == self@.text(),
    {
        match self {
            ExtraContext::Diff { diff } => diff.clone(),
            ExtraContext::DippyReason { dippy_reason } => dippy_reason.clone(),
        }
    }
}

/// What kind of approval is asked for.
#[derive(Clone, Copy, Debug, PartialEq, Eq, Structural)]
pub enum RequestType {
    ToolUse,
    /// A question of plan mode.
    PlanQuestion,
}

impl RequestType {
    /// How the kind is written.
    pub open spec fn name(self) -> Seq<char> {
        match self {
            RequestType::ToolUse => "tool_use"@,
            RequestType::PlanQuestion => "plan_question"@,
        }
    }

    /// How the kind is written.
    pub fn as_str(self) -> (r: &'static str)
        ensures
            r@ == self.name(),
    {
        match self {
            RequestType::ToolUse => "tool_use",
            RequestType::PlanQuestion => "plan_question",
        }
    }

    /// The kind that is written as `s`.
    pub fn from_name(s: &str) -> (r: Option<RequestType>)
        ensures
            match r {
                Some(kind) => s@ == kind.name(),
                None => s@ != RequestType::ToolUse.name() && s@
                    != RequestType::PlanQuestion.name(),
            },
    {
        if same_text(s, "tool_use") {
            Some(RequestType::ToolUse)
        } else if same_text(s, "plan_question") {
            Some(RequestType::PlanQuestion)
        } else {
            None
        }
    }
}

/// The hook event of a provider: one of the known ones, or any other by its name.
#[derive(Debug, PartialEq, Eq)]
pub enum HookEventName {
    Known(KnownHookEvent),
    Other(String),
}

/// The known hook events of all providers.
#[derive(Clone, Copy, Debug, PartialEq, Eq, Structural)]
pub enum KnownHookEvent {
    /// The terminal agent, before a tool runs.
    PreToolUse,
    /// The terminal agent, on a permission request.
    PermissionRequest,
    /// Cursor, before a tool runs.
    PreToolUseCamel,
    /// OpenCode, before a tool runs.
    ToolExecuteBefore,
    /// OpenCode, on a permission request.
    PermissionAsk,
}

impl KnownHookEvent {
    /// How the event is written.
    pub open spec fn name(self) -> Seq<char> {
        match self {
            KnownHookEvent::PreToolUse => "PreToolUse"@,
            KnownHookEvent::PermissionRequest => "PermissionRequest"@,
            KnownHookEvent::PreToolUseCamel => "preToolUse"@,
            KnownHookEvent::ToolExecuteBefore => "tool.execute.before"@,
            KnownHookEvent::PermissionAsk => "permission.ask"@,
        }
    }

    /// How the event is written.
    pub fn as_str(self) -> (r: &'static str)
        ensures
            r@ == self.name(),
    {
        match self {
            KnownHookEvent::PreToolUse => "PreToolUse",
            KnownHookEvent::PermissionRequest => "PermissionRequest",
            KnownHookEvent::PreToolUseCamel => "preToolUse",
            KnownHookEvent::ToolExecuteBefore => "tool.execute.before",
            KnownHookEvent::PermissionAsk => "permission.ask",
        }
    }

    /// The known event that is written as `s`.
    pub open spec fn named(s: Seq<char>) -> Option<KnownHookEvent> {
        if s == KnownHookEvent::PreToolUse.name() {
            Some(KnownHookEvent::PreToolUse)
        } else if s == KnownHookEvent::PermissionRequest.name() {
            Some(KnownHookEvent::PermissionRequest)
        } else if s == KnownHookEvent::PreToolUseCamel.name() {
            Some(KnownHookEvent::PreToolUseCamel)
        } else if s == KnownHookEvent::ToolExecuteBefore.name() {
            Some(KnownHookEvent::ToolExecuteBefore)
        } else if s == KnownHookEvent::PermissionAsk.name() {
            Some(KnownHookEvent::PermissionAsk)
        } else {
            None
        }
    }

    /// The known event that is written as `s`.
    pub fn from_name(s: &str) -> (r: Option<KnownHookEvent>)
        ensures
            r == KnownHookEvent::named(s@),
    {
        if same_text(s, "PreToolUse") {
            Some(KnownHookEvent::PreToolUse)
        } else if same_text(s, "PermissionRequest") {
            Some(KnownHookEvent::PermissionRequest)
        } else if same_text(s, "preToolUse") {
            Some(KnownHookEvent::PreToolUseCamel)
        } else if same_text(s, "tool.execute.before") {
            Some(KnownHookEvent::ToolExecuteBefore)
        } else if same_text(s, "permission.ask") {
            Some(KnownHookEvent::PermissionAsk)
        } else {
            None
        }
    }
}

/// What a `HookEventName` says.
pub enum HookEventNameView {
    Known(KnownHookEvent),
    Other(Seq<char>),
}

impl View for HookEventName {
    type V = HookEventNameView;

    open spec fn view(&self) -> HookEventNameView {
        match self {
            HookEventName::Known(event) => HookEventNameView::Known(*event),
            HookEventName::Other(name) => HookEventNameView::Other(name@),
        }
    }
}

impl HookEventNameView {
    /// How the event is written.
    pub open spec fn name(self) -> Seq<char> {
        match self {
            HookEventNameView::Known(event) => event.name(),
            HookEventNameView::Other(name) => name,
        }
    }
}

impl Clone for HookEventName {
    fn clone(&self) -> (r: Self)
        ensures
            r@ == self@,
    {
        match self {
            HookEventName::Known(event) => HookEventName::Known(*event),
            HookEventName::Other(name) => HookEventName::Other(name.clone()),
        }
    }
}

impl HookEventName {
    /// How the event is written.
    pub fn as_str(&self) -> (r: &str)
        ensures
            r@ == self@.name(),
    {
        match self {
            HookEventName::Known(event) => event.as_str(),
            HookEventName::Other(name) => name.as_str(),
        }
    }
}

impl From<String> for HookEventName {
    fn from(s: String) -> (r: Self) {
        match KnownHookEvent::from_name(s.as_str()) {
            Some(event) => HookEventName::Known(event),
            None => HookEventName::Other(s),
        }
    }
}

impl vstd::std_specs::convert::FromSpecImpl<String> for HookEventName {
    open spec fn obeys_from_spec() -> bool {
        true
    }

    open spec fn from_spec(s: String) -> Self {
        match KnownHookEvent::named(s@) {
            Some(event) => HookEventName::Known(event),
            None => HookEventName::Other(s),
        }
    }
}

/// An event is written as the name that it was made from.
pub proof fn event_name_is_kept(s: String)
    ensures
        <HookEventName as vstd::std_specs::convert::FromSpec<String>>::from_spec(s)@.name() == s@,
{
}

/// The name of a known event stands for that event.
pub proof fn known_event_is_recognised(event: KnownHookEvent)
    ensures
        KnownHookEvent::named(event.name()) == Some(event),
{
    reveal_strlit("PreToolUse");
    reveal_strlit("PermissionRequest");
    reveal_strlit("preToolUse");
    reveal_strlit("tool.execute.before");
    reveal_strlit("permission.ask");
    assert("PreToolUse"@.len() == 10 && "PreToolUse"@[0] == 'P');
    assert("PermissionRequest"@.len() == 17);
    assert("preToolUse"@.len() == 10 && "preToolUse"@[0] == 'p');
    assert("tool.execute.before"@.len() == 19);
    assert("permission.ask"@.len() == 14);
}

/// What the gateway knows of the place of an approval request.
#[derive(Debug, PartialEq, Eq)]
pub struct ApprovalContext {
    /// Workspace roots known to the provider.
    pub workspace_roots: Vec<String>,
    /// The hook event that led to the request.
    pub hook_event_name: HookEventName,
    /// What the operator may want to look at.
    pub extra: Option<ExtraContext>,
}

/// What an `ApprovalContext` says.
pub struct ApprovalContextView {
    pub workspace_roots: Seq<Seq<char>>,
    pub hook_event_name: HookEventNameView,
    pub extra: Option<ExtraContextView>,
}

impl View for ApprovalContext {
    type V = ApprovalContextView;

    open spec fn view(&self) -> ApprovalContextView {
        ApprovalContextView {
            workspace_roots: crate::text::texts(self.workspace_roots@),
            hook_event_name: self.hook_event_name@,
            extra: match self.extra {
                Some(extra) => Some(extra@),
                None => None,
            },
        }
    }
}

impl Clone for ApprovalContext {
    fn clone(&self) -> (r: Self)
        ensures
            r@ == self@,
    {
        ApprovalContext {
            workspace_roots: clone_texts(&self.workspace_roots),
            hook_event_name: self.hook_event_name.clone(),
            extra: match &self.extra {
                Some(extra) => Some(extra.clone()),
                None => None,
            },
        }
    }
}

/// What has become of an approval request.
#[derive(Debug, PartialEq, Eq)]
pub enum ApprovalStatus {
    Pending,
    Approved { message: Option<String> },
    Denied { reason: String },
    Cancelled,
}

/// What an `ApprovalStatus` says.
pub enum ApprovalStatusView {
    Pending,
    Approved { message: Option<Seq<char>> },
    Denied { reason: Seq<char> },
    Cancelled,
}

impl View for ApprovalStatus {
    type V = ApprovalStatusView;

    open spec fn view(&self) -> ApprovalStatusView {
        match self {
            ApprovalStatus::Pending => ApprovalStatusView::Pending,
            ApprovalStatus::Approved { message } => ApprovalStatusView::Approved {
                message: match message {
                    Some(text) => Some(text@),
                    None => None,
                },
            },
            ApprovalStatus::Denied { reason } => ApprovalStatusView::Denied { reason: reason@ },
            ApprovalStatus::Cancelled => ApprovalStatusView::Cancelled,
        }
    }
}

impl ApprovalStatusView {
    /// Whether the request has been decided on.
    pub open spec fn resolved(self) -> bool {
        !(self is Pending)
    }
}

impl Clone for ApprovalStatus {
    fn clone(&self) -> (r: Self)
        ensures
            r@ == self@,
    {
        match self {
            ApprovalStatus::Pending => ApprovalStatus::Pending,
            ApprovalStatus::Approved { message } => ApprovalStatus::Approved {
                message: match message {
                    Some(text) => Some(text.clone()),
                    None => None,
                },
            },
            ApprovalStatus::Denied { reason } => ApprovalStatus::Denied { reason: reason.clone() },
            ApprovalStatus::Cancelled => ApprovalStatus::Cancelled,
        }
    }
}

impl ApprovalStatus {
    /// Whether the request has been decided on.
    pub fn is_resolved(&self) -> (r: bool)
        ensures
            r == self@.resolved(),
    {
        match self {
            ApprovalStatus::Pending => false,
            _ => true,
        }
    }
}

/// An approval as the server keeps it.
#[derive(Debug, PartialEq)]
pub struct Approval {
    pub id: u128,
    pub request_id: String,
    pub session_id: SessionId,
    pub session_display_name: String,
    pub project: String,
    pub tool: Tool,
    /// The arguments of the tool, which differ from tool to tool.
    pub tool_input: Json,
    /// The provider that the request came from.
    pub provider: String,
    pub request_type: RequestType,
    pub context: ApprovalContext,
    pub created_at: UtcTime,
    pub status: ApprovalStatus,
}

/// What an `Approval` says.
pub struct ApprovalView {
    pub id: u128,
    pub request_id: Seq<char>,
    pub session_id: Seq<char>,
    pub session_display_name: Seq<char>,
    pub project: Seq<char>,
    pub tool: ToolView,
    pub tool_input: JsonView,
    pub provider: Seq<char>,
    pub request_type: RequestType,
    pub context: ApprovalContextView,
    pub created_at: UtcTime,
    pub status: ApprovalStatusView,
}

impl View for Approval {
    type V = ApprovalView;

    open spec fn view(&self) -> ApprovalView {
        ApprovalView {
            id: self.id,
            request_id: self.request_id@,
            session_id: self.session_id@,
            session_display_name: self.session_display_name@,
            project: self.project@,
            tool: self.tool@,
            tool_input: self.tool_input@,
            provider: self.provider@,
            request_type: self.request_type,
            context: self.context@,
            created_at: self.created_at,
            status: self.status@,
        }
    }
}

impl Clone for Approval {
    fn clone(&self) -> (r: Self)
        ensures
            r@ == self@,
    {
        Approval {
            id: self.id,
            request_id: self.request_id.clone(),
            session_id: self.session_id.clone(),
            session_display_name: self.session_display_name.clone(),
            project: self.project.clone(),
            tool: self.tool.clone(),
            tool_input: self.tool_input.clone(),
            provider: self.provider.clone(),
            request_type: self.request_type,
            context: self.context.clone(),
            created_at: self.created_at,
            status: self.status.clone(),
        }
    }
}

impl ApprovalView {
    /// The approval with another status.
    pub open spec fn with_status(self, status: ApprovalStatusView) -> ApprovalView {
        ApprovalView { status, ..self }
    }

    /// The status that the approval ends with when its session is removed.
    pub open spec fn ended_status(self) -> ApprovalStatusView {
        if self.pending() {
            ApprovalStatusView::Cancelled
        } else {
            self.status
        }
    }

    /// Whether the approval still waits for a decision.
    pub open spec fn pending(self) -> bool {
        !self.status.resolved()
    }
}

/// The views of a list of approvals.
pub open spec fn approval_views(v: Seq<Approval>) -> Seq<ApprovalView> {
    v.map_values(|a: Approval| a@)
}

/// An approval request, as the gateway sends it.
#[derive(Debug, PartialEq)]
pub struct ApprovalRequest {
    pub id: String,
    pub session_id: SessionId,
    pub session_display_name: String,
    pub cwd: String,
    pub tool: Tool,
    pub tool_input: Json,
    pub provider: String,
    pub request_type: RequestType,
    pub context: ApprovalContext,
}

/// What the server answers to an approval request.
#[derive(Debug, PartialEq, Eq)]
pub struct ApprovalResponse {
    pub id: u128,
    pub status: ApprovalStatus,
}

/// What a poll for a decision is told.
#[derive(Debug, PartialEq, Eq)]
pub struct ApprovalWaitResponse {
    pub status: ApprovalStatus,
}

/// The operator's decision on an approval.
#[derive(Debug, PartialEq, Eq)]
pub struct ApprovalResolveRequest {
    pub decision: ApprovalDecision,
    pub message: Option<String>,
    pub approve_for: Option<ApprovalGrantDuration>,
}

/// How long a temporary grant for a shell command may last.
#[derive(Clone, Copy, Debug, PartialEq, Eq, Structural)]
pub enum ApprovalGrantDuration {
    ThirtyMinutes,
    OneHour,
    TwoHours,
    SixHours,
    TwentyFourHours,
}

impl ApprovalGrantDuration {
    /// The length in minutes.
    pub open spec fn minutes(self) -> int {
        match self {
            ApprovalGrantDuration::ThirtyMinutes => 30,
            ApprovalGrantDuration::OneHour => 60,
            ApprovalGrantDuration::TwoHours => 120,
            ApprovalGrantDuration::SixHours => 360,
            ApprovalGrantDuration::TwentyFourHours => 1440,
        }
    }

    /// The length in nanoseconds.
    pub open spec fn nanos(self) -> int {
        self.minutes() * 60_000_000_000
    }

    /// The length in seconds.
    pub fn duration(self) -> (secs: u64)
        ensures
            secs == self.minutes() * 60,
    {
        match self {
            ApprovalGrantDuration::ThirtyMinutes => 30 * 60,
            ApprovalGrantDuration::OneHour => 60 * 60,
            ApprovalGrantDuration::TwoHours => 2 * 60 * 60,
            ApprovalGrantDuration::SixHours => 6 * 60 * 60,
            ApprovalGrantDuration::TwentyFourHours => 24 * 60 * 60,
        }
    }
}

/// What the operator does with an approval.
#[derive(Clone, Copy, Debug, PartialEq, Eq, Structural)]
pub enum ApprovalDecision {
    Approve,
    Deny,
    Cancel,
}

/// A grant lasts as long as its name says, counted in minutes, in seconds and in
/// nanoseconds alike.
pub proof fn grant_lasts_as_its_name_says(d: ApprovalGrantDuration, secs: u64)
    requires
        call_ensures(ApprovalGrantDuration::duration, (d,), secs),
    ensures
        d.nanos() == secs * 1_000_000_000,
        d.minutes() * 60 == secs,
        d is ThirtyMinutes ==> secs == 30 * 60,
        d is OneHour ==> secs == 60 * 60,
        d is TwoHours ==> secs == 2 * 60 * 60,
        d is SixHours ==> secs == 6 * 60 * 60,
        d is TwentyFourHours ==> secs == 24 * 60 * 60,
{
}

/// A kind of request is read from the word that it is written as, and from no other.
pub proof fn kind_of_request_is_read_back(
    kind: RequestType,
    word: &'static str,
    s: &str,
    r: Option<RequestType>,
)
    requires
        call_ensures(RequestType::as_str, (kind,), word),
        call_ensures(RequestType::from_name, (s,), r),
    ensures
        s@ == word@ <==> r == Some(kind),
        kind is ToolUse ==> word@ == "tool_use"@,
        kind is PlanQuestion ==> word@ == "plan_question"@,
{
    reveal_strlit("tool_use");
    reveal_strlit("plan_question");
    assert("tool_use"@.len() == 8 && "plan_question"@.len() == 13);
}

/// A known event is read from the word that it is written as, and from no other.
pub proof fn known_event_is_read_back(
    event: KnownHookEvent,
    word: &'static str,
    s: &str,
    r: Option<KnownHookEvent>,
)
    requires
        call_ensures(KnownHookEvent::as_str, (event,), word),
        call_ensures(KnownHookEvent::from_name, (s,), r),
    ensures
        s@ == word@ <==> r == Some(event),
        event is PreToolUse ==> word@ == "PreToolUse"@,
        event is PermissionRequest ==> word@ == "PermissionRequest"@,
        event is PreToolUseCamel ==> word@ == "preToolUse"@,
        event is ToolExecuteBefore ==> word@ == "tool.execute.before"@,
        event is PermissionAsk ==> word@ == "permission.ask"@,
{
    known_event_is_recognised(event);
}

/// What the operator may want to look at is shown as it was given, and an event is
/// written as it was named.
pub proof fn context_is_shown_as_given(
    extra: &ExtraContext,
    shown: String,
    event: &HookEventName,
    name: &str,
)
    requires
        call_ensures(ExtraContext::to_text, (extra,), shown),
        call_ensures(HookEventName::as_str, (event,), name),
    ensures
        extra matches ExtraContext::Diff { diff } ==> shown@ == diff@,
        extra matches ExtraContext::DippyReason { dippy_reason } ==> shown@ == dippy_reason@,
        event matches HookEventName::Other(other) ==> name@ == other@,
        event matches HookEventName::Known(known) ==> name@ == known.name(),
{
}

/// An approval is decided in every status but the pending one.
pub proof fn only_pending_is_undecided(status: &ApprovalStatus, r: bool)
    requires
        call_ensures(ApprovalStatus::is_resolved, (status,), r),
    ensures
        r <==> status is Approved || status is Denied || status is Cancelled,
        !r <==> status is Pending,
{
}

/// An event that is named like a known one is that one, and any other keeps its name.
pub proof fn event_is_told_by_its_name(s: String, event: KnownHookEvent)
    ensures
        ({
            let read = <HookEventName as vstd::std_specs::convert::FromSpec<String>>::from_spec(s);
            &&& read@ == HookEventNameView::Known(event) <==> s@ == event.name()
            &&& read@ matches HookEventNameView::Other(name) ==> name == s@
        }),
{
    known_event_is_recognised(event);
}

} // verus!
