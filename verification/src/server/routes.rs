//! Where the server answers, and who may ask there.

use vstd::prelude::*;

verus! {

/// What of the approval feature is switched on.
#[derive(Clone, Copy, Debug, PartialEq, Eq, Structural)]
pub enum ApprovalFeatureMode {
    Disabled,
    /// Approvals can be looked at, not decided on, in the pages.
    Readonly,
    Readwrite,
}

/// Whether callers must show who they are.
#[derive(Clone, Copy, Debug, PartialEq, Eq, Structural)]
pub enum AuthMode {
    /// They need not.
    Off,
    Token,
}

/// How an endpoint is asked.
#[derive(Clone, Copy, Debug, PartialEq, Eq, Structural)]
pub enum Method {
    /// By GET, and by HEAD, which is answered alike but without a body.
    Get,
    Post,
    Put,
    /// In any way.
    Any,
}

/// What an endpoint belongs to.
#[derive(Clone, Copy, Debug, PartialEq, Eq, Structural)]
pub enum Area {
    /// The interface for programs.
    Api,
    /// The part of it that is about approvals and questions.
    ApprovalApi,
    /// What anyone may see.
    Public,
    /// The pages on which one signs in.
    SignIn,
    /// The pages for the operator.
    Web,
}

/// What a caller must show.
#[derive(Clone, Copy, Debug, PartialEq, Eq, Structural)]
pub enum Guard {
    /// Nothing.
    Open,
    /// A token.
    Bearer,
    /// That they signed in.
    SignedIn,
}

/// A place at which the server answers.
#[derive(Clone, Copy, Debug, PartialEq, Eq, Structural)]
pub enum Endpoint {
    HooksStop,
    HooksNotification,
    HooksSessionEnd,
    HooksStatus,
    PresenceUpdate,
    ListSessions,
    UpdateSession,
    GetConfig,
    PutConfig,
    Mcp,
    HooksApproval,
    HooksQuestion,
    ListPending,
    GetApproval,
    ApprovalWait,
    ApprovalResolve,
    ListQuestions,
    GetQuestion,
    QuestionWait,
    QuestionResolve,
    GetApprovalMode,
    Health,
    Root,
    LoginPage,
    BasicLogin,
    StartAuth,
    AuthCallback,
    Logout,
    Dashboard,
    ApprovalQueue,
    ApprovalDetail,
}

impl Endpoint {
    /// The path that it answers at.
    pub open spec fn location(self) -> Seq<char> {
        match self {
            Endpoint::HooksStop => "/api/v1/hooks/stop"@,
            Endpoint::HooksNotification => "/api/v1/hooks/notification"@,
            Endpoint::HooksSessionEnd => "/api/v1/hooks/session-end"@,
            Endpoint::HooksStatus => "/api/v1/hooks/status"@,
            Endpoint::PresenceUpdate => "/api/v1/presence"@,
            Endpoint::ListSessions => "/api/v1/sessions"@,
            Endpoint::UpdateSession => "/api/v1/sessions/{id}"@,
            Endpoint::GetConfig => "/api/v1/config"@,
            Endpoint::PutConfig => "/api/v1/config"@,
            Endpoint::Mcp => "/api/v1/mcp"@,
            Endpoint::HooksApproval => "/api/v1/hooks/approval"@,
            Endpoint::HooksQuestion => "/api/v1/hooks/question"@,
            Endpoint::ListPending => "/api/v1/approvals/pending"@,
            Endpoint::GetApproval => "/api/v1/approvals/{id}"@,
            Endpoint::ApprovalWait => "/api/v1/approvals/{id}/wait"@,
            Endpoint::ApprovalResolve => "/api/v1/approvals/{id}/resolve"@,
            Endpoint::ListQuestions => "/api/v1/questions/pending"@,
            Endpoint::GetQuestion => "/api/v1/questions/{id}"@,
            Endpoint::QuestionWait => "/api/v1/questions/{id}/wait"@,
            Endpoint::QuestionResolve => "/api/v1/questions/{id}/resolve"@,
            Endpoint::GetApprovalMode => "/api/v1/sessions/{id}/approval-mode"@,
            Endpoint::Health => "/health"@,
            Endpoint::Root => "/"@,
            Endpoint::LoginPage => "/auth/login"@,
            Endpoint::BasicLogin => "/auth/login/basic"@,
            Endpoint::StartAuth => "/auth/start/{provider}"@,
            Endpoint::AuthCallback => "/auth/callback/{provider}"@,
            Endpoint::Logout => "/auth/logout"@,
            Endpoint::Dashboard => "/approvals"@,
            Endpoint::ApprovalQueue => "/approvals/queue"@,
            Endpoint::ApprovalDetail => "/approvals/{id}"@,
        }
    }

    /// The path that it answers at.
    pub fn path(self) -> (r: &'static str)
        ensures
            r@ == self.location(),
    {
        match self {
            Endpoint::HooksStop => "/api/v1/hooks/stop",
            Endpoint::HooksNotification => "/api/v1/hooks/notification",
            Endpoint::HooksSessionEnd => "/api/v1/hooks/session-end",
            Endpoint::HooksStatus => "/api/v1/hooks/status",
            Endpoint::PresenceUpdate => "/api/v1/presence",
            Endpoint::ListSessions => "/api/v1/sessions",
            Endpoint::UpdateSession => "/api/v1/sessions/{id}",
            Endpoint::GetConfig => "/api/v1/config",
            Endpoint::PutConfig => "/api/v1/config",
            Endpoint::Mcp => "/api/v1/mcp",
            Endpoint::HooksApproval => "/api/v1/hooks/approval",
            Endpoint::HooksQuestion => "/api/v1/hooks/question",
            Endpoint::ListPending => "/api/v1/approvals/pending",
            Endpoint::GetApproval => "/api/v1/approvals/{id}",
            Endpoint::ApprovalWait => "/api/v1/approvals/{id}/wait",
            Endpoint::ApprovalResolve => "/api/v1/approvals/{id}/resolve",
            Endpoint::ListQuestions => "/api/v1/questions/pending",
            Endpoint::GetQuestion => "/api/v1/questions/{id}",
            Endpoint::QuestionWait => "/api/v1/questions/{id}/wait",
            Endpoint::QuestionResolve => "/api/v1/questions/{id}/resolve",
            Endpoint::GetApprovalMode => "/api/v1/sessions/{id}/approval-mode",
            Endpoint::Health => "/health",
            Endpoint::Root => "/",
            Endpoint::LoginPage => "/auth/login",
            Endpoint::BasicLogin => "/auth/login/basic",
            Endpoint::StartAuth => "/auth/start/{provider}",
            Endpoint::AuthCallback => "/auth/callback/{provider}",
            Endpoint::Logout => "/auth/logout",
            Endpoint::Dashboard => "/approvals",
            Endpoint::ApprovalQueue => "/approvals/queue",
            Endpoint::ApprovalDetail => "/approvals/{id}",
        }
    }

    /// Whether it also answers at every path below its own, and at its own with a
    /// slash behind it. A service that has its own paths does.
    pub open spec fn reaches_below(self) -> bool {
        self == Endpoint::Mcp
    }

    /// Whether it also answers at every path below its own.
    pub fn answers_below(self) -> (r: bool)
        ensures
            r == self.reaches_below(),
    {
        match self {
            Endpoint::Mcp => true,
            _ => false,
        }
    }

    /// How it is asked.
    pub open spec fn asked_by(self) -> Method {
        match self {
            Endpoint::HooksStop
            | Endpoint::HooksNotification
            | Endpoint::HooksSessionEnd
            | Endpoint::HooksStatus
            | Endpoint::PresenceUpdate
            | Endpoint::HooksApproval
            | Endpoint::HooksQuestion
            | Endpoint::ApprovalResolve
            | Endpoint::QuestionResolve
            | Endpoint::BasicLogin
            | Endpoint::Logout => Method::Post,
            Endpoint::UpdateSession
            | Endpoint::PutConfig => Method::Put,
            Endpoint::Mcp => Method::Any,
            _ => Method::Get,
        }
    }

    /// How it is asked.
    pub fn method(self) -> (r: Method)
        ensures
            r == self.asked_by(),
    {
        match self {
            Endpoint::HooksStop
            | Endpoint::HooksNotification
            | Endpoint::HooksSessionEnd
            | Endpoint::HooksStatus
            | Endpoint::PresenceUpdate
            | Endpoint::HooksApproval
            | Endpoint::HooksQuestion
            | Endpoint::ApprovalResolve
            | Endpoint::QuestionResolve
            | Endpoint::BasicLogin
            | Endpoint::Logout => Method::Post,
            Endpoint::UpdateSession
            | Endpoint::PutConfig => Method::Put,
            Endpoint::Mcp => Method::Any,
            _ => Method::Get,
        }
    }

    /// What it belongs to.
    pub open spec fn belongs_to(self) -> Area {
        match self {
            Endpoint::HooksApproval
            | Endpoint::HooksQuestion
            | Endpoint::ListPending
            | Endpoint::GetApproval
            | Endpoint::ApprovalWait
            | Endpoint::ApprovalResolve
            | Endpoint::ListQuestions
            | Endpoint::GetQuestion
            | Endpoint::QuestionWait
            | Endpoint::QuestionResolve
            | Endpoint::GetApprovalMode => Area::ApprovalApi,
            Endpoint::Health
            | Endpoint::Root => Area::Public,
            Endpoint::LoginPage
            | Endpoint::BasicLogin
            | Endpoint::StartAuth
            | Endpoint::AuthCallback
            | Endpoint::Logout => Area::SignIn,
            Endpoint::Dashboard
            | Endpoint::ApprovalQueue
            | Endpoint::ApprovalDetail => Area::Web,
            _ => Area::Api,
        }
    }

    /// What it belongs to.
    pub fn area(self) -> (r: Area)
        ensures
            r == self.belongs_to(),
    {
        match self {
            Endpoint::HooksApproval
            | Endpoint::HooksQuestion
            | Endpoint::ListPending
            | Endpoint::GetApproval
            | Endpoint::ApprovalWait
            | Endpoint::ApprovalResolve
            | Endpoint::ListQuestions
            | Endpoint::GetQuestion
            | Endpoint::QuestionWait
            | Endpoint::QuestionResolve
            | Endpoint::GetApprovalMode => Area::ApprovalApi,
            Endpoint::Health
            | Endpoint::Root => Area::Public,
            Endpoint::LoginPage
            | Endpoint::BasicLogin
            | Endpoint::StartAuth
            | Endpoint::AuthCallback
            | Endpoint::Logout => Area::SignIn,
            Endpoint::Dashboard
            | Endpoint::ApprovalQueue
            | Endpoint::ApprovalDetail => Area::Web,
            _ => Area::Api,
        }
    }

    /// Whether the server answers there: approvals and their pages only where the
    /// feature is switched on, the pages to sign in only where that is needed too.
    pub open spec fn mounted(self, mode: ApprovalFeatureMode, auth: AuthMode) -> bool {
        match self.belongs_to() {
            Area::Api => true,
            Area::Public => true,
            Area::ApprovalApi => mode != ApprovalFeatureMode::Disabled,
            Area::Web => mode != ApprovalFeatureMode::Disabled,
            Area::SignIn => mode != ApprovalFeatureMode::Disabled && auth != AuthMode::Off,
        }
    }

    /// Whether the server answers there.
    pub fn is_mounted(self, mode: ApprovalFeatureMode, auth: AuthMode) -> (r: bool)
        ensures
            r == self.mounted(mode, auth),
    {
        match self.area() {
            Area::Api => true,
            Area::Public => true,
            Area::ApprovalApi => mode != ApprovalFeatureMode::Disabled,
            Area::Web => mode != ApprovalFeatureMode::Disabled,
            Area::SignIn => mode != ApprovalFeatureMode::Disabled && auth != AuthMode::Off,
        }
    }

    /// What a caller must show there.
    pub open spec fn guarded_by(self, auth: AuthMode) -> Guard {
        if auth == AuthMode::Off {
            Guard::Open
        } else {
            match self.belongs_to() {
                Area::Api => Guard::Bearer,
                Area::ApprovalApi => Guard::Bearer,
                Area::Web => Guard::SignedIn,
                _ => Guard::Open,
            }
        }
    }

    /// What a caller must show there.
    pub fn guard(self, auth: AuthMode) -> (r: Guard)
        ensures
            r == self.guarded_by(auth),
    {
        if auth == AuthMode::Off {
            return Guard::Open;
        }
        match self.area() {
            Area::Api => Guard::Bearer,
            Area::ApprovalApi => Guard::Bearer,
            Area::Web => Guard::SignedIn,
            _ => Guard::Open,
        }
    }
}

/// All endpoints.
pub open spec fn endpoints() -> Seq<Endpoint> {
    seq![
        Endpoint::HooksStop,
        Endpoint::HooksNotification,
        Endpoint::HooksSessionEnd,
        Endpoint::HooksStatus,
        Endpoint::PresenceUpdate,
        Endpoint::ListSessions,
        Endpoint::UpdateSession,
        Endpoint::GetConfig,
        Endpoint::PutConfig,
        Endpoint::Mcp,
        Endpoint::HooksApproval,
        Endpoint::HooksQuestion,
        Endpoint::ListPending,
        Endpoint::GetApproval,
        Endpoint::ApprovalWait,
        Endpoint::ApprovalResolve,
        Endpoint::ListQuestions,
        Endpoint::GetQuestion,
        Endpoint::QuestionWait,
        Endpoint::QuestionResolve,
        Endpoint::GetApprovalMode,
        Endpoint::Health,
        Endpoint::Root,
        Endpoint::LoginPage,
        Endpoint::BasicLogin,
        Endpoint::StartAuth,
        Endpoint::AuthCallback,
        Endpoint::Logout,
        Endpoint::Dashboard,
        Endpoint::ApprovalQueue,
        Endpoint::ApprovalDetail,
    ]
}

/// All endpoints.
fn all_endpoints() -> (r: Vec<Endpoint>)
    ensures
        r@ == endpoints(),
{
    let all = vec![
        Endpoint::HooksStop,
        Endpoint::HooksNotification,
        Endpoint::HooksSessionEnd,
        Endpoint::HooksStatus,
        Endpoint::PresenceUpdate,
        Endpoint::ListSessions,
        Endpoint::UpdateSession,
        Endpoint::GetConfig,
        Endpoint::PutConfig,
        Endpoint::Mcp,
        Endpoint::HooksApproval,
        Endpoint::HooksQuestion,
        Endpoint::ListPending,
        Endpoint::GetApproval,
        Endpoint::ApprovalWait,
        Endpoint::ApprovalResolve,
        Endpoint::ListQuestions,
        Endpoint::GetQuestion,
        Endpoint::QuestionWait,
        Endpoint::QuestionResolve,
        Endpoint::GetApprovalMode,
        Endpoint::Health,
        Endpoint::Root,
        Endpoint::LoginPage,
        Endpoint::BasicLogin,
        Endpoint::StartAuth,
        Endpoint::AuthCallback,
        Endpoint::Logout,
        Endpoint::Dashboard,
        Endpoint::ApprovalQueue,
        Endpoint::ApprovalDetail,
    ];
    assert(all@ =~= endpoints());
    all
}

/// Where the server answers.
pub fn router(mode: ApprovalFeatureMode, auth: AuthMode) -> (r: Vec<Endpoint>)
    ensures
        r@ == endpoints().filter(|endpoint: Endpoint| endpoint.mounted(mode, auth)),
{
    let all = all_endpoints();
    let ghost mounted = |endpoint: Endpoint| endpoint.mounted(mode, auth);
    let mut mounts: Vec<Endpoint> = Vec::new();
    let mut i: usize = 0;
    proof {
        reveal(Seq::filter);
        assert(all@.take(0) =~= Seq::empty());
    }
    while i < all.len()
        invariant
            i <= all@.len(),
            mounted == (|endpoint: Endpoint| endpoint.mounted(mode, auth)),
            mounts@ == all@.take(i as int).filter(mounted),
        decreases all@.len() - i,
    {
        proof {
            reveal(Seq::filter);
            assert(all@.take(i + 1).drop_last() =~= all@.take(i as int));
        }
        let endpoint = all[i];
        if endpoint.is_mounted(mode, auth) {
            mounts.push(endpoint);
        }
        i += 1;
    }
    assert(all@.take(i as int) =~= all@);
    mounts
}

/// No endpoint is left out: the server answers at one exactly where it is mounted.
pub proof fn every_endpoint_is_routed(
    endpoint: Endpoint,
    mode: ApprovalFeatureMode,
    auth: AuthMode,
)
    ensures
        endpoints().filter(|e: Endpoint| e.mounted(mode, auth)).contains(endpoint)
            == endpoint.mounted(mode, auth),
{
    match endpoint {
        Endpoint::HooksStop => {
            assert(endpoints()[0] == endpoint);
        },
        Endpoint::HooksNotification => {
            assert(endpoints()[1] == endpoint);
        },
        Endpoint::HooksSessionEnd => {
            assert(endpoints()[2] == endpoint);
        },
        Endpoint::HooksStatus => {
            assert(endpoints()[3] == endpoint);
        },
        Endpoint::PresenceUpdate => {
            assert(endpoints()[4] == endpoint);
        },
        Endpoint::ListSessions => {
            assert(endpoints()[5] == endpoint);
        },
        Endpoint::UpdateSession => {
            assert(endpoints()[6] == endpoint);
        },
        Endpoint::GetConfig => {
            assert(endpoints()[7] == endpoint);
        },
        Endpoint::PutConfig => {
            assert(endpoints()[8] == endpoint);
        },
        Endpoint::Mcp => {
            assert(endpoints()[9] == endpoint);
        },
        Endpoint::HooksApproval => {
            assert(endpoints()[10] == endpoint);
        },
        Endpoint::HooksQuestion => {
            assert(endpoints()[11] == endpoint);
        },
        Endpoint::ListPending => {
            assert(endpoints()[12] == endpoint);
        },
        Endpoint::GetApproval => {
            assert(endpoints()[13] == endpoint);
        },
        Endpoint::ApprovalWait => {
            assert(endpoints()[14] == endpoint);
        },
        Endpoint::ApprovalResolve => {
            assert(endpoints()[15] == endpoint);
        },
        Endpoint::ListQuestions => {
            assert(endpoints()[16] == endpoint);
        },
        Endpoint::GetQuestion => {
            assert(endpoints()[17] == endpoint);
        },
        Endpoint::QuestionWait => {
            assert(endpoints()[18] == endpoint);
        },
        Endpoint::QuestionResolve => {
            assert(endpoints()[19] == endpoint);
        },
        Endpoint::GetApprovalMode => {
            assert(endpoints()[20] == endpoint);
        },
        Endpoint::Health => {
            assert(endpoints()[21] == endpoint);
        },
        Endpoint::Root => {
            assert(endpoints()[22] == endpoint);
        },
        Endpoint::LoginPage => {
            assert(endpoints()[23] == endpoint);
        },
        Endpoint::BasicLogin => {
            assert(endpoints()[24] == endpoint);
        },
        Endpoint::StartAuth => {
            assert(endpoints()[25] == endpoint);
        },
        Endpoint::AuthCallback => {
            assert(endpoints()[26] == endpoint);
        },
        Endpoint::Logout => {
            assert(endpoints()[27] == endpoint);
        },
        Endpoint::Dashboard => {
            assert(endpoints()[28] == endpoint);
        },
        Endpoint::ApprovalQueue => {
            assert(endpoints()[29] == endpoint);
        },
        Endpoint::ApprovalDetail => {
            assert(endpoints()[30] == endpoint);
        },
    }
    assert(endpoints().contains(endpoint));
    let mounted = |e: Endpoint| e.mounted(mode, auth);
    let routed = endpoints().filter(mounted);
    if endpoint.mounted(mode, auth) {
        let i = choose|i: int| 0 <= i < endpoints().len() && endpoints()[i] == endpoint;
        endpoints().lemma_filter_contains(mounted, i);
    } else if routed.contains(endpoint) {
        let i = choose|i: int| 0 <= i < routed.len() && routed[i] == endpoint;
        endpoints().lemma_filter_pred(mounted, i);
    }
}

/// Where the root of the server leads.
pub const ROOT_REDIRECT: &'static str = "/approvals";

/// What is answered where the server is asked whether it lives.
pub const HEALTH_ANSWER: &'static str = "ok";

/// The HTTP status that sends a caller elsewhere for now.
pub const TEMPORARY_REDIRECT: u16 = 307;

/// The page on which one signs in.
pub const LOGIN_PATH: &'static str = "/auth/login";

/// Where a caller is sent who asks for a page for the operator, if anywhere.
pub fn web_gate(signed_in: bool) -> (r: Option<(u16, &'static str)>)
    ensures
        signed_in ==> r is None,
        !signed_in ==> (match r {
            Some((code, path)) => code == TEMPORARY_REDIRECT && path@ == LOGIN_PATH@,
            None => false,
        }),
{
    if signed_in {
        None
    } else {
        Some((TEMPORARY_REDIRECT, LOGIN_PATH))
    }
}

/// Only the service with paths of its own answers below its path, in any way that it
/// is asked; there as well callers must show a token where one is needed.
pub proof fn one_endpoint_reaches_below(endpoint: Endpoint, auth: AuthMode)
    requires
        endpoint.reaches_below(),
    ensures
        endpoint == Endpoint::Mcp,
        endpoint.asked_by() == Method::Any,
        auth != AuthMode::Off ==> endpoint.guarded_by(auth) == Guard::Bearer,
{
}

/// Where callers must show who they are, they must at every endpoint but those
/// that anyone may see and those at which they sign in.
pub proof fn nothing_else_is_open(endpoint: Endpoint, auth: AuthMode)
    requires
        auth != AuthMode::Off,
        endpoint.guarded_by(auth) == Guard::Open,
    ensures
        endpoint.belongs_to() == Area::Public || endpoint.belongs_to() == Area::SignIn,
{
}

/// Where the approval feature is switched off, the server answers nowhere about
/// approvals and questions, and shows no pages.
pub proof fn disabled_feature_is_absent(auth: AuthMode, endpoint: Endpoint)
    requires
        endpoint.mounted(ApprovalFeatureMode::Disabled, auth),
    ensures
        endpoint.belongs_to() == Area::Api || endpoint.belongs_to() == Area::Public,
{
}

/// The root and the sign of life are always there, for anyone.
pub proof fn public_endpoints_are_always_there(mode: ApprovalFeatureMode, auth: AuthMode)
    ensures
        Endpoint::Health.mounted(mode, auth),
        Endpoint::Health.guarded_by(auth) == Guard::Open,
        Endpoint::Root.mounted(mode, auth),
        Endpoint::Root.guarded_by(auth) == Guard::Open,
{
}

/// The interface for programs lies below its own path, and nothing else does; the pages
/// for the operator lie below theirs, and the pages to sign in below theirs.
pub proof fn areas_have_their_own_paths(endpoint: Endpoint, path: &'static str, area: Area)
    requires
        call_ensures(Endpoint::path, (endpoint,), path),
        call_ensures(Endpoint::area, (endpoint,), area),
    ensures
        path@.len() > 0 && path@[0] == '/',
        area == Area::Api || area == Area::ApprovalApi <==> crate::text::starts_with(
            path@,
            "/api/v1/"@,
        ),
        area == Area::Web <==> crate::text::starts_with(path@, "/approvals"@),
        area == Area::SignIn <==> crate::text::starts_with(path@, "/auth/"@),
        area == Area::Public <==> path@ == "/"@ || path@ == "/health"@,
{
    reveal_strlit("/api/v1/hooks/stop");
    reveal_strlit("/api/v1/hooks/notification");
    reveal_strlit("/api/v1/hooks/session-end");
    reveal_strlit("/api/v1/hooks/status");
    reveal_strlit("/api/v1/presence");
    reveal_strlit("/api/v1/sessions");
    reveal_strlit("/api/v1/sessions/{id}");
    reveal_strlit("/api/v1/config");
    reveal_strlit("/api/v1/mcp");
    reveal_strlit("/api/v1/hooks/approval");
    reveal_strlit("/api/v1/hooks/question");
    reveal_strlit("/api/v1/approvals/pending");
    reveal_strlit("/api/v1/approvals/{id}");
    reveal_strlit("/api/v1/approvals/{id}/wait");
    reveal_strlit("/api/v1/approvals/{id}/resolve");
    reveal_strlit("/api/v1/questions/pending");
    reveal_strlit("/api/v1/questions/{id}");
    reveal_strlit("/api/v1/questions/{id}/wait");
    reveal_strlit("/api/v1/questions/{id}/resolve");
    reveal_strlit("/api/v1/sessions/{id}/approval-mode");
    reveal_strlit("/health");
    reveal_strlit("/");
    reveal_strlit("/auth/login");
    reveal_strlit("/auth/login/basic");
    reveal_strlit("/auth/start/{provider}");
    reveal_strlit("/auth/callback/{provider}");
    reveal_strlit("/auth/logout");
    reveal_strlit("/approvals");
    reveal_strlit("/approvals/queue");
    reveal_strlit("/approvals/{id}");
    reveal_strlit("/api/v1/");
    reveal_strlit("/auth/");
    let p = path@;
    assert("/"@.len() == 1 && "/health"@.len() == 7 && "/health"@[1] == 'h');
    assert("/api/v1/"@.len() == 8 && "/api/v1/"@[1] == 'a' && "/api/v1/"@[2] == 'p' && "/api/v1/"@[3]
        == 'i');
    assert("/auth/"@.len() == 6 && "/auth/"@[1] == 'a' && "/auth/"@[2] == 'u');
    assert("/approvals"@.len() == 10 && "/approvals"@[1] == 'a' && "/approvals"@[2] == 'p'
        && "/approvals"@[3] == 'p');
    if area == Area::Api || area == Area::ApprovalApi {
        assert(p.take(8) =~= "/api/v1/"@);
        assert(p[2] == 'p' && p[3] == 'i');
        if crate::text::starts_with(p, "/approvals"@) {
            assert(p.take(10)[3] == 'p');
        }
        if crate::text::starts_with(p, "/auth/"@) {
            assert(p.take(6)[2] == 'u');
        }
        assert(p.len() > 7);
    } else if area == Area::Web {
        assert(p.take(10) =~= "/approvals"@);
        assert(p[2] == 'p' && p[3] == 'p');
        if crate::text::starts_with(p, "/api/v1/"@) {
            assert(p.take(8)[3] == 'i');
        }
        if crate::text::starts_with(p, "/auth/"@) {
            assert(p.take(6)[2] == 'u');
        }
        assert(p.len() > 7);
    } else if area == Area::SignIn {
        assert(p.take(6) =~= "/auth/"@);
        assert(p[2] == 'u');
        if crate::text::starts_with(p, "/api/v1/"@) {
            assert(p.take(8)[2] == 'p');
        }
        if crate::text::starts_with(p, "/approvals"@) {
            assert(p.take(10)[2] == 'p');
        }
        assert(p.len() > 7);
    } else {
        if crate::text::starts_with(p, "/api/v1/"@) {
            assert(p.take(8)[1] == 'a');
        }
        if crate::text::starts_with(p, "/approvals"@) {
            assert(p.take(10)[1] == 'a');
        }
        if crate::text::starts_with(p, "/auth/"@) {
            assert(p.take(6)[1] == 'a');
        }
    }
}

/// What is done with one approval, one question or one session lies below the path of
/// that approval, question or session; what is pending is listed beside them; and the
/// root, and those who have signed in, are led to the page of the approvals.
pub proof fn paths_are_built_on_each_other(
    approval: &'static str,
    approval_wait: &'static str,
    approval_resolve: &'static str,
    question: &'static str,
    question_wait: &'static str,
    question_resolve: &'static str,
    session: &'static str,
    mode: &'static str,
    sessions: &'static str,
    dashboard: &'static str,
    detail: &'static str,
    login: &'static str,
)
    requires
        call_ensures(Endpoint::path, (Endpoint::GetApproval,), approval),
        call_ensures(Endpoint::path, (Endpoint::ApprovalWait,), approval_wait),
        call_ensures(Endpoint::path, (Endpoint::ApprovalResolve,), approval_resolve),
        call_ensures(Endpoint::path, (Endpoint::GetQuestion,), question),
        call_ensures(Endpoint::path, (Endpoint::QuestionWait,), question_wait),
        call_ensures(Endpoint::path, (Endpoint::QuestionResolve,), question_resolve),
        call_ensures(Endpoint::path, (Endpoint::UpdateSession,), session),
        call_ensures(Endpoint::path, (Endpoint::GetApprovalMode,), mode),
        call_ensures(Endpoint::path, (Endpoint::ListSessions,), sessions),
        call_ensures(Endpoint::path, (Endpoint::Dashboard,), dashboard),
        call_ensures(Endpoint::path, (Endpoint::ApprovalDetail,), detail),
        call_ensures(Endpoint::path, (Endpoint::LoginPage,), login),
    ensures
        approval@ == "/api/v1/approvals/"@ + "{id}"@,
        approval_wait@ == approval@ + "/wait"@,
        approval_resolve@ == approval@ + "/resolve"@,
        question@ == "/api/v1/questions/"@ + "{id}"@,
        question_wait@ == question@ + "/wait"@,
        question_resolve@ == question@ + "/resolve"@,
        session@ == sessions@ + "/"@ + "{id}"@,
        session@ == "/api/v1/sessions/"@ + "{id}"@,
        mode@ == session@ + "/approval-mode"@,
        detail@ == dashboard@ + "/"@ + "{id}"@,
        dashboard@ == ROOT_REDIRECT@,
        dashboard@ == "/approvals"@,
        login@ == LOGIN_PATH@,
{
    reveal_strlit("/api/v1/approvals/");
    reveal_strlit("/api/v1/questions/");
    reveal_strlit("/api/v1/sessions/");
    reveal_strlit("/api/v1/sessions");
    reveal_strlit("{id}");
    reveal_strlit("/wait");
    reveal_strlit("/resolve");
    reveal_strlit("/approval-mode");
    reveal_strlit("/");
    reveal_strlit("/approvals");
    reveal_strlit("/approvals/{id}");
    reveal_strlit("/api/v1/sessions/{id}");
    reveal_strlit("/api/v1/approvals/{id}");
    reveal_strlit("/api/v1/approvals/{id}/wait");
    reveal_strlit("/api/v1/approvals/{id}/resolve");
    reveal_strlit("/api/v1/questions/{id}");
    reveal_strlit("/api/v1/questions/{id}/wait");
    reveal_strlit("/api/v1/questions/{id}/resolve");
    reveal_strlit("/api/v1/sessions/{id}/approval-mode");
    assert(approval@ =~= "/api/v1/approvals/"@ + "{id}"@);
    assert(approval_wait@ =~= approval@ + "/wait"@);
    assert(approval_resolve@ =~= approval@ + "/resolve"@);
    assert(question@ =~= "/api/v1/questions/"@ + "{id}"@);
    assert(question_wait@ =~= question@ + "/wait"@);
    assert(question_resolve@ =~= question@ + "/resolve"@);
    assert(session@ =~= sessions@ + "/"@ + "{id}"@);
    assert(session@ =~= "/api/v1/sessions/"@ + "{id}"@);
    assert(mode@ =~= session@ + "/approval-mode"@);
    assert(detail@ =~= dashboard@ + "/"@ + "{id}"@);
}

/// What is only looked at is asked for by GET; what is told to the server is sent by POST,
/// and what is there already and is changed by PUT. Only the service with paths of its
/// own is asked in any way.
pub proof fn what_changes_is_not_asked_for_by_get(endpoint: Endpoint, r: Method, below: bool)
    requires
        call_ensures(Endpoint::method, (endpoint,), r),
        call_ensures(Endpoint::answers_below, (endpoint,), below),
    ensures
        below <==> endpoint is Mcp,
        r == Method::Any <==> endpoint is Mcp,
        r == Method::Put <==> endpoint is UpdateSession || endpoint is PutConfig,
        r == Method::Post <==> endpoint is HooksStop || endpoint is HooksNotification || endpoint
            is HooksSessionEnd || endpoint is HooksStatus || endpoint is PresenceUpdate || endpoint
            is HooksApproval || endpoint is HooksQuestion || endpoint is ApprovalResolve || endpoint
            is QuestionResolve || endpoint is BasicLogin || endpoint is Logout,
{
}

/// Who may ask where: where callers need not show who they are, every endpoint is open;
/// where they must, the interface for programs wants a token and the pages for the
/// operator want them signed in, and only the root, the sign of life and the pages to sign
/// in are open. Approvals are there only where the feature is switched on.
pub proof fn endpoint_is_open_only_where_it_may_be(
    endpoint: Endpoint,
    mode: ApprovalFeatureMode,
    auth: AuthMode,
    area: Area,
    guard: Guard,
    there: bool,
)
    requires
        call_ensures(Endpoint::area, (endpoint,), area),
        call_ensures(Endpoint::guard, (endpoint, auth), guard),
        call_ensures(Endpoint::is_mounted, (endpoint, mode, auth), there),
    ensures
        auth == AuthMode::Off ==> guard == Guard::Open,
        auth == AuthMode::Token ==> {
            &&& guard == Guard::Bearer <==> area == Area::Api || area == Area::ApprovalApi
            &&& guard == Guard::SignedIn <==> area == Area::Web
            &&& guard == Guard::Open <==> area == Area::Public || area == Area::SignIn
        },
        area == Area::Api || area == Area::Public ==> there,
        mode == ApprovalFeatureMode::Disabled ==> (there <==> area == Area::Api || area
            == Area::Public),
        mode != ApprovalFeatureMode::Disabled && area != Area::SignIn ==> there,
        mode != ApprovalFeatureMode::Disabled && area == Area::SignIn ==> (there <==> auth
            == AuthMode::Token),
        area == Area::ApprovalApi <==> endpoint is HooksApproval || endpoint is HooksQuestion
            || endpoint is ListPending || endpoint is GetApproval || endpoint is ApprovalWait
            || endpoint is ApprovalResolve || endpoint is ListQuestions || endpoint is GetQuestion
            || endpoint is QuestionWait || endpoint is QuestionResolve || endpoint
            is GetApprovalMode,
        area == Area::Public <==> endpoint is Health || endpoint is Root,
        area == Area::Web <==> endpoint is Dashboard || endpoint is ApprovalQueue || endpoint
            is ApprovalDetail,
        area == Area::SignIn <==> endpoint is LoginPage || endpoint is BasicLogin || endpoint
            is StartAuth || endpoint is AuthCallback || endpoint is Logout,
{
}

/// The server answers at an endpoint exactly where the endpoint is there, and names none
/// twice.
pub proof fn server_answers_where_endpoints_are(
    mode: ApprovalFeatureMode,
    auth: AuthMode,
    routed: Vec<Endpoint>,
    endpoint: Endpoint,
    there: bool,
)
    requires
        call_ensures(router, (mode, auth), routed),
        call_ensures(Endpoint::is_mounted, (endpoint, mode, auth), there),
    ensures
        routed@.contains(endpoint) <==> there,
{
    every_endpoint_is_routed(endpoint, mode, auth);
}

/// Who asks for a page for the operator without having signed in is sent to the page on
/// which one signs in, for now, and nobody else is.
pub proof fn only_strangers_are_sent_to_sign_in(
    signed_in: bool,
    r: Option<(u16, &'static str)>,
    login: &'static str,
)
    requires
        call_ensures(web_gate, (signed_in,), r),
        call_ensures(Endpoint::path, (Endpoint::LoginPage,), login),
    ensures
        r is None <==> signed_in,
        r matches Some((code, path)) ==> code == 307 && path@ == login@,
{
}

/// What programs tell the server lies beside each other under the name of what is told;
/// what is pending is listed beside the single ones; and each page to sign in, and the
/// queue, lies below its area under its own name.
pub proof fn endpoints_lie_under_their_names(endpoint: Endpoint, path: &'static str)
    requires
        call_ensures(Endpoint::path, (endpoint,), path),
    ensures
        endpoint is HooksStop ==> path@ == "/api/v1/hooks/"@ + "stop"@,
        endpoint is HooksNotification ==> path@ == "/api/v1/hooks/"@ + "notification"@,
        endpoint is HooksSessionEnd ==> path@ == "/api/v1/hooks/"@ + "session-end"@,
        endpoint is HooksStatus ==> path@ == "/api/v1/hooks/"@ + "status"@,
        endpoint is HooksApproval ==> path@ == "/api/v1/hooks/"@ + "approval"@,
        endpoint is HooksQuestion ==> path@ == "/api/v1/hooks/"@ + "question"@,
        endpoint is PresenceUpdate ==> path@ == "/api/v1/"@ + "presence"@,
        endpoint is ListSessions ==> path@ == "/api/v1/"@ + "sessions"@,
        endpoint is GetConfig ==> path@ == "/api/v1/"@ + "config"@,
        endpoint is PutConfig ==> path@ == "/api/v1/"@ + "config"@,
        endpoint is Mcp ==> path@ == "/api/v1/"@ + "mcp"@,
        endpoint is ListPending ==> path@ == "/api/v1/approvals/"@ + "pending"@,
        endpoint is ListQuestions ==> path@ == "/api/v1/questions/"@ + "pending"@,
        endpoint is LoginPage ==> path@ == "/auth/"@ + "login"@,
        endpoint is BasicLogin ==> path@ == "/auth/"@ + "login/basic"@,
        endpoint is StartAuth ==> path@ == "/auth/"@ + "start/{provider}"@,
        endpoint is AuthCallback ==> path@ == "/auth/"@ + "callback/{provider}"@,
        endpoint is Logout ==> path@ == "/auth/"@ + "logout"@,
        endpoint is ApprovalQueue ==> path@ == "/approvals/"@ + "queue"@,
{
    reveal_strlit("/api/v1/hooks/");
    reveal_strlit("stop");
    reveal_strlit("/api/v1/hooks/stop");
    reveal_strlit("notification");
    reveal_strlit("/api/v1/hooks/notification");
    reveal_strlit("session-end");
    reveal_strlit("/api/v1/hooks/session-end");
    reveal_strlit("status");
    reveal_strlit("/api/v1/hooks/status");
    reveal_strlit("approval");
    reveal_strlit("/api/v1/hooks/approval");
    reveal_strlit("question");
    reveal_strlit("/api/v1/hooks/question");
    reveal_strlit("/api/v1/");
    reveal_strlit("presence");
    reveal_strlit("/api/v1/presence");
    reveal_strlit("sessions");
    reveal_strlit("/api/v1/sessions");
    reveal_strlit("config");
    reveal_strlit("/api/v1/config");
    reveal_strlit("mcp");
    reveal_strlit("/api/v1/mcp");
    reveal_strlit("/api/v1/approvals/");
    reveal_strlit("pending");
    reveal_strlit("/api/v1/approvals/pending");
    reveal_strlit("/api/v1/questions/");
    reveal_strlit("/api/v1/questions/pending");
    reveal_strlit("/auth/");
    reveal_strlit("login");
    reveal_strlit("/auth/login");
    reveal_strlit("login/basic");
    reveal_strlit("/auth/login/basic");
    reveal_strlit("start/{provider}");
    reveal_strlit("/auth/start/{provider}");
    reveal_strlit("callback/{provider}");
    reveal_strlit("/auth/callback/{provider}");
    reveal_strlit("logout");
    reveal_strlit("/auth/logout");
    reveal_strlit("/approvals/");
    reveal_strlit("queue");
    reveal_strlit("/approvals/queue");
    assert("/api/v1/hooks/stop"@ =~= "/api/v1/hooks/"@ + "stop"@);
    assert("/api/v1/hooks/notification"@ =~= "/api/v1/hooks/"@ + "notification"@);
    assert("/api/v1/hooks/session-end"@ =~= "/api/v1/hooks/"@ + "session-end"@);
    assert("/api/v1/hooks/status"@ =~= "/api/v1/hooks/"@ + "status"@);
    assert("/api/v1/hooks/approval"@ =~= "/api/v1/hooks/"@ + "approval"@);
    assert("/api/v1/hooks/question"@ =~= "/api/v1/hooks/"@ + "question"@);
    assert("/api/v1/presence"@ =~= "/api/v1/"@ + "presence"@);
    assert("/api/v1/sessions"@ =~= "/api/v1/"@ + "sessions"@);
    assert("/api/v1/config"@ =~= "/api/v1/"@ + "config"@);
    assert("/api/v1/mcp"@ =~= "/api/v1/"@ + "mcp"@);
    assert("/api/v1/approvals/pending"@ =~= "/api/v1/approvals/"@ + "pending"@);
    assert("/api/v1/questions/pending"@ =~= "/api/v1/questions/"@ + "pending"@);
    assert("/auth/login"@ =~= "/auth/"@ + "login"@);
    assert("/auth/login/basic"@ =~= "/auth/"@ + "login/basic"@);
    assert("/auth/start/{provider}"@ =~= "/auth/"@ + "start/{provider}"@);
    assert("/auth/callback/{provider}"@ =~= "/auth/"@ + "callback/{provider}"@);
    assert("/auth/logout"@ =~= "/auth/"@ + "logout"@);
    assert("/approvals/queue"@ =~= "/approvals/"@ + "queue"@);
}

} // verus!
