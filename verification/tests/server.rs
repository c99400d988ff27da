//! What the server answers and shows.

use agent_hub::clock::UtcTime;
use agent_hub::json::Json;
use agent_hub::protocol::approval::{
    Approval, ApprovalContext, ApprovalDecision, ApprovalGrantDuration, ApprovalResolveRequest,
    ApprovalStatus, ExtraContext, HookEventName, RequestType,
};
use agent_hub::protocol::question::{
    PendingQuestion, QuestionDecision, QuestionInfo, QuestionResolveRequest, QuestionStatus,
};
use agent_hub::protocol::session::{
    EffectiveSessionStatus, Provider, SessionApprovalMode, SessionId, SessionNotifyConfig,
    SessionStatus, SessionView, StoredSession,
};
use agent_hub::protocol::tool::Tool;
use agent_hub::server::approvals::{ApprovalRegistry, RegisterApproval};
use agent_hub::server::handlers::{
    begin_approval_wait, begin_approval_wait_at, begin_question_wait, finish_approval_wait,
    finish_question_wait, handle_approval_resolve, handle_approval_resolve_at,
    handle_get_approval, handle_get_approval_mode, handle_get_question, handle_list_pending,
    handle_update_session, question_status, AppError, WaitStart,
};
use agent_hub::server::pages::{approval_detail, approval_queue, dashboard, login_page};
use agent_hub::server::routes::{
    router, web_gate, ApprovalFeatureMode, AuthMode, Endpoint, Guard, Method,
};
use agent_hub::server::status::{build_session_views, resolve_effective_status};
use agent_hub::server::storage::{
    loaded, restore, snapshot, LocalFileStorage, NullStorage, StateFile,
};
use agent_hub::server::web::{
    basic_auth_login, html_escape, json_for_script, BasicAuthForm, SignIn, WebAnswer,
};

fn now() -> UtcTime {
    UtcTime { secs: 1_787_745_600, nanos: 0 }
}

fn object(name: &str, value: &str) -> Json {
    Json::object1(name, Json::from_str_slice(value))
}

fn write_input() -> Json {
    Json::object2(
        "file_path",
        Json::from_str_slice("/workspace/file"),
        "content",
        Json::from_str_slice("text"),
    )
}

fn params(request_id: &str, tool: Tool, tool_input: Json) -> RegisterApproval {
    RegisterApproval {
        request_id: request_id.to_string(),
        session_id: SessionId::new(&format!("session-{request_id}")),
        session_display_name: "test session".to_string(),
        project: "/workspace".to_string(),
        tool,
        tool_input,
        provider: "opencode".to_string(),
        request_type: RequestType::ToolUse,
        context: ApprovalContext {
            workspace_roots: vec!["/workspace".to_string()],
            hook_event_name: HookEventName::Other("test".to_string()),
            extra: None,
        },
    }
}

fn register(
    registry: &mut ApprovalRegistry,
    request_id: &str,
    tool: Tool,
    tool_input: Json,
) -> Approval {
    registry.register_at(params(request_id, tool, tool_input), now(), 0)
}

fn id_text(approval: &Approval) -> String {
    uuid::Uuid::from_u128(approval.id).to_string()
}

/// An approval as the server hands it to its page.
fn as_json(approval: &Approval) -> String {
    Json::object3(
        "id",
        Json::from_str_slice(&id_text(approval)),
        "tool_name",
        Json::from_str_slice(approval.tool.as_str()),
        "tool_input",
        approval.tool_input.clone(),
    )
    .to_text()
}

fn detail(approval: &Approval) -> String {
    match approval_detail("", Some((approval.clone(), as_json(approval))), true, false) {
        WebAnswer::Page(page) => page,
        other => panic!("no page: {other:?}"),
    }
}

fn dashboard_template() -> String {
    dashboard("", &vec![], &vec![], true, false)
}

fn detail_template() -> String {
    let mut registry = ApprovalRegistry::new();
    detail(&register(&mut registry, "template", Tool::Bash, object("command", "ls")))
}

// --- pages ---

#[test]
fn mobile_approval_queue_renders_readwrite_shell() {
    let body = approval_queue(true);
    assert!(body.contains("id=\"queue-state\""));
    assert!(body.contains("id=\"queue-actions\""));
    assert!(body.contains("aria-keyshortcuts=\"a\""));
    assert!(body.contains("aria-keyshortcuts=\"d\""));
    assert!(body.contains("/api/v1/approvals/pending"));
}

#[test]
fn mobile_approval_queue_hides_readonly_actions() {
    let body = approval_queue(false);
    assert!(body.contains("id=\"readonly-status\""));
    assert!(!body.contains("id=\"queue-actions\""));
    assert!(!body.contains("aria-keyshortcuts"));
}

#[test]
fn approval_detail_json_cannot_close_its_script_element() {
    let mut registry = ApprovalRegistry::new();
    let attacker_command = "printf '</script><script>grantAuthority()</script>&>\u{2028}\u{2029}'";
    let approval = register(
        &mut registry,
        "malicious-json",
        Tool::Bash,
        object("command", attacker_command),
    );
    let body = detail(&approval);
    let payload = body
        .split_once("<script type=\"application/json\" id=\"approval-data\">")
        .expect("detail page should contain approval JSON")
        .1
        .split_once("</script>\n<script>")
        .expect("approval JSON script should have a fixed closing delimiter")
        .0;

    assert!(
        !payload.to_ascii_lowercase().contains("</script"),
        "attacker-controlled JSON must not contain a literal closing script sequence: {payload}"
    );
    for character in ['<', '>', '&', '\u{2028}', '\u{2029}'] {
        assert!(
            !payload.contains(character),
            "approval JSON must escape {character:?}: {payload}"
        );
    }
    let rendered = Json::from_text(payload).expect("escaped payload should remain valid JSON");
    assert_eq!(
        rendered.get("tool_input").unwrap().get_str("command"),
        Some(attacker_command)
    );
}

#[test]
fn script_text_is_read_back_by_a_reader_of_json() {
    for value in ["<a href=\"x\">&</a>", "\\u003c", "\\<\\\u{2028}", "\u{1}\n\u{2029}\u{7f}"] {
        let json = Json::object1(value, Json::from_str_slice(value)).to_text();
        let written = json_for_script(&json);
        assert!(!written.contains(['<', '>', '&', '\u{2028}', '\u{2029}']));
        assert_eq!(Json::from_text(&written).unwrap().to_text(), json);
    }
    assert_eq!(json_for_script("\"<\\\\u003c\""), "\"\\u003c\\\\u003c\"");
}

#[test]
fn dashboard_timed_controls_render_only_for_bash_approvals() {
    let mut registry = ApprovalRegistry::new();
    let bash = register(&mut registry, "bash-controls", Tool::Bash, object("command", "cargo test"));
    let write = register(&mut registry, "write-controls", Tool::Write, write_input());

    let page = dashboard("", &vec![], &registry.list_pending(), true, false);
    assert!(page.contains(&format!("showTimedApproval('{}')", id_text(&bash))));
    assert!(!page.contains(&format!("showTimedApproval('{}')", id_text(&write))));
}

#[test]
fn detail_timed_controls_render_only_for_bash_approvals() {
    let mut registry = ApprovalRegistry::new();
    let bash = register(
        &mut registry,
        "bash-detail-controls",
        Tool::Bash,
        object("command", "cargo test"),
    );
    let write = register(&mut registry, "write-detail-controls", Tool::Write, write_input());

    assert!(detail(&bash).contains(">Timed approve</button>"));
    assert!(!detail(&write).contains(">Timed approve</button>"));
}

fn assert_resolution_script_checks_http_errors(
    name: &str,
    template: &str,
    action_start: &str,
    action_end: &str,
) {
    let action = template
        .split_once(action_start)
        .unwrap_or_else(|| panic!("{name} approval action is missing"))
        .1
        .split_once(action_end)
        .unwrap_or_else(|| panic!("{name} approval action has no end"))
        .0;

    assert!(
        action.contains(".ok"),
        "{name} must check response.ok before treating an approval as resolved"
    );
    assert!(
        action.contains("catch"),
        "{name} must retain an actionable approval error when the request fails"
    );
    assert!(
        action.contains("showError(")
            && template.contains("function showError")
            && template.contains("role=\"alert\""),
        "{name} must show the failed approval action in a persistent alert"
    );
}

#[test]
fn dashboard_resolution_script_checks_http_errors() {
    assert_resolution_script_checks_http_errors(
        "dashboard",
        &dashboard_template(),
        "window.approveRow = async function",
        "window.showTimedApproval = function",
    );
}

#[test]
fn detail_resolution_script_checks_http_errors() {
    assert_resolution_script_checks_http_errors(
        "approval detail",
        &detail_template(),
        "window.doApprove = async function",
        "window.showTimedApproval = function",
    );
}

#[test]
fn dashboard_polling_adds_timed_controls_only_for_bash() {
    let template = dashboard_template();
    let dynamic_rows = template
        .split_once("function createApprovalRows")
        .expect("dashboard should render approval rows from polling")
        .1
        .split_once("function renderApprovals")
        .expect("dynamic approval row function should have an end")
        .0;

    assert!(
        dynamic_rows.contains("tool_name")
            && dynamic_rows.contains("Bash")
            && dynamic_rows.contains("showTimedApproval"),
        "polled dashboard rows must gate timed controls on Bash approvals"
    );
}

#[test]
fn all_approval_templates_expose_timed_and_one_time_keyboard_choices() {
    let templates = [
        ("dashboard", dashboard_template()),
        ("approval detail", detail_template()),
        ("mobile queue", approval_queue(true)),
    ];

    for (name, template) in templates {
        assert!(
            template.contains("key === 'a'") || template.contains("event.key === 'a'"),
            "{name} lost the lowercase-a one-time approval shortcut"
        );
        assert!(
            template.contains("key === 'A'") || template.contains("event.key === 'A'"),
            "{name} has no timed-approval submenu"
        );
        for (key, duration) in [
            ("1", "30m"),
            ("2", "1h"),
            ("3", "2h"),
            ("4", "6h"),
            ("5", "24h"),
        ] {
            assert!(
                template.contains(duration),
                "{name} does not expose {duration}"
            );
            assert!(
                template.contains(&format!("'{key}'")),
                "{name} does not expose key {key}"
            );
        }
    }
}

#[test]
fn dashboard_shows_sessions_and_approvals_letter_by_letter() {
    let mut registry = ApprovalRegistry::new();
    let approval = register(&mut registry, "r", Tool::Unknown("<b>".to_string()), Json::Null);
    let session = SessionView {
        session_id: SessionId::new("s&1"),
        project: "p".to_string(),
        config: SessionNotifyConfig { approval_mode: SessionApprovalMode::Remote },
        editor_type: Provider::Claude,
        status: EffectiveSessionStatus::Waiting { reason: Some("\"why\"".to_string()) },
        display_name: None,
    };
    let page = dashboard("a@b", &vec![session], &vec![approval.clone()], false, true);
    assert!(page.contains(&format!(
        "<tr data-approval=\"{}\" data-tool=\"&#60;b&#62;\"><td>&#60;b&#62;</td><td>null</td><td>/workspace</td><td></td></tr>\n",
        id_text(&approval)
    )));
    assert!(page.contains(
        "<tr><td>s&#38;1</td><td>p</td><td>waiting: &#34;why&#34;</td></tr>\n"
    ));
    assert!(page.contains("<p>Signed in as a@b</p>"));
    assert!(!page.contains("<script>"));
}

#[test]
fn detail_shows_the_input_and_what_comes_with_it() {
    let mut registry = ApprovalRegistry::new();
    let mut request = params("r", Tool::Write, write_input());
    request.context.extra = Some(ExtraContext::Diff { diff: "-a\n+b".to_string() });
    let approval = registry.register_at(request, now(), 0);
    let page = detail(&approval);
    assert!(page.contains(
        "<pre>{\n  &#34;content&#34;: &#34;text&#34;,\n  &#34;file_path&#34;: &#34;/workspace/file&#34;\n}</pre>"
    ));
    assert!(page.contains("<pre>-a\n+b</pre>"));
    assert_eq!(
        approval_detail("", None, true, false),
        WebAnswer::Line(404, "Approval not found")
    );
}

#[test]
fn login_page_offers_what_there_is() {
    let page = login_page(&vec!["github".to_string()], true);
    assert!(page.contains("<a href=\"/auth/start/github\">github</a>"));
    assert!(page.contains("action=\"/auth/login/basic\""));
    assert!(!login_page(&vec![], false).contains("<form"));
}

#[test]
fn attempts_to_sign_in_are_answered() {
    let form = BasicAuthForm { username: "u".to_string(), password: "p".to_string() };
    assert_eq!(form.username.len() + form.password.len(), 2);
    assert_eq!(
        basic_auth_login(SignIn::NotConfigured),
        WebAnswer::Line(404, "Auth not configured")
    );
    assert_eq!(
        basic_auth_login(SignIn::Refused),
        WebAnswer::GoTo("/auth/login?error=invalid")
    );
    assert_eq!(basic_auth_login(SignIn::NotStored), WebAnswer::Line(500, "Session error"));
    assert_eq!(basic_auth_login(SignIn::Stored), WebAnswer::GoTo("/approvals"));
}

#[test]
fn texts_are_escaped_for_scripts_and_pages() {
    assert_eq!(
        json_for_script("{\"a\":\"<>&\u{2028}\u{2029}é\"}"),
        "{\"a\":\"\\u003c\\u003e\\u0026\\u2028\\u2029é\"}"
    );
    assert_eq!(html_escape("<a b='c' d=\"e\">&"), "&#60;a b=&#39;c&#39; d=&#34;e&#34;&#62;&#38;");
}

// --- routes ---

#[test]
fn mobile_approval_queue_requires_web_auth() {
    let mounted = router(ApprovalFeatureMode::Readwrite, AuthMode::Token);
    let queue = mounted
        .into_iter()
        .find(|endpoint| endpoint.path() == "/approvals/queue")
        .expect("the queue is mounted");
    assert_eq!(queue.guard(AuthMode::Token), Guard::SignedIn);
    assert_eq!(web_gate(false), Some((307, "/auth/login")));
    assert_eq!(web_gate(true), None);
}

#[test]
fn endpoints_are_mounted_by_mode() {
    let count = |mode, auth| router(mode, auth).len();
    assert_eq!(count(ApprovalFeatureMode::Disabled, AuthMode::Off), 12);
    assert_eq!(count(ApprovalFeatureMode::Disabled, AuthMode::Token), 12);
    assert_eq!(count(ApprovalFeatureMode::Readonly, AuthMode::Off), 26);
    assert_eq!(count(ApprovalFeatureMode::Readwrite, AuthMode::Token), 31);
    assert_eq!(Endpoint::ApprovalResolve.method(), Method::Post);
    assert_eq!(Endpoint::UpdateSession.method(), Method::Put);
    assert_eq!(Endpoint::Mcp.method(), Method::Any);
    assert_eq!(Endpoint::Mcp.path(), "/api/v1/mcp");
    for endpoint in router(ApprovalFeatureMode::Readwrite, AuthMode::Token) {
        assert_eq!(endpoint.answers_below(), endpoint == Endpoint::Mcp);
    }
    assert_eq!(Endpoint::Health.guard(AuthMode::Token), Guard::Open);
    assert_eq!(Endpoint::GetApproval.guard(AuthMode::Token), Guard::Bearer);
    assert_eq!(Endpoint::GetApproval.guard(AuthMode::Off), Guard::Open);
}

#[test]
fn no_two_endpoints_answer_to_the_same_request() {
    let all = router(ApprovalFeatureMode::Readwrite, AuthMode::Token);
    for (i, one) in all.iter().enumerate() {
        for other in &all[i + 1..] {
            assert!(one.path() != other.path() || one.method() != other.method());
        }
    }
}

// --- decisions ---

fn decision(decision: ApprovalDecision, message: Option<&str>) -> ApprovalResolveRequest {
    ApprovalResolveRequest { decision, message: message.map(str::to_string), approve_for: None }
}

#[test]
fn invalid_timed_approval_requests_return_bad_request_without_resolving() {
    let mut registry = ApprovalRegistry::new();
    let approval = register(
        &mut registry,
        "request-invalid-timed",
        Tool::Bash,
        object("command", "cargo test"),
    );
    for body in [
        Err("unknown variant `90m`".to_string()),
        Ok(ApprovalResolveRequest {
            decision: ApprovalDecision::Deny,
            message: None,
            approve_for: Some(ApprovalGrantDuration::ThirtyMinutes),
        }),
    ] {
        let answer = handle_approval_resolve(&mut registry, approval.id, body);
        assert!(matches!(answer, Err(AppError::BadRequest(_))));
        assert_eq!(registry.get(approval.id).unwrap().status, ApprovalStatus::Pending);
    }
}

#[test]
fn decisions_become_statuses() {
    for (request, status) in [
        (
            decision(ApprovalDecision::Approve, Some("go")),
            ApprovalStatus::Approved { message: Some("go".to_string()) },
        ),
        (
            decision(ApprovalDecision::Deny, Some("no")),
            ApprovalStatus::Denied { reason: "no".to_string() },
        ),
        (
            decision(ApprovalDecision::Deny, None),
            ApprovalStatus::Denied { reason: String::new() },
        ),
        (decision(ApprovalDecision::Cancel, Some("x")), ApprovalStatus::Cancelled),
    ] {
        let mut registry = ApprovalRegistry::new();
        let approval = register(&mut registry, "r", Tool::Bash, object("command", "ls"));
        let answer = handle_approval_resolve(&mut registry, approval.id, Ok(request)).unwrap();
        assert_eq!(answer.status, status);
        assert_eq!(handle_get_approval(&registry, approval.id), Ok(answer));
        assert_eq!(handle_list_pending(&registry), []);
    }
}

#[test]
fn refused_decisions_are_answered_with_the_reason() {
    let mut registry = ApprovalRegistry::new();
    let write = register(&mut registry, "r", Tool::Write, write_input());
    let missing = "00000000-0000-0000-0000-0000000000ff".to_string();
    let timed = || ApprovalResolveRequest {
        decision: ApprovalDecision::Approve,
        message: None,
        approve_for: Some(ApprovalGrantDuration::OneHour),
    };
    assert_eq!(
        handle_approval_resolve_at(&mut registry, write.id, Ok(timed()), 0),
        Err(AppError::BadRequest(
            "temporary grants are supported only for Bash approvals".to_string()
        ))
    );
    assert_eq!(
        handle_approval_resolve_at(&mut registry, 0xff, Ok(timed()), 0),
        Err(AppError::ApprovalNotFound(missing.clone()))
    );
    let once = decision(ApprovalDecision::Approve, None);
    assert_eq!(
        handle_approval_resolve_at(&mut registry, 0xff, Ok(once), 0),
        Err(AppError::ApprovalNotFound(missing.clone()))
    );
    let with_deny = ApprovalResolveRequest {
        decision: ApprovalDecision::Deny,
        message: None,
        approve_for: Some(ApprovalGrantDuration::OneHour),
    };
    assert_eq!(
        handle_approval_resolve_at(&mut registry, write.id, Ok(with_deny), 0),
        Err(AppError::BadRequest(
            "approve_for is valid only with an approve decision".to_string()
        ))
    );
    assert_eq!(
        handle_get_approval(&registry, 0xff),
        Err(AppError::ApprovalNotFound(missing))
    );
    assert_eq!(handle_list_pending(&registry), [write]);
}

#[test]
fn timed_decision_lets_the_next_call_through() {
    let mut registry = ApprovalRegistry::new();
    let command = || object("command", "cargo test");
    let mut request = params("one", Tool::Bash, command());
    request.session_id = SessionId::new("s");
    let first = registry.register_at(request, now(), 0);
    let timed = ApprovalResolveRequest {
        decision: ApprovalDecision::Approve,
        message: None,
        approve_for: Some(ApprovalGrantDuration::ThirtyMinutes),
    };
    handle_approval_resolve_at(&mut registry, first.id, Ok(timed), 5).unwrap();
    for (name, at, approved) in
        [("two", 1_800_000_000_004, true), ("three", 1_800_000_000_005, false)]
    {
        let mut request = params(name, Tool::Bash, command());
        request.session_id = SessionId::new("s");
        let next = registry.register_at(request, now(), at);
        assert_eq!(next.status.is_resolved(), approved);
    }
}

// --- waits ---

#[test]
fn wait_is_answered_at_once_or_watched() {
    let mut registry = ApprovalRegistry::new();
    let approval = register(&mut registry, "r", Tool::Bash, object("command", "ls"));
    let mut watcher = match begin_approval_wait_at(&mut registry, approval.id, 7).unwrap() {
        WaitStart::Watch(watcher) => watcher,
        WaitStart::Answer(..) => panic!("nothing is decided yet"),
    };
    // The poll was noted: the approval is orphaned once polls stay out.
    assert_eq!(registry.evict_orphaned_at(8, 0), 1);
    assert!(watcher.has_changed().unwrap());
    let seen = watcher.borrow_and_update().clone();
    let (code, answer) = finish_approval_wait(true, seen);
    assert_eq!((code, answer.status), (200, ApprovalStatus::Cancelled));
    match begin_approval_wait(&mut registry, approval.id).unwrap() {
        WaitStart::Answer(code, answer) => {
            assert_eq!((code, answer.status), (200, ApprovalStatus::Cancelled));
        }
        WaitStart::Watch(_) => panic!("the decision is there"),
    }
    assert!(matches!(
        begin_approval_wait_at(&mut registry, 1, 7),
        Err(AppError::ApprovalNotFound(id)) if id == "00000000-0000-0000-0000-000000000001"
    ));
}

#[test]
fn wait_without_a_decision_goes_on() {
    for (changed, status) in [
        (false, ApprovalStatus::Pending),
        (true, ApprovalStatus::Pending),
        (false, ApprovalStatus::Cancelled),
    ] {
        let (code, answer) = finish_approval_wait(changed, status);
        assert_eq!((code, answer.status), (202, ApprovalStatus::Pending));
    }
}

#[test]
fn questions_are_waited_for_and_decided_alike() {
    let (code, answer) = finish_question_wait(true, QuestionStatus::Cancelled);
    assert_eq!((code, answer.status), (200, QuestionStatus::Cancelled));
    let (code, answer) = finish_question_wait(false, QuestionStatus::Cancelled);
    assert_eq!((code, answer.status), (202, QuestionStatus::Pending));
    assert_eq!(begin_question_wait(1, Some(QuestionStatus::Pending)), Ok(None));
    let (code, answer) =
        begin_question_wait(1, Some(QuestionStatus::Cancelled)).unwrap().unwrap();
    assert_eq!((code, answer.status), (200, QuestionStatus::Cancelled));
    let missing = "00000000-0000-0000-0000-000000000001".to_string();
    assert_eq!(begin_question_wait(1, None), Err(AppError::QuestionNotFound(missing.clone())));
    assert_eq!(handle_get_question(1, None), Err(AppError::QuestionNotFound(missing)));
    let request = |decision, answers| QuestionResolveRequest {
        decision,
        answers,
        reason: Some("why".to_string()),
    };
    assert_eq!(
        question_status(request(QuestionDecision::Answer, None)),
        QuestionStatus::Answered { answers: vec![] }
    );
    assert_eq!(
        question_status(request(QuestionDecision::Answer, Some(vec![vec!["a".to_string()]]))),
        QuestionStatus::Answered { answers: vec![vec!["a".to_string()]] }
    );
    assert_eq!(
        question_status(request(QuestionDecision::Reject, None)),
        QuestionStatus::Rejected { reason: Some("why".to_string()) }
    );
    assert_eq!(
        question_status(request(QuestionDecision::Cancel, None)),
        QuestionStatus::Cancelled
    );
}

// --- sessions ---

fn question(headers: &[&str]) -> PendingQuestion {
    PendingQuestion {
        id: 1,
        request_id: "q".to_string(),
        session_id: SessionId::new("s"),
        session_display_name: "s".to_string(),
        project: "p".to_string(),
        question_request_id: "oc".to_string(),
        questions: headers
            .iter()
            .map(|header| QuestionInfo {
                question: "Continue?".to_string(),
                header: header.to_string(),
                options: vec![],
                multiple: None,
                custom: None,
            })
            .collect(),
        provider: "opencode".to_string(),
        status: QuestionStatus::Pending,
    }
}

fn waiting(reason: &str) -> EffectiveSessionStatus {
    EffectiveSessionStatus::Waiting { reason: Some(reason.to_string()) }
}

#[test]
fn pending_approval_overrides_session_status_to_waiting() {
    let mut registry = ApprovalRegistry::new();
    let mut request = params("req-1", Tool::Bash, object("command", "rm -rf /"));
    request.session_id = SessionId::new("ses_approval");
    registry.register_at(request, now(), 0);
    let sessions = vec![StoredSession {
        session_id: SessionId::new("ses_approval"),
        project: "/tmp/proj".to_string(),
        config: SessionNotifyConfig { approval_mode: SessionApprovalMode::Remote },
        editor_type: Provider::OpenCode,
        stored_status: SessionStatus::Active,
        waiting_reason: None,
        display_name: Some("Test Session".to_string()),
    }];
    let views = build_session_views(&sessions, &registry, &vec![None]);
    assert_eq!(views.len(), 1);
    assert_eq!(views[0].display_name.as_deref(), Some("Test Session"));
    assert_eq!(views[0].editor_type, Provider::OpenCode);
    assert_eq!(
        views[0].status,
        waiting("Pending approval: Bash — {\"command\":\"rm -rf /\"}"),
        "pending approval should override to waiting"
    );
}

#[test]
fn session_status_combines_what_is_known() {
    let mut registry = ApprovalRegistry::new();
    let approval = register(&mut registry, "r", Tool::Bash, object("command", "ls"));
    let asked = question(&["Plan", "Other"]);
    let (active, ended, idle, reported) =
        (SessionStatus::Active, SessionStatus::Ended, SessionStatus::Idle, SessionStatus::Waiting);
    let effective = resolve_effective_status;
    assert_eq!(
        effective(ended, Some("x"), Some(&approval), Some(&asked)),
        EffectiveSessionStatus::Ended
    );
    assert_eq!(
        effective(idle, None, Some(&approval), Some(&asked)),
        waiting("Pending approval: Bash — {\"command\":\"ls\"}")
    );
    assert_eq!(effective(active, None, None, Some(&asked)), waiting("Plan question: Plan"));
    assert_eq!(
        effective(active, None, None, Some(&question(&[]))),
        waiting("Plan question: question")
    );
    assert_eq!(effective(reported, Some("x"), None, None), waiting("x"));
    assert_eq!(
        effective(reported, None, None, None),
        EffectiveSessionStatus::Waiting { reason: None }
    );
    assert_eq!(effective(active, Some("x"), None, None), EffectiveSessionStatus::Active);
    assert_eq!(effective(idle, None, None, None), EffectiveSessionStatus::Idle);
}

#[test]
fn long_inputs_are_cut_after_sixty_characters() {
    let mut registry = ApprovalRegistry::new();
    // The text of the input has two quotation marks around these letters.
    for (name, letters, shown) in [
        ("58", "x".repeat(58), format!("\"{}\"", "x".repeat(58))),
        ("59", "x".repeat(59), format!("\"{}...", "x".repeat(59))),
        ("é", "é".repeat(40), format!("\"{}\"...", "é".repeat(40))),
    ] {
        let approval =
            register(&mut registry, name, Tool::Write, Json::from_str_slice(&letters));
        assert_eq!(
            resolve_effective_status(SessionStatus::Active, None, Some(&approval), None),
            waiting(&format!("Pending approval: Write — {shown}"))
        );
    }
}

#[test]
fn sessions_are_looked_up_or_not_found() {
    let config = SessionNotifyConfig { approval_mode: SessionApprovalMode::Terminal };
    let mode = handle_get_approval_mode("s", Some(config)).unwrap();
    assert_eq!(mode.approval_mode, SessionApprovalMode::Terminal);
    let missing = || AppError::SessionNotFound("s".to_string());
    assert_eq!(handle_get_approval_mode("s", None), Err(missing()));
    assert_eq!(handle_update_session("s", Some(config)), Ok(config));
    assert_eq!(handle_update_session("s", None), Err(missing()));
}

// --- storage ---

#[test]
fn state_is_kept_without_grants() {
    let mut registry = ApprovalRegistry::new();
    let source = register(&mut registry, "one", Tool::Bash, object("command", "ls"));
    let kept = register(&mut registry, "two", Tool::Write, write_input());
    registry
        .resolve_with_grant_at(
            source.id,
            ApprovalStatus::Approved { message: None },
            ApprovalGrantDuration::TwentyFourHours,
            0,
        )
        .unwrap();
    let state = snapshot(&registry, vec![], Some(Json::Bool(true)), None);
    assert_eq!(state.pending_approvals, [kept.clone()]);
    assert_eq!(state.timed_approval_grants, []);
    assert_eq!(state.notify_config, Some(Json::Bool(true)));
    let mut restored = ApprovalRegistry::new();
    restore(&mut restored, state.pending_approvals);
    assert_eq!(restored.list_pending(), [kept]);
    restore(&mut restored, vec![]);
    assert_eq!(restored.purge_expired_grants_at(u128::MAX), 0);
}

#[test]
fn kept_state_is_missing_read_or_faulty() {
    assert_eq!(loaded(StateFile::Missing), Ok(None));
    assert_eq!(
        loaded(StateFile::Unreadable("denied".to_string())),
        Err("denied".to_string())
    );
    assert_eq!(loaded(StateFile::Malformed("eof".to_string())), Err("eof".to_string()));
    let state = snapshot(&ApprovalRegistry::new(), vec![], None, None);
    let same = snapshot(&ApprovalRegistry::new(), vec![], None, None);
    assert_eq!(loaded(StateFile::Read(state)), Ok(Some(same)));
    assert_eq!(NullStorage.load(), None);
    let file = LocalFileStorage::new(std::path::PathBuf::from("/state.json"));
    assert_eq!(file.path(), std::path::Path::new("/state.json"));
}
