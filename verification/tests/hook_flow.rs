//! What the hook does with a call.

use agent_hub::hook::config::{
    compile_config, load_tool_config, split_tool_entry, accept_tool_entry, ConfigFile,
    DefaultAction, ResolvedAction, RuleAction, RuleJson, ToolConfigJson, ToolMatcher, ToolPattern,
};
use agent_hub::hook::output::{extract_permission, format_output, OutputFormat};
use agent_hub::hook::remote::{
    after_attempt, after_registration, after_wait, before_wait, prepare_registration,
    registration_with_id, HookInput, Poll, RegisterOutcome, RemoteStep, Resolution, RetryStep,
    WaitOutcome, MAX_ATTEMPTS,
};
use agent_hub::hook::run::{
    after_delegate, after_mode, approval_mode_url, delegate_result, delegate_result_given,
    delegate_words, execute_simple_action, remote_output, route, ApproveStep, DelegateOutput,
    DelegateResult, DelegateRun, DelegateStep, ModeReply, SimpleStep,
};
use agent_hub::json::Json;

fn seconds(n: u128) -> u128 {
    n * 1_000_000_000
}

fn payload() -> HookInput {
    HookInput {
        session_id: Some("s1".to_string()),
        conversation_id: Some("c1".to_string()),
        hook_event_name: Some("PreToolUse".to_string()),
        tool_name: Some("Bash".to_string()),
        tool_input: Some(Json::object1("command", Json::from_str_slice("ls"))),
        cwd: Some("/work".to_string()),
    }
}

fn empty_payload() -> HookInput {
    HookInput {
        session_id: None,
        conversation_id: None,
        hook_event_name: None,
        tool_name: None,
        tool_input: None,
        cwd: None,
    }
}

fn resolution(status_type: &str) -> Resolution {
    Resolution { status_type: status_type.to_string(), message: None, reason: None }
}

fn rule(tools: &[&str], action: RuleAction, command: Option<&str>) -> RuleJson {
    RuleJson {
        tools: tools.iter().map(|tool| tool.to_string()).collect(),
        action,
        command: command.map(str::to_string),
        message: None,
    }
}

fn config(rules: Vec<RuleJson>) -> ToolConfigJson {
    ToolConfigJson { version: 1, default: DefaultAction::Ask, rules }
}

// --- rules as they are written ---

#[test]
fn entries_are_split_at_their_brackets() {
    assert_eq!(
        split_tool_entry("Write(regex:a(b)c)"),
        Ok(ToolMatcher {
            name: "Write".to_string(),
            pattern: Some(ToolPattern::Regex("a(b)c".to_string())),
        })
    );
    assert_eq!(
        split_tool_entry("Write(src/**)"),
        Ok(ToolMatcher {
            name: "Write".to_string(),
            pattern: Some(ToolPattern::Glob("src/**".to_string())),
        })
    );
    assert_eq!(
        split_tool_entry("Write(a"),
        Err("malformed tool pattern (missing closing paren): Write(a".to_string())
    );
    assert_eq!(split_tool_entry("(a)"), Err("empty tool name or pattern: (a)".to_string()));
    assert_eq!(split_tool_entry("W()"), Err("empty tool name or pattern: W()".to_string()));
    assert_eq!(split_tool_entry("W)").unwrap().name, "W)");
}

#[test]
fn patterns_with_a_fault_are_refused() {
    for (entry, expected) in [
        ("W(regex:x)", "invalid regex in 'W(regex:x)': odd"),
        ("W(x)", "invalid glob in 'W(x)': odd"),
    ] {
        let matcher = split_tool_entry(entry).unwrap();
        assert_eq!(
            accept_tool_entry(entry, matcher, Some("odd".to_string())),
            Err(expected.to_string())
        );
    }
    let refused = compile_config(config(vec![rule(&["W(a{b)"], RuleAction::Allow, None)]));
    assert!(refused.unwrap_err().starts_with("invalid glob in 'W(a{b)': "));
    let refused = compile_config(config(vec![rule(&["W(regex:[a)"], RuleAction::Allow, None)]));
    assert!(refused.unwrap_err().starts_with("invalid regex in 'W(regex:[a)': "));
}

#[test]
fn rule_that_delegates_names_a_command() {
    let rules = vec![
        rule(&["Read"], RuleAction::Allow, None),
        rule(&["Ba\"sh", "W("], RuleAction::Delegate, None),
    ];
    assert_eq!(
        compile_config(config(rules)),
        Err("rule for [\"Ba\\\"sh\", \"W(\"] has action 'delegate' but no 'command'".to_string())
    );
}

#[test]
fn rules_are_loaded_or_the_first_fault_is_told() {
    let rules = vec![
        rule(&["Bash"], RuleAction::Delegate, Some("dippy --hook")),
        rule(&["Write", "Edit"], RuleAction::Deny, None),
    ];
    let loaded = load_tool_config("tools.json", ConfigFile::Read(config(rules))).unwrap();
    assert_eq!(loaded.rules.len(), 2);
    assert_eq!(route(&loaded, &payload()), ResolvedAction::Delegate("dippy --hook".to_string()));
    assert_eq!(route(&loaded, &empty_payload()), ResolvedAction::Ask);
    assert_eq!(
        load_tool_config("tools.json", ConfigFile::Unreadable("gone".to_string())),
        Err("failed to read config tools.json: gone".to_string())
    );
    assert_eq!(
        load_tool_config("tools.json", ConfigFile::Malformed("eof".to_string())),
        Err("failed to parse config tools.json: eof".to_string())
    );
}

// --- what is written ---

#[test]
fn cursor_is_told_the_decision() {
    let cursor = OutputFormat::Cursor;
    assert_eq!(
        format_output(&cursor, "any", "approved", Some("m"), None).unwrap(),
        "{\"agent_message\":\"m\",\"permission\":\"allow\",\"user_message\":\"m\"}"
    );
    assert_eq!(
        format_output(&cursor, "any", "denied", Some("m"), Some("r")).unwrap(),
        "{\"agent_message\":\"r\",\"permission\":\"deny\",\"user_message\":\"r\"}"
    );
    assert_eq!(
        format_output(&cursor, "any", "cancelled", None, None),
        Err("unexpected approval status: cancelled".to_string())
    );
}

#[test]
fn claude_is_told_the_decision() {
    let claude = OutputFormat::Claude;
    assert_eq!(
        format_output(&claude, "PreToolUse", "approved", None, Some("r")).unwrap(),
        "{\"hookSpecificOutput\":{\"hookEventName\":\"PreToolUse\",\"permissionDecision\":\"allow\",\"permissionDecisionReason\":\"\"}}"
    );
    assert_eq!(
        format_output(&claude, "PreToolUse", "denied", None, None).unwrap(),
        "{\"hookSpecificOutput\":{\"hookEventName\":\"PreToolUse\",\"permissionDecision\":\"deny\",\"permissionDecisionReason\":\"denied via remote approval\"}}"
    );
    assert_eq!(
        format_output(&claude, "PermissionRequest", "approved", None, None).unwrap(),
        "{\"hookSpecificOutput\":{\"decision\":{\"behavior\":\"allow\"},\"hookEventName\":\"PermissionRequest\"}}"
    );
    assert_eq!(
        format_output(&claude, "PermissionRequest", "denied", Some("m"), None).unwrap(),
        "{\"hookSpecificOutput\":{\"decision\":{\"behavior\":\"deny\",\"message\":\"m\"},\"hookEventName\":\"PermissionRequest\"}}"
    );
    assert_eq!(
        format_output(&claude, "PostToolUse", "approved", None, None),
        Err("unsupported hook event: PostToolUse".to_string())
    );
    assert_eq!(
        format_output(&claude, "PreToolUse", "odd", None, None),
        Err("unexpected approval status: odd".to_string())
    );
    assert_eq!(
        format_output(&claude, "PermissionRequest", "odd", None, None),
        Err("unexpected approval status: odd".to_string())
    );
}

#[test]
fn written_decisions_are_read_back() {
    for format in [OutputFormat::Cursor, OutputFormat::Claude] {
        for (status, permission) in [("approved", "allow"), ("denied", "deny")] {
            let text = format_output(&format, "PreToolUse", status, None, None).unwrap();
            let document = Json::from_text(&text).unwrap();
            assert_eq!(extract_permission(&format, &document), Some(permission));
            assert_eq!(document.to_text(), text);
        }
    }
}

// --- asking the server ---

#[test]
fn server_is_asked_about_the_call() {
    let asked =
        registration_with_id("http://hub/", &payload(), "request".to_string()).unwrap();
    assert_eq!(asked.url, "http://hub/api/v1/hooks/approval");
    assert_eq!(asked.request.request_id, "request");
    assert_eq!(asked.request.session_id, "s1");
    assert_eq!(asked.request.cwd, "/work");
    assert_eq!(asked.request.tool_name, "Bash");
    assert_eq!(asked.request.tool_input.to_text(), "{\"command\":\"ls\"}");
}

#[test]
fn what_a_call_does_not_say_has_a_stand_in() {
    let mut call = empty_payload();
    assert_eq!(
        prepare_registration("http://hub", &call),
        Err("missing session_id/conversation_id".to_string())
    );
    call.conversation_id = Some("c1".to_string());
    let asked = prepare_registration("http://hub", &call).unwrap();
    assert_eq!(asked.request.session_id, "c1");
    assert_eq!(asked.request.cwd, ".");
    assert_eq!(asked.request.tool_name, "unknown");
    assert_eq!(asked.request.tool_input.to_text(), "{}");
    assert_eq!(asked.request.request_id.len(), 36);
    assert_eq!(asked.request.request_id.as_bytes()[14], b'4');
    let again = prepare_registration("http://hub", &call).unwrap();
    assert_ne!(again.request.request_id, asked.request.request_id);
}

#[test]
fn registration_is_over_waits_or_fails() {
    let read = |status: &str| RegisterOutcome::Read { id: 1, resolution: resolution(status) };
    assert_eq!(
        after_registration("http://hub/", 600, seconds(1), read("approved")),
        RemoteStep::Finish(Ok(resolution("approved")))
    );
    assert_eq!(
        after_registration("http://hub/", 600, seconds(1), read("pending")),
        RemoteStep::Wait(Poll {
            wait_url:
                "http://hub/api/v1/approvals/00000000-0000-0000-0000-000000000001/wait".to_string(),
            deadline: seconds(601),
        })
    );
    for (outcome, fault) in [
        (RegisterOutcome::Unsent("x".to_string()), "failed to register approval: x"),
        (
            RegisterOutcome::Refused("403 Forbidden".to_string()),
            "server returned 403 Forbidden for approval registration",
        ),
        (RegisterOutcome::Malformed("x".to_string()), "failed to parse approval response: x"),
    ] {
        assert_eq!(
            after_registration("http://hub", 600, 0, outcome),
            RemoteStep::Finish(Err(fault.to_string()))
        );
    }
}

#[test]
fn wait_goes_on_while_pending_and_ends_at_the_deadline() {
    let poll = || Poll { wait_url: "u".to_string(), deadline: 10 };
    assert_eq!(before_wait(poll(), 9), RemoteStep::Wait(poll()));
    assert_eq!(
        before_wait(poll(), 10),
        RemoteStep::Finish(Err("approval timed out".to_string()))
    );
    let read = |code, status: &str| WaitOutcome::Read { code, resolution: resolution(status) };
    assert_eq!(after_wait(poll(), read(202, "approved")), RemoteStep::Wait(poll()));
    assert_eq!(after_wait(poll(), read(200, "pending")), RemoteStep::Wait(poll()));
    assert_eq!(
        after_wait(poll(), read(200, "denied")),
        RemoteStep::Finish(Ok(resolution("denied")))
    );
    assert_eq!(
        after_wait(poll(), WaitOutcome::Unsent("x".to_string())),
        RemoteStep::Finish(Err("wait request failed: x".to_string()))
    );
    assert_eq!(
        after_wait(poll(), WaitOutcome::Malformed("x".to_string())),
        RemoteStep::Finish(Err("failed to parse wait response: x".to_string()))
    );
}

#[test]
fn attempts_are_three_at_most() {
    let mut attempt = 1;
    let mut notices = Vec::new();
    let end = loop {
        match after_attempt(attempt, Err(format!("fault {attempt}"))) {
            RetryStep::Again { attempt: next, notice } => {
                attempt = next;
                notices.push(notice);
            }
            RetryStep::Finish(end) => break end,
        }
    };
    assert_eq!(attempt, MAX_ATTEMPTS);
    assert_eq!(end, Err("failed after 3 attempts: fault 3".to_string()));
    assert_eq!(
        notices,
        [
            "attempt 1/3 failed: fault 1, retrying in 2s",
            "attempt 2/3 failed: fault 2, retrying in 2s",
        ]
    );
    assert_eq!(
        after_attempt(2, Ok(resolution("approved"))),
        RetryStep::Finish(Ok(resolution("approved")))
    );
}

// --- approve ---

#[test]
fn approval_mode_decides_where_to_ask() {
    assert_eq!(
        approval_mode_url("http://hub//", &payload()).unwrap(),
        "http://hub/api/v1/sessions/s1/approval-mode"
    );
    assert_eq!(
        approval_mode_url("http://hub", &empty_payload()),
        Err("missing session_id/conversation_id in payload".to_string())
    );
    assert_eq!(
        after_mode("s1", ModeReply::Mode("terminal".to_string())),
        Ok(ApproveStep::FallThrough)
    );
    assert_eq!(
        after_mode("s1", ModeReply::Mode("remote".to_string())),
        Ok(ApproveStep::AskRemote(None))
    );
    assert_eq!(
        after_mode("s1", ModeReply::Refused("404 Not Found".to_string())),
        Ok(ApproveStep::AskRemote(Some(
            "session s1 not found on server (404 Not Found), defaulting to remote"
                .to_string()
        )))
    );
    assert_eq!(
        after_mode("s1", ModeReply::Unsent("x".to_string())),
        Err("failed to check approval mode: x".to_string())
    );
    assert_eq!(
        after_mode("s1", ModeReply::Malformed("x".to_string())),
        Err("failed to parse approval mode: x".to_string())
    );
}

#[test]
fn answer_of_the_server_is_passed_on() {
    let said = Resolution {
        status_type: "denied".to_string(),
        message: Some("m".to_string()),
        reason: Some("r".to_string()),
    };
    let text = remote_output(&OutputFormat::Cursor, &payload(), Ok(said)).unwrap();
    assert_eq!(
        text,
        "{\"agent_message\":\"r\",\"permission\":\"deny\",\"user_message\":\"r\"}"
    );
    assert_eq!(
        remote_output(&OutputFormat::Cursor, &payload(), Err("x".to_string())),
        Err("x".to_string())
    );
}

// --- delegate ---

#[test]
fn simple_actions_print_or_ask() {
    let claude = OutputFormat::Claude;
    let printed = |step: SimpleStep| match step {
        SimpleStep::Print(text) => text.unwrap(),
        SimpleStep::AskRemote => panic!("nothing was printed"),
    };
    let text = printed(execute_simple_action(&ResolvedAction::Allow, &claude, &empty_payload()));
    assert!(text.contains("\"permissionDecision\":\"allow\""));
    let text =
        printed(execute_simple_action(&ResolvedAction::Deny(None), &claude, &empty_payload()));
    assert!(text.contains("\"permissionDecisionReason\":\"denied by policy\""));
    let said = ResolvedAction::Deny(Some("use trash".to_string()));
    let text = printed(execute_simple_action(&said, &claude, &empty_payload()));
    assert!(text.contains("\"permissionDecisionReason\":\"use trash\""));
    assert_eq!(
        execute_simple_action(&ResolvedAction::Ask, &claude, &empty_payload()),
        SimpleStep::AskRemote
    );
}

#[test]
fn delegate_command_is_split_into_words() {
    assert_eq!(
        delegate_words("  dippy\t--hook \u{a0}x\n").unwrap(),
        ["dippy", "--hook", "x"]
    );
    assert_eq!(delegate_words(" \n"), Err("empty delegate command".to_string()));
}

fn ended(exit_code: Option<i32>, stdout: &str) -> DelegateRun {
    DelegateRun::Ended(DelegateOutput {
        exit_code,
        success: exit_code == Some(0),
        status: "exit status: 1".to_string(),
        stdout: stdout.to_string(),
    })
}

#[test]
fn delegate_is_read_by_its_exit_code_and_answer() {
    let cursor = OutputFormat::Cursor;
    let answer = " \n{\"permission\": \"ask\"}\n";
    assert_eq!(
        delegate_result(&cursor, ended(Some(0), answer)).unwrap(),
        DelegateResult { permission: Some("ask".to_string()), raw_output: answer.to_string() }
    );
    assert_eq!(
        delegate_result(&cursor, ended(Some(0), "{}")).unwrap().permission,
        None
    );
    assert_eq!(
        delegate_result(&cursor, ended(Some(2), "not json")).unwrap(),
        DelegateResult { permission: Some("deny".to_string()), raw_output: "not json".to_string() }
    );
    assert_eq!(
        delegate_result(&cursor, ended(None, answer)),
        Err("delegate exited with status exit status: 1".to_string())
    );
    assert!(delegate_result(&cursor, ended(Some(0), "not json"))
        .unwrap_err()
        .starts_with("failed to parse delegate output: "));
    assert_eq!(
        delegate_result_given(&cursor, ended(Some(0), ""), Err("odd".to_string())),
        Err("failed to parse delegate output: odd".to_string())
    );
    for (run, fault) in [
        (
            DelegateRun::NotSpawned { program: "p".to_string(), fault: "x".to_string() },
            "failed to spawn delegate 'p': x",
        ),
        (DelegateRun::NotFed("x".to_string()), "failed to write to delegate stdin: x"),
        (DelegateRun::NotEnded("x".to_string()), "delegate command failed: x"),
        (DelegateRun::NotText("x".to_string()), "delegate output is not valid UTF-8: x"),
    ] {
        assert_eq!(delegate_result(&cursor, run), Err(fault.to_string()));
    }
}

#[test]
fn word_of_a_delegate_stands_where_it_decides() {
    let result = |permission: Option<&str>| DelegateResult {
        permission: permission.map(str::to_string),
        raw_output: "raw".to_string(),
    };
    let default = DefaultAction::Deny;
    for permission in ["allow", "deny"] {
        assert_eq!(
            after_delegate(result(Some(permission)), &default),
            DelegateStep::Print("raw".to_string())
        );
    }
    assert_eq!(
        after_delegate(result(Some("ask")), &default),
        DelegateStep::Act(ResolvedAction::Ask)
    );
    assert_eq!(
        after_delegate(result(None), &default),
        DelegateStep::Act(ResolvedAction::Deny(None))
    );
    assert_eq!(
        after_delegate(result(Some("maybe")), &default),
        DelegateStep::Fail("unexpected permission from delegate: maybe".to_string())
    );
}
