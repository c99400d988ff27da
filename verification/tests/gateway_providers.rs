//! What the providers send and are told.

use agent_hub::gateway::providers::{claude_code, cursor, opencode};
use agent_hub::gateway::types::{
    DecisionStatus, HookOutput, ParseError, ToolCall, ToolHookEvent,
    APPROVAL_PIPELINE_ERROR_MESSAGE, APPROVAL_TIMEOUT_MESSAGE,
};
use agent_hub::json::Json;
use agent_hub::paths::normalize_path;
use agent_hub::protocol::session::SessionId;
use agent_hub::protocol::tool::Tool;

fn tool_call() -> ToolCall {
    ToolCall { tool: Tool::Bash, input: Json::object1("command", Json::from_str_slice("ls")) }
}

fn event(hook_event_name: &str) -> ToolHookEvent {
    ToolHookEvent {
        session_id: SessionId::new("test-session"),
        session_display_name: "test".to_string(),
        tool_call: tool_call(),
        cwd: "/tmp".to_string(),
        workspace_roots: vec!["/tmp".to_string()],
        hook_event_name: hook_event_name.to_string(),
    }
}

fn outcome(status: DecisionStatus) -> HookOutput {
    HookOutput { status, message: None }
}

fn approved() -> HookOutput {
    outcome(DecisionStatus::Approved)
}

fn denied() -> HookOutput {
    outcome(DecisionStatus::Denied)
}

fn read(text: &str) -> Json {
    Json::from_text(text).unwrap()
}

fn hook_output(text: &str) -> Json {
    read(text).get("hookSpecificOutput").unwrap().clone()
}

// --- the terminal agent ---

#[test]
fn claude_output_pretooluse_pascal_case() {
    let v = hook_output(&claude_code::format_output(&event("PreToolUse"), &approved()));
    assert_eq!(v.get_str("hookEventName"), Some("PreToolUse"));
    assert_eq!(v.get_str("permissionDecision"), Some("allow"));
}

#[test]
fn claude_output_pretooluse_camel_case() {
    let v = hook_output(&claude_code::format_output(&event("preToolUse"), &approved()));
    assert_eq!(v.get_str("hookEventName"), Some("PreToolUse"));
    assert_eq!(v.get_str("permissionDecision"), Some("allow"));
}

#[test]
fn claude_output_permissionrequest_pascal_case() {
    let v = hook_output(&claude_code::format_output(&event("PermissionRequest"), &denied()));
    assert_eq!(v.get_str("hookEventName"), Some("PermissionRequest"));
    assert_eq!(v.get("decision").unwrap().get_str("behavior"), Some("deny"));
}

#[test]
fn claude_output_permissionrequest_camel_case() {
    let v = hook_output(&claude_code::format_output(&event("permissionRequest"), &approved()));
    assert_eq!(v.get_str("hookEventName"), Some("PermissionRequest"));
    assert_eq!(v.get("decision").unwrap().get_str("behavior"), Some("allow"));
}

#[test]
fn claude_output_unsupported_event_falls_to_pretooluse() {
    let v = hook_output(&claude_code::format_output(&event("PostToolUse"), &approved()));
    assert_eq!(v.get_str("hookEventName"), Some("PreToolUse"));
}

#[test]
fn claude_timeout_and_pipeline_error_deny_with_exact_messages() {
    for (status, message) in [
        (DecisionStatus::TimedOut, APPROVAL_TIMEOUT_MESSAGE),
        (DecisionStatus::PipelineError, APPROVAL_PIPELINE_ERROR_MESSAGE),
    ] {
        let output = outcome(status);
        let v = hook_output(&claude_code::format_output(&event("PreToolUse"), &output));
        assert_eq!(v.get_str("permissionDecision"), Some("deny"));
        assert_eq!(v.get_str("permissionDecisionReason"), Some(message));

        let v = hook_output(&claude_code::format_output(&event("PermissionRequest"), &output));
        assert_eq!(v.get("decision").unwrap().get_str("behavior"), Some("deny"));
        assert_eq!(v.get("decision").unwrap().get_str("message"), Some(message));
    }
}

#[test]
fn claude_explicit_denial_preserves_operator_reason() {
    let output = outcome(DecisionStatus::DeniedWithReason(
        "operator denied this action".to_string(),
    ));
    for event_name in ["PreToolUse", "PermissionRequest"] {
        let v = hook_output(&claude_code::format_output(&event(event_name), &output));
        let reason = if event_name == "PreToolUse" {
            v.get_str("permissionDecisionReason")
        } else {
            v.get("decision").unwrap().get_str("message")
        };
        assert_eq!(reason, Some("operator denied this action"));
    }
}

#[test]
fn claude_output_is_written_letter_by_letter() {
    let said = HookOutput {
        status: DecisionStatus::Approved,
        message: Some("say \"yes\"".to_string()),
    };
    assert_eq!(
        claude_code::format_output(&event("PreToolUse"), &said),
        "{\"hookSpecificOutput\":{\"hookEventName\":\"PreToolUse\",\"permissionDecision\":\"allow\",\"permissionDecisionReason\":\"say \\\"yes\\\"\"}}"
    );
    assert_eq!(
        claude_code::format_output(&event("PreToolUse"), &denied()),
        "{\"hookSpecificOutput\":{\"hookEventName\":\"PreToolUse\",\"permissionDecision\":\"deny\",\"permissionDecisionReason\":\"denied by policy\"}}"
    );
    assert_eq!(
        claude_code::format_output(&event("PERMISSIONREQUEST"), &denied()),
        "{\"hookSpecificOutput\":{\"hookEventName\":\"PermissionRequest\",\"decision\":{\"behavior\":\"deny\",\"message\":\"denied via remote approval\"}}}"
    );
}

#[test]
fn claude_call_has_its_directory_as_only_root() {
    let input = || claude_code::ClaudeCodeHookInput {
        session_id: SessionId::new("s"),
        cwd: "/work".to_string(),
        hook_event_name: "PreToolUse".to_string(),
    };
    let event = claude_code::convert(input(), Ok(tool_call()), "s in work".to_string()).unwrap();
    assert_eq!(event.workspace_roots, ["/work"]);
    assert_eq!(event.session_display_name, "s in work");
    assert_eq!(
        claude_code::convert(input(), Err("no command".to_string()), String::new()),
        Err(ParseError("no command".to_string()))
    );
}

// --- Cursor ---

#[test]
fn cursor_timeout_and_pipeline_error_deny_with_exact_messages() {
    for (status, message) in [
        (DecisionStatus::TimedOut, APPROVAL_TIMEOUT_MESSAGE),
        (DecisionStatus::PipelineError, APPROVAL_PIPELINE_ERROR_MESSAGE),
    ] {
        let value = read(&cursor::format_output(&event("permission.ask"), &outcome(status)));
        assert_eq!(value.get_str("permission"), Some("deny"));
        assert_eq!(value.get_str("user_message"), Some(message));
        assert_eq!(value.get_str("agent_message"), Some(message));
    }
}

#[test]
fn cursor_explicit_denial_preserves_operator_reason() {
    let output = outcome(DecisionStatus::DeniedWithReason(
        "operator denied this action".to_string(),
    ));
    let value = read(&cursor::format_output(&event("permission.ask"), &output));
    assert_eq!(value.get_str("permission"), Some("deny"));
    assert_eq!(value.get_str("user_message"), Some("operator denied this action"));
    assert_eq!(value.get_str("agent_message"), Some("operator denied this action"));
}

#[test]
fn cursor_approval_has_a_standing_message() {
    assert_eq!(
        cursor::format_output(&event("preToolUse"), &approved()),
        "{\"permission\":\"allow\",\"user_message\":\"resolved via remote approval\",\"agent_message\":\"resolved via remote approval\"}"
    );
}

#[test]
fn cursor_roots_fall_back_to_the_directory() {
    for (roots, expected) in [
        (None, vec!["/work"]),
        (Some(vec![]), vec!["/work"]),
        (Some(vec!["/a".to_string(), "/b".to_string()]), vec!["/a", "/b"]),
    ] {
        let input = cursor::CursorHookInput {
            session_id: SessionId::new("s"),
            cwd: "/work".to_string(),
            workspace_roots: roots,
            hook_event_name: "preToolUse".to_string(),
        };
        let event = cursor::convert(input, Ok(tool_call()), "s".to_string()).unwrap();
        assert_eq!(event.workspace_roots, expected);
    }
}

// --- OpenCode ---

fn opencode_input(cwd: &str) -> opencode::OpenCodeHookInput {
    opencode::OpenCodeHookInput {
        session_id: SessionId::new("session-1"),
        session_title: None,
        cwd: cwd.to_string(),
        workspace_roots: None,
        hook_event_name: "tool.execute.before".to_string(),
    }
}

fn opencode_event(cwd: &str) -> Result<ToolHookEvent, ParseError> {
    opencode::convert(opencode_input(cwd), Ok(tool_call()), "session-1 in project".to_string())
}

#[test]
fn opencode_timeout_and_pipeline_error_deny_with_exact_messages() {
    for (status, message) in [
        (DecisionStatus::TimedOut, APPROVAL_TIMEOUT_MESSAGE),
        (DecisionStatus::PipelineError, APPROVAL_PIPELINE_ERROR_MESSAGE),
    ] {
        let event = opencode_event("/home/user/project").unwrap();
        let value = read(&opencode::format_output(&event, &outcome(status)));
        assert_eq!(value.get("allowed"), Some(&Json::Bool(false)));
        assert_eq!(value.get_str("reason"), Some(message));
    }
}

#[test]
fn opencode_explicit_denial_preserves_operator_reason() {
    let event = opencode_event("/home/user/project").unwrap();
    let output = outcome(DecisionStatus::DeniedWithReason(
        "operator denied this action".to_string(),
    ));
    let value = read(&opencode::format_output(&event, &output));
    assert_eq!(value.get("allowed"), Some(&Json::Bool(false)));
    assert_eq!(value.get_str("reason"), Some("operator denied this action"));
}

#[test]
fn empty_opencode_cwd_parses_but_conversion_rejects_it() {
    let error = match opencode_event("") {
        Ok(_) => panic!("empty cwd must fail closed"),
        Err(error) => error,
    };
    assert!(error.0.contains("empty"));
}

#[test]
fn relative_opencode_cwd_parses_but_conversion_rejects_it() {
    let error = match opencode_event("relative/project") {
        Ok(_) => panic!("relative cwd must fail closed"),
        Err(error) => error,
    };
    assert!(error.0.contains("absolute"));
}

#[test]
fn opencode_directory_is_taken_without_dots() {
    for (cwd, expected) in [
        ("/home/user/ordinary/../sensitive/./project", "/home/user/sensitive/project"),
        ("/home/user/ordinary/../sensitive-project", "/home/user/sensitive-project"),
        ("/home/user/project/./crates/..", "/home/user/project"),
    ] {
        let event = opencode_event(cwd).unwrap();
        assert_eq!(event.cwd, expected);
        assert_eq!(event.workspace_roots, [expected]);
    }
}

#[test]
fn opencode_session_is_shown_by_its_title() {
    for (title, expected) in [
        (None, "session-1 in project"),
        (Some(""), "session-1 in project"),
        (Some("Fix auth bug"), "Fix auth bug"),
    ] {
        let mut input = opencode_input("/work");
        input.session_title = title.map(str::to_string);
        let event =
            opencode::convert(input, Ok(tool_call()), "session-1 in project".to_string()).unwrap();
        assert_eq!(event.session_display_name, expected);
    }
}

#[test]
fn opencode_tool_that_cannot_be_read_is_refused_after_the_directory() {
    let fault = Err("bad tool".to_string());
    assert_eq!(
        opencode::convert(opencode_input("/work"), fault, String::new()),
        Err(ParseError("bad tool".to_string()))
    );
}

#[test]
fn opencode_output_is_written_letter_by_letter() {
    let event = opencode_event("/work").unwrap();
    assert_eq!(opencode::format_output(&event, &approved()), "{\"allowed\":true}");
    assert_eq!(
        opencode::format_output(&event, &denied()),
        "{\"allowed\":false,\"reason\":\"denied by policy\"}"
    );
}

// --- paths ---

#[test]
fn paths_are_normalized_by_their_letters() {
    for (path, expected) in [
        ("/", "/"),
        ("//", "/"),
        ("/..", "/"),
        ("/../a", "/a"),
        ("/a//b/", "/a/b"),
        ("/a/./b/../../c", "/c"),
        ("/a/...", "/a/..."),
    ] {
        assert_eq!(normalize_path(path), expected);
        assert_eq!(normalize_path(&normalize_path(path)), expected);
    }
}
