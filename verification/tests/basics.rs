//! Texts, documents and names.

use agent_hub::json::Json;
use agent_hub::protocol::approval::{
    ApprovalGrantDuration, ApprovalStatus, ExtraContext, HookEventName, KnownHookEvent,
    RequestType,
};
use agent_hub::protocol::tool::Tool;
use agent_hub::text::{split_words, stands_before, strip_prefix, to_ascii_lowercase, trim, trim_end_char};

#[test]
fn texts_are_cut_and_split() {
    assert_eq!(trim(" \u{2003}a b\n"), "a b");
    assert_eq!(trim(" \t"), "");
    assert_eq!(trim_end_char("http://a//", '/'), "http://a");
    assert_eq!(trim_end_char("//", '/'), "");
    assert_eq!(to_ascii_lowercase("PreToolÜse"), "pretoolÜse");
    assert_eq!(split_words("a  bc\td "), ["a", "bc", "d"]);
    assert_eq!(strip_prefix("regex:x", "regex:").as_deref(), Some("x"));
    assert_eq!(strip_prefix("rege", "regex:"), None);
    assert_eq!(strip_prefix("glob:x", "regex:"), None);
}

#[test]
fn documents_are_written_as_they_are_read() {
    for text in [
        "null",
        "[true,false,1,-2.5,\"\"]",
        "{\"a\":{},\"b\":[],\"c\":[{\"d\":null}]}",
        "\"\\\"\\\\\\b\\f\\n\\r\\t\\u0001\\u001f é\u{2028}\"",
    ] {
        assert_eq!(Json::from_text(text).unwrap().to_text(), text);
    }
    assert!(Json::from_text("{").unwrap_err().contains("EOF"));
}

#[test]
fn members_stand_in_the_order_of_their_names_each_once() {
    let text = |s: &str| Json::from_str_slice(s);
    let document = Json::object2("b", text("1"), "a", text("2"));
    assert_eq!(document.to_text(), "{\"a\":\"2\",\"b\":\"1\"}");
    assert_eq!(document, Json::from_text("{\"b\":\"1\",\"a\":\"2\"}").unwrap());
    let twice = Json::object3("a", text("1"), "", Json::Null, "a", text("3"));
    assert_eq!(twice.to_text(), "{\"\":null,\"a\":\"3\"}");
    assert_eq!(twice, Json::from_text("{\"a\":1,\"\":null,\"a\":\"3\"}").unwrap());
    let members = ["ab", "z", "a", "\u{e9}", "A", "\u{1f600}"];
    let document = Json::object(members.map(|name| (name.to_string(), Json::Null)).to_vec());
    match &document {
        Json::Object(members) => {
            let names: Vec<&str> = members.as_list().iter().map(|m| m.0.as_str()).collect();
            assert_eq!(names, ["A", "a", "ab", "z", "\u{e9}", "\u{1f600}"]);
        }
        _ => panic!("an object is made"),
    }
    assert_eq!(Json::from_text(&document.to_text()).unwrap(), document);
}

#[test]
fn numbers_are_written_as_they_are_read() {
    for text in ["0", "-7", "18446744073709551615", "0.5", "1e100", "-2.5e-8"] {
        let number = Json::from_text(text).unwrap();
        assert_eq!(number.to_text(), serde_json::from_str::<serde_json::Value>(text).unwrap().to_string());
        assert_eq!(number.clone(), number);
    }
    assert!(Json::from_text("01").is_err());
}

#[test]
fn texts_stand_in_the_order_of_their_characters() {
    assert!(stands_before("", "a"));
    assert!(stands_before("a", "ab"));
    assert!(stands_before("Z", "a"));
    assert!(!stands_before("a", "a"));
    assert!(!stands_before("b", "ab"));
    for (a, b) in [("permission", "permissionDecision"), ("\u{ffff}", "\u{10000}")] {
        assert_eq!(stands_before(a, b), a < b);
        assert_eq!(stands_before(b, a), b < a);
    }
}

#[test]
fn white_space_is_that_of_unicode() {
    let spaces: String = ('\0'..=char::MAX).filter(|c| c.is_whitespace()).collect();
    assert_eq!(spaces.chars().count(), 25);
    assert_eq!(trim(&format!("{spaces}x{spaces}")), "x");
    assert_eq!(trim("\u{200b}x\u{200b}"), "\u{200b}x\u{200b}");
}

#[test]
fn documents_are_spread_over_lines() {
    let document = Json::from_text("{\"a\":[1,{\"b\":[]}],\"c\":{}}").unwrap();
    assert_eq!(
        document.to_pretty_text(),
        "{\n  \"a\": [\n    1,\n    {\n      \"b\": []\n    }\n  ],\n  \"c\": {}\n}"
    );
}

#[test]
fn members_are_found_by_name() {
    let document = Json::from_text("{\"a\":\"x\",\"b\":1}").unwrap();
    assert_eq!(document.get_str("a"), Some("x"));
    assert_eq!(document.get_str("b"), None);
    assert_eq!(document.get("c"), None);
    assert_eq!(Json::Null.get("a"), None);
    assert_eq!(document.clone(), document);
}

#[test]
fn event_names_are_known_or_kept() {
    for (name, event) in [
        ("PreToolUse", KnownHookEvent::PreToolUse),
        ("PermissionRequest", KnownHookEvent::PermissionRequest),
        ("preToolUse", KnownHookEvent::PreToolUseCamel),
        ("tool.execute.before", KnownHookEvent::ToolExecuteBefore),
        ("permission.ask", KnownHookEvent::PermissionAsk),
    ] {
        let parsed = HookEventName::from(name.to_string());
        assert_eq!(parsed, HookEventName::Known(event));
        assert_eq!(parsed.as_str(), name);
    }
    let other = HookEventName::from("pretooluse".to_string());
    assert_eq!(other, HookEventName::Other("pretooluse".to_string()));
    assert_eq!(other.as_str(), "pretooluse");
}

#[test]
fn names_and_texts_of_the_protocol() {
    assert_eq!(RequestType::from_name("plan_question"), Some(RequestType::PlanQuestion));
    assert_eq!(RequestType::from_name("tool_use"), Some(RequestType::ToolUse));
    assert_eq!(RequestType::from_name("ToolUse"), None);
    assert_eq!(RequestType::ToolUse.as_str(), "tool_use");
    assert_eq!(Tool::Unknown("x".to_string()).as_str(), "x");
    assert_eq!(Tool::Bash.as_str(), "Bash");
    assert_eq!(Tool::Write.as_str(), "Write");
    for name in ["Bash", "Write", "bash"] {
        assert_eq!(Tool::from_name(name).as_str(), name);
    }
    assert_eq!(Tool::from_name("Bash"), Tool::Bash);
    assert_eq!(Tool::from_name("bash"), Tool::Unknown("bash".to_string()));
    let reason = ExtraContext::DippyReason { dippy_reason: "why".to_string() };
    assert_eq!(reason.to_text(), "why");
    assert_eq!(ExtraContext::Diff { diff: "d".to_string() }.to_text(), "d");
}

#[test]
fn statuses_are_resolved_unless_pending() {
    assert!(!ApprovalStatus::Pending.is_resolved());
    assert!(ApprovalStatus::Approved { message: None }.is_resolved());
    assert!(ApprovalStatus::Denied { reason: String::new() }.is_resolved());
    assert!(ApprovalStatus::Cancelled.is_resolved());
}

#[test]
fn grants_last_as_long_as_they_say() {
    for (duration, hours_twice) in [
        (ApprovalGrantDuration::ThirtyMinutes, 1),
        (ApprovalGrantDuration::OneHour, 2),
        (ApprovalGrantDuration::TwoHours, 4),
        (ApprovalGrantDuration::SixHours, 12),
        (ApprovalGrantDuration::TwentyFourHours, 48),
    ] {
        assert_eq!(duration.duration(), hours_twice * 1800);
    }
}
