//! Rules of the hook.

use agent_hub::hook::config::{
    get_matchable_arg, parse_tool_entry, resolve_action, DefaultAction, ResolvedAction, Rule,
    RuleAction, ToolConfig,
};
use agent_hub::json::Json;

fn object(name: &str, value: &str) -> Json {
    Json::object1(name, Json::from_str_slice(value))
}

// --- parse_tool_entry ---

#[test]
fn parse_bare_name() {
    let m = parse_tool_entry("Write").unwrap();
    assert_eq!(m.name, "Write");
    assert!(m.pattern.is_none());
}

#[test]
fn parse_glob_pattern() {
    let m = parse_tool_entry("Write(src/**)").unwrap();
    assert_eq!(m.name, "Write");
    assert!(m.pattern.is_some());
}

#[test]
fn parse_regex_pattern() {
    let m = parse_tool_entry(r"Write(regex:\.env)").unwrap();
    assert_eq!(m.name, "Write");
    assert!(m.pattern.is_some());
}

#[test]
fn parse_malformed_entries() {
    assert!(parse_tool_entry("Write(src/**").is_err());
    assert!(parse_tool_entry("(src/**)").is_err());
    assert!(parse_tool_entry("Write()").is_err());
}

#[test]
fn parse_invalid_regex() {
    assert!(parse_tool_entry("Write(regex:[invalid)").is_err());
}

// --- ToolMatcher::matches ---

#[test]
fn bare_name_matches_any_input() {
    let m = parse_tool_entry("Write").unwrap();
    let input = object("path", "/any/path");
    assert!(m.matches("Write", Some(&input), None));
    assert!(m.matches("Write", None, None));
}

#[test]
fn bare_name_rejects_wrong_tool() {
    let m = parse_tool_entry("Write").unwrap();
    assert!(!m.matches("Read", None, None));
}

#[test]
fn glob_matches_path() {
    let m = parse_tool_entry("Write(/src/**)").unwrap();
    let yes = object("path", "/src/foo/bar.rs");
    let no = object("path", "/tests/foo.rs");
    assert!(m.matches("Write", Some(&yes), None));
    assert!(!m.matches("Write", Some(&no), None));
}

#[test]
fn glob_matches_parts_of_two_dots_like_any_other() {
    let m = parse_tool_entry("Bash(cd *..)").unwrap();
    assert!(m.matches("Bash", Some(&object("command", "cd ../..")), None));
    assert!(!m.matches("Bash", Some(&object("command", "cd ../x")), None));
    let m = parse_tool_entry("WebFetch(**/..)").unwrap();
    assert!(m.matches("WebFetch", Some(&object("url", "/home/x/..")), None));
    let m = parse_tool_entry("Bash(*a?b*)").unwrap();
    assert!(m.matches("Bash", Some(&object("command", "xa\nby")), None));
}

#[test]
fn glob_no_input_is_no_match() {
    let m = parse_tool_entry("Write(/src/**)").unwrap();
    assert!(!m.matches("Write", None, None));
}

#[test]
fn glob_missing_field_is_no_match() {
    let m = parse_tool_entry("Write(/src/**)").unwrap();
    let input = object("other_field", "/src/foo.rs");
    assert!(!m.matches("Write", Some(&input), None));
}

#[test]
fn regex_matches_path() {
    let m = parse_tool_entry(r"Write(regex:\.env)").unwrap();
    let yes = object("path", "/home/user/.env");
    let no = object("path", "/src/main.rs");
    assert!(m.matches("Write", Some(&yes), None));
    assert!(!m.matches("Write", Some(&no), None));
}

#[test]
fn glob_matches_command_field() {
    let m = parse_tool_entry("Bash(npm *)").unwrap();
    let yes = object("command", "npm test");
    let no = object("command", "cargo test");
    assert!(m.matches("Bash", Some(&yes), None));
    assert!(!m.matches("Bash", Some(&no), None));
}

#[test]
fn glob_matches_url_field() {
    let m = parse_tool_entry("WebFetch(https://example.com/**)").unwrap();
    let yes = object("url", "https://example.com/page");
    let no = object("url", "https://other.com/page");
    assert!(m.matches("WebFetch", Some(&yes), None));
    assert!(!m.matches("WebFetch", Some(&no), None));
}

// --- get_matchable_arg ---

#[test]
fn matchable_arg_file_tools() {
    let input = object("path", "/foo/bar");
    assert_eq!(
        get_matchable_arg("Read", &input, None),
        Some("/foo/bar".into())
    );
    assert_eq!(
        get_matchable_arg("Write", &input, None),
        Some("/foo/bar".into())
    );
    assert_eq!(
        get_matchable_arg("StrReplace", &input, None),
        Some("/foo/bar".into())
    );
    assert_eq!(
        get_matchable_arg("Delete", &input, None),
        Some("/foo/bar".into())
    );
}

#[test]
fn matchable_arg_file_path_fallback() {
    let input = object("file_path", "/foo/bar");
    assert_eq!(
        get_matchable_arg("Edit", &input, None),
        Some("/foo/bar".into())
    );
    assert_eq!(
        get_matchable_arg("Read", &input, None),
        Some("/foo/bar".into())
    );
}

#[test]
fn matchable_arg_shell() {
    let input = object("command", "ls -la");
    assert_eq!(
        get_matchable_arg("Bash", &input, None),
        Some("ls -la".into())
    );
    assert_eq!(
        get_matchable_arg("Shell", &input, None),
        Some("ls -la".into())
    );
}

#[test]
fn matchable_arg_notebook() {
    let input = object("target_notebook", "analysis.ipynb");
    assert_eq!(
        get_matchable_arg("EditNotebook", &input, None),
        Some("analysis.ipynb".into())
    );
}

#[test]
fn matchable_arg_unknown_tool() {
    let input = object("whatever", "value");
    assert_eq!(get_matchable_arg("UnknownTool", &input, None), None);
}

// --- cwd resolution ---

#[test]
fn cwd_resolves_relative_path() {
    let input = object("path", "id_rsa");
    assert_eq!(
        get_matchable_arg("Read", &input, Some("/home/user/.ssh")),
        Some("/home/user/.ssh/id_rsa".into())
    );
}

#[test]
fn cwd_leaves_absolute_path_unchanged() {
    let input = object("path", "/etc/passwd");
    assert_eq!(
        get_matchable_arg("Read", &input, Some("/home/user")),
        Some("/etc/passwd".into())
    );
}

#[test]
fn cwd_not_applied_to_shell_commands() {
    let input = object("command", "cat id_rsa");
    assert_eq!(
        get_matchable_arg("Bash", &input, Some("/home/user/.ssh")),
        Some("cat id_rsa".into())
    );
}

#[test]
fn cwd_not_applied_to_urls() {
    let input = object("url", "https://example.com");
    assert_eq!(
        get_matchable_arg("WebFetch", &input, Some("/home/user")),
        Some("https://example.com".into())
    );
}

#[test]
fn cwd_resolves_dotdot_in_relative_path() {
    let input = object("path", "../.ssh/id_rsa");
    let resolved = get_matchable_arg("Read", &input, Some("/home/user/project")).unwrap();
    // Path::join preserves .. segments (no canonicalization), but the string
    // still contains .ssh so regex/glob patterns match
    assert!(resolved.contains(".ssh"));
}

// --- resolve_action (end-to-end) ---

fn make_config(rules: Vec<Rule>, default: DefaultAction) -> ToolConfig {
    ToolConfig { default, rules }
}

fn make_rule(entries: &[&str], action: RuleAction) -> Rule {
    Rule {
        matchers: entries.iter().map(|e| parse_tool_entry(e).unwrap()).collect(),
        action,
        command: None,
        message: None,
    }
}

fn make_deny_rule(entries: &[&str], message: &str) -> Rule {
    Rule {
        matchers: entries.iter().map(|e| parse_tool_entry(e).unwrap()).collect(),
        action: RuleAction::Deny,
        command: None,
        message: Some(message.to_string()),
    }
}

#[test]
fn deny_pattern_before_allow_bare() {
    let config = make_config(
        vec![
            make_rule(&["Write(**/.env*)"], RuleAction::Deny),
            make_rule(&["Write"], RuleAction::Allow),
        ],
        DefaultAction::Ask,
    );

    let env = object("path", "/config/.env.local");
    let normal = object("path", "/src/main.rs");

    assert!(matches!(
        resolve_action(&config, "Write", Some(&env), None),
        ResolvedAction::Deny(_)
    ));
    assert!(matches!(
        resolve_action(&config, "Write", Some(&normal), None),
        ResolvedAction::Allow
    ));
}

#[test]
fn unmatched_tool_falls_to_default() {
    let config = make_config(
        vec![make_rule(&["Write"], RuleAction::Allow)],
        DefaultAction::Ask,
    );
    assert!(matches!(
        resolve_action(&config, "Read", None, None),
        ResolvedAction::Ask
    ));
}

#[test]
fn multiple_matchers_in_single_rule() {
    let config = make_config(
        vec![make_rule(&["Read", "Grep", "Glob"], RuleAction::Allow)],
        DefaultAction::Ask,
    );
    assert!(matches!(
        resolve_action(&config, "Read", None, None),
        ResolvedAction::Allow
    ));
    assert!(matches!(
        resolve_action(&config, "Grep", None, None),
        ResolvedAction::Allow
    ));
    assert!(matches!(
        resolve_action(&config, "Write", None, None),
        ResolvedAction::Ask
    ));
}

#[test]
fn pattern_with_no_input_skips_rule() {
    let config = make_config(
        vec![
            make_rule(&["Write(/src/**)"], RuleAction::Allow),
            make_rule(&["Write"], RuleAction::Deny),
        ],
        DefaultAction::Ask,
    );
    // No tool_input: pattern rule can't match, falls through to bare "Write" -> Deny
    assert!(matches!(
        resolve_action(&config, "Write", None, None),
        ResolvedAction::Deny(_)
    ));
}

// --- absolute path enforcement ---

#[test]
fn relative_path_without_cwd_is_denied() {
    let config = make_config(
        vec![make_rule(&["Read"], RuleAction::Allow)],
        DefaultAction::Ask,
    );
    let input = object("path", "relative/path.txt");
    match resolve_action(&config, "Read", Some(&input), None) {
        ResolvedAction::Deny(Some(msg)) => {
            assert!(msg.contains("absolute"), "expected absolute path error: {msg}");
        }
        other => panic!("expected Deny, got {other:?}"),
    }
}

#[test]
fn relative_path_resolved_by_cwd_is_allowed() {
    let config = make_config(
        vec![make_rule(&["Read"], RuleAction::Allow)],
        DefaultAction::Ask,
    );
    let input = object("path", "src/main.rs");
    assert!(matches!(
        resolve_action(&config, "Read", Some(&input), Some("/home/user/project")),
        ResolvedAction::Allow
    ));
}

#[test]
fn absolute_path_check_not_applied_to_shell() {
    let config = make_config(
        vec![make_rule(&["Bash"], RuleAction::Allow)],
        DefaultAction::Ask,
    );
    let input = object("command", "ls relative/path");
    assert!(matches!(
        resolve_action(&config, "Bash", Some(&input), None),
        ResolvedAction::Allow
    ));
}

#[test]
fn absolute_path_check_not_applied_to_unknown_tools() {
    let config = make_config(vec![], DefaultAction::Allow);
    let input = object("whatever", "relative/path");
    assert!(matches!(
        resolve_action(&config, "UnknownTool", Some(&input), None),
        ResolvedAction::Allow
    ));
}

// --- deny messages ---

#[test]
fn deny_rule_with_message() {
    let config = make_config(
        vec![make_deny_rule(
            &["Delete"],
            "Use trash instead of delete",
        )],
        DefaultAction::Ask,
    );
    match resolve_action(&config, "Delete", None, None) {
        ResolvedAction::Deny(Some(msg)) => {
            assert_eq!(msg, "Use trash instead of delete");
        }
        other => panic!("expected Deny with message, got {other:?}"),
    }
}

#[test]
fn deny_rule_without_message() {
    let config = make_config(
        vec![make_rule(&["Delete"], RuleAction::Deny)],
        DefaultAction::Ask,
    );
    assert!(matches!(
        resolve_action(&config, "Delete", None, None),
        ResolvedAction::Deny(None)
    ));
}

#[test]
fn deny_default_has_no_message() {
    let config = make_config(vec![], DefaultAction::Deny);
    assert!(matches!(
        resolve_action(&config, "Write", None, None),
        ResolvedAction::Deny(None)
    ));
}

// --- cwd + pattern matching integration ---

#[test]
fn cwd_resolved_path_matches_pattern() {
    let config = make_config(
        vec![
            make_rule(&[r"Read(regex:\.ssh)"], RuleAction::Deny),
            make_rule(&["Read"], RuleAction::Allow),
        ],
        DefaultAction::Ask,
    );
    // Relative path "id_rsa" with cwd ~/.ssh -> resolved to /home/user/.ssh/id_rsa
    let input = object("path", "id_rsa");
    assert!(matches!(
        resolve_action(&config, "Read", Some(&input), Some("/home/user/.ssh")),
        ResolvedAction::Deny(_)
    ));
}
