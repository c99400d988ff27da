//! Rules that say what becomes of a tool call.

use vstd::prelude::*;

use crate::hook::patterns::{
    check_glob, check_regex, format_debug_list, glob_is_match, regex_is_match,
};
use crate::json::{Json, JsonView};
use crate::paths::{is_absolute, path_below};
use crate::text::{
    chars_of, clone_opt, find_char, joined, joined3, same_text, strip_prefix, text_between,
};

verus! {

/// What becomes of a call that no rule speaks of.
#[derive(Clone, Copy, Debug, PartialEq, Eq, Structural)]
pub enum DefaultAction {
    Allow,
    Deny,
    Ask,
}

/// What a rule does with a call.
#[derive(Clone, Copy, Debug, PartialEq, Eq, Structural)]
pub enum RuleAction {
    Allow,
    Deny,
    Ask,
    Delegate,
}

/// A pattern for the argument of a tool.
#[derive(Debug, PartialEq, Eq)]
pub enum ToolPattern {
    Glob(String),
    Regex(String),
}

/// What a `ToolPattern` says.
pub enum ToolPatternView {
    Glob(Seq<char>),
    Regex(Seq<char>),
}

impl View for ToolPattern {
    type V = ToolPatternView;

    open spec fn view(&self) -> ToolPatternView {
        match self {
            ToolPattern::Glob(pattern) => ToolPatternView::Glob(pattern@),
            ToolPattern::Regex(pattern) => ToolPatternView::Regex(pattern@),
        }
    }
}

impl ToolPatternView {
    /// Whether the pattern matches an argument.
    pub open spec fn selects(self, value: Seq<char>) -> bool {
        match self {
            ToolPatternView::Glob(pattern) => crate::hook::patterns::glob_selects(pattern, value),
            ToolPatternView::Regex(pattern) => crate::hook::patterns::regex_selects(
                pattern,
                value,
            ),
        }
    }

    /// What is wrong with the pattern, if anything.
    pub open spec fn fault(self) -> Option<Seq<char>> {
        match self {
            ToolPatternView::Glob(pattern) => crate::hook::patterns::glob_fault(pattern),
            ToolPatternView::Regex(pattern) => crate::hook::patterns::regex_fault(pattern),
        }
    }
}

impl ToolPattern {
    /// Whether the pattern matches an argument.
    pub fn is_match(&self, value: &str) -> (r: bool)
        ensures
            r == self@.selects(value@),
    {
        match self {
            ToolPattern::Glob(pattern) => glob_is_match(pattern.as_str(), value),
            ToolPattern::Regex(pattern) => regex_is_match(pattern.as_str(), value),
        }
    }

    /// What is wrong with the pattern, if anything.
    pub fn check(&self) -> (r: Option<String>)
        ensures
            crate::text::opt_view(r) == self@.fault(),
    {
        match self {
            ToolPattern::Glob(pattern) => check_glob(pattern.as_str()),
            ToolPattern::Regex(pattern) => check_regex(pattern.as_str()),
        }
    }
}

/// Matches calls of one tool, of all or of those whose argument fits a pattern.
#[derive(Debug, PartialEq, Eq)]
pub struct ToolMatcher {
    pub name: String,
    pub pattern: Option<ToolPattern>,
}

/// What a `ToolMatcher` says.
pub struct ToolMatcherView {
    pub name: Seq<char>,
    pub pattern: Option<ToolPatternView>,
}

impl View for ToolMatcher {
    type V = ToolMatcherView;

    open spec fn view(&self) -> ToolMatcherView {
        ToolMatcherView {
            name: self.name@,
            pattern: match self.pattern {
                Some(pattern) => Some(pattern@),
                None => None,
            },
        }
    }
}

/// How an entry of a rule's tools is read, before its pattern is looked into:
/// a name alone, or a name with a glob, or with a regular expression after
/// `regex:`, in brackets.
pub open spec fn split_entry(entry: Seq<char>) -> Result<ToolMatcherView, Seq<char>> {
    let open = crate::text::first_of(entry, '(');
    if open == entry.len() {
        Ok(ToolMatcherView { name: entry, pattern: None })
    } else if entry.last() != ')' {
        Err("malformed tool pattern (missing closing paren): "@ + entry)
    } else {
        let name = entry.take(open);
        let pattern = entry.subrange(open + 1, entry.len() - 1);
        if name.len() == 0 || pattern.len() == 0 {
            Err("empty tool name or pattern: "@ + entry)
        } else if crate::text::starts_with(pattern, "regex:"@) {
            Ok(
                ToolMatcherView {
                    name,
                    pattern: Some(
                        ToolPatternView::Regex(pattern.skip("regex:"@.len() as int)),
                    ),
                },
            )
        } else {
            Ok(ToolMatcherView { name, pattern: Some(ToolPatternView::Glob(pattern)) })
        }
    }
}

/// What is made of a matcher whose pattern has been looked into.
pub open spec fn accepted_entry(
    entry: Seq<char>,
    matcher: ToolMatcherView,
    fault: Option<Seq<char>>,
) -> Result<ToolMatcherView, Seq<char>> {
    match (matcher.pattern, fault) {
        (Some(ToolPatternView::Regex(_)), Some(fault)) => Err(
            "invalid regex in '"@ + entry + "': "@ + fault,
        ),
        (Some(ToolPatternView::Glob(_)), Some(fault)) => Err(
            "invalid glob in '"@ + entry + "': "@ + fault,
        ),
        _ => Ok(matcher),
    }
}

/// How an entry of a rule's tools is read.
pub open spec fn parsed_entry(entry: Seq<char>) -> Result<ToolMatcherView, Seq<char>> {
    match split_entry(entry) {
        Ok(matcher) => match matcher.pattern {
            Some(pattern) => accepted_entry(entry, matcher, pattern.fault()),
            None => Ok(matcher),
        },
        Err(fault) => Err(fault),
    }
}

/// The view of a matcher or of what is wrong.
pub open spec fn entry_result(r: Result<ToolMatcher, String>) -> Result<
    ToolMatcherView,
    Seq<char>,
> {
    match r {
        Ok(matcher) => Ok(matcher@),
        Err(fault) => Err(fault@),
    }
}

/// Reads an entry of a rule's tools, without looking into its pattern.
pub fn split_tool_entry(entry: &str) -> (r: Result<ToolMatcher, String>)
    ensures
        entry_result(r) == split_entry(entry@),
{
    let chars = chars_of(entry);
    let open: usize = find_char(&chars, '(');
    if open == chars.len() {
        return Ok(ToolMatcher { name: entry.to_string(), pattern: None });
    }
    if chars[chars.len() - 1] != ')' {
        return Err(joined("malformed tool pattern (missing closing paren): ", entry));
    }
    let name = text_between(&chars, 0, open);
    let pattern = text_between(&chars, open + 1, chars.len() - 1);
    assert(name@ =~= entry@.take(open as int));
    if open == 0 || open + 1 == chars.len() - 1 {
        return Err(joined("empty tool name or pattern: ", entry));
    }
    let pattern = match strip_prefix(pattern.as_str(), "regex:") {
        Some(expression) => ToolPattern::Regex(expression),
        None => ToolPattern::Glob(pattern),
    };
    Ok(ToolMatcher { name, pattern: Some(pattern) })
}

/// Takes a matcher, or refuses it for what is wrong with its pattern.
pub fn accept_tool_entry(entry: &str, matcher: ToolMatcher, fault: Option<String>) -> (r: Result<
    ToolMatcher,
    String,
>)
    ensures
        entry_result(r) == accepted_entry(entry@, matcher@, crate::text::opt_view(fault)),
{
    match (&matcher.pattern, &fault) {
        (Some(ToolPattern::Regex(_)), Some(fault)) => Err(
            joined(joined3("invalid regex in '", entry, "': ").as_str(), fault.as_str()),
        ),
        (Some(ToolPattern::Glob(_)), Some(fault)) => Err(
            joined(joined3("invalid glob in '", entry, "': ").as_str(), fault.as_str()),
        ),
        _ => Ok(matcher),
    }
}

/// Reads an entry of a rule's tools, such as `Write`, `Write(src/**)` or
/// `Write(regex:\.env)`.
pub fn parse_tool_entry(entry: &str) -> (r: Result<ToolMatcher, String>)
    ensures
        entry_result(r) == parsed_entry(entry@),
{
    let matcher = match split_tool_entry(entry) {
        Ok(matcher) => matcher,
        Err(fault) => {
            return Err(fault);
        },
    };
    let fault = match &matcher.pattern {
        Some(pattern) => pattern.check(),
        None => None,
    };
    accept_tool_entry(entry, matcher, fault)
}

/// The tools whose argument is a file, but for notebooks.
pub open spec fn file_tool(tool_name: Seq<char>) -> bool {
    ||| tool_name == "Read"@
    ||| tool_name == "Write"@
    ||| tool_name == "StrReplace"@
    ||| tool_name == "Delete"@
    ||| tool_name == "Edit"@
    ||| tool_name == "MultiEdit"@
}

/// The tools whose argument is a notebook.
pub open spec fn notebook_tool(tool_name: Seq<char>) -> bool {
    tool_name == "EditNotebook"@ || tool_name == "NotebookEdit"@
}

/// The tools whose argument is a path.
pub open spec fn path_tool(tool_name: Seq<char>) -> bool {
    file_tool(tool_name) || notebook_tool(tool_name)
}

/// Whether a tool's argument is a file, but for notebooks.
fn is_file_tool(tool_name: &str) -> (r: bool)
    ensures
        r == file_tool(tool_name@),
{
    same_text(tool_name, "Read") || same_text(tool_name, "Write") || same_text(
        tool_name,
        "StrReplace",
    ) || same_text(tool_name, "Delete") || same_text(tool_name, "Edit") || same_text(
        tool_name,
        "MultiEdit",
    )
}

/// Whether a tool's argument is a notebook.
fn is_notebook_tool(tool_name: &str) -> (r: bool)
    ensures
        r == notebook_tool(tool_name@),
{
    same_text(tool_name, "EditNotebook") || same_text(tool_name, "NotebookEdit")
}

/// Whether a tool's argument is a path.
pub fn is_path_tool(tool_name: &str) -> (r: bool)
    ensures
        r == path_tool(tool_name@),
{
    is_file_tool(tool_name) || is_notebook_tool(tool_name)
}

/// The argument of a call that patterns are held against, as it was given. A
/// file is under `path`, or under `file_path` where there is no `path`.
pub open spec fn raw_argument(tool_name: Seq<char>, tool_input: JsonView) -> Option<Seq<char>> {
    if file_tool(tool_name) {
        match tool_input.member("path"@) {
            Some(path) => path.text(),
            None => tool_input.text_member("file_path"@),
        }
    } else if notebook_tool(tool_name) {
        tool_input.text_member("target_notebook"@)
    } else if tool_name == "Bash"@ || tool_name == "Shell"@ {
        tool_input.text_member("command"@)
    } else if tool_name == "WebFetch"@ {
        tool_input.text_member("url"@)
    } else {
        None
    }
}

/// The argument of a call that patterns are held against. A relative path is
/// taken from the working directory, where that is known.
pub open spec fn matchable_argument(
    tool_name: Seq<char>,
    tool_input: JsonView,
    cwd: Option<Seq<char>>,
) -> Option<Seq<char>> {
    match raw_argument(tool_name, tool_input) {
        Some(raw) => match cwd {
            Some(cwd) => if path_tool(tool_name) && !crate::paths::absolute(raw) {
                Some(crate::paths::below(cwd, raw))
            } else {
                Some(raw)
            },
            None => Some(raw),
        },
        None => None,
    }
}

/// The argument of a call that patterns are held against.
pub fn get_matchable_arg(tool_name: &str, tool_input: &Json, cwd: Option<&str>) -> (r: Option<
    String,
>)
    ensures
        crate::text::opt_view(r) == matchable_argument(
            tool_name@,
            tool_input@,
            crate::json::opt_text(cwd),
        ),
{
    let raw: Option<&str> = if is_file_tool(tool_name) {
        match tool_input.get("path") {
            Some(path) => path.as_str(),
            None => tool_input.get_str("file_path"),
        }
    } else if is_notebook_tool(tool_name) {
        tool_input.get_str("target_notebook")
    } else if same_text(tool_name, "Bash") || same_text(tool_name, "Shell") {
        tool_input.get_str("command")
    } else if same_text(tool_name, "WebFetch") {
        tool_input.get_str("url")
    } else {
        None
    };
    let raw = match raw {
        Some(raw) => raw,
        None => {
            return None;
        },
    };
    if is_path_tool(tool_name) {
        if let Some(cwd) = cwd {
            if !is_absolute(raw) {
                return Some(path_below(cwd, raw));
            }
        }
    }
    Some(raw.to_string())
}

/// The argument of a call whose input may be absent.
pub open spec fn call_argument(
    tool_name: Seq<char>,
    tool_input: Option<JsonView>,
    cwd: Option<Seq<char>>,
) -> Option<Seq<char>> {
    match tool_input {
        Some(input) => matchable_argument(tool_name, input, cwd),
        None => None,
    }
}

impl ToolMatcherView {
    /// Whether the matcher matches a call.
    pub open spec fn matches(
        self,
        tool_name: Seq<char>,
        tool_input: Option<JsonView>,
        cwd: Option<Seq<char>>,
    ) -> bool {
        self.name == tool_name && match self.pattern {
            None => true,
            Some(pattern) => match call_argument(tool_name, tool_input, cwd) {
                Some(value) => pattern.selects(value),
                None => false,
            },
        }
    }
}

/// The view of a document that may be absent.
pub open spec fn opt_json(input: Option<&Json>) -> Option<JsonView> {
    match input {
        Some(input) => Some(input@),
        None => None,
    }
}

impl ToolMatcher {
    /// Whether the matcher matches a call, given whether its pattern, where it
    /// has one, matches the call's argument.
    pub fn matches_given(&self, tool_name: &str, selected: bool) -> (r: bool)
        ensures
            r == (self@.name == tool_name@ && (self@.pattern is None || selected)),
    {
        same_text(self.name.as_str(), tool_name) && (self.pattern.is_none() || selected)
    }

    /// Whether the matcher matches a call.
    pub fn matches(&self, tool_name: &str, tool_input: Option<&Json>, cwd: Option<&str>) -> (r:
        bool)
        ensures
            r == self@.matches(tool_name@, opt_json(tool_input), crate::json::opt_text(cwd)),
    {
        if !same_text(self.name.as_str(), tool_name) {
            return false;
        }
        let selected = match &self.pattern {
            None => false,
            Some(pattern) => {
                let argument = match tool_input {
                    Some(input) => get_matchable_arg(tool_name, input, cwd),
                    None => None,
                };
                match argument {
                    Some(value) => pattern.is_match(value.as_str()),
                    None => false,
                }
            },
        };
        self.matches_given(tool_name, selected)
    }
}

/// A rule as it is written.
#[derive(Debug, PartialEq, Eq)]
pub struct RuleJson {
    pub tools: Vec<String>,
    pub action: RuleAction,
    pub command: Option<String>,
    pub message: Option<String>,
}

/// A set of rules as it is written.
#[derive(Debug, PartialEq, Eq)]
pub struct ToolConfigJson {
    pub version: u32,
    pub default: DefaultAction,
    pub rules: Vec<RuleJson>,
}

/// A rule.
#[derive(Debug, PartialEq, Eq)]
pub struct Rule {
    pub matchers: Vec<ToolMatcher>,
    pub action: RuleAction,
    pub command: Option<String>,
    pub message: Option<String>,
}

/// A set of rules, with what becomes of a call that none speaks of.
#[derive(Debug, PartialEq, Eq)]
pub struct ToolConfig {
    pub default: DefaultAction,
    pub rules: Vec<Rule>,
}

/// What a `Rule` says.
pub struct RuleView {
    pub matchers: Seq<ToolMatcherView>,
    pub action: RuleAction,
    pub command: Option<Seq<char>>,
    pub message: Option<Seq<char>>,
}

impl View for Rule {
    type V = RuleView;

    open spec fn view(&self) -> RuleView {
        RuleView {
            matchers: self.matchers@.map_values(|matcher: ToolMatcher| matcher@),
            action: self.action,
            command: crate::text::opt_view(self.command),
            message: crate::text::opt_view(self.message),
        }
    }
}

/// What a `ToolConfig` says.
pub struct ToolConfigView {
    pub default: DefaultAction,
    pub rules: Seq<RuleView>,
}

impl View for ToolConfig {
    type V = ToolConfigView;

    open spec fn view(&self) -> ToolConfigView {
        ToolConfigView {
            default: self.default,
            rules: self.rules@.map_values(|rule: Rule| rule@),
        }
    }
}

/// What becomes of a call.
#[derive(Debug, PartialEq, Eq)]
pub enum ResolvedAction {
    Allow,
    Deny(Option<String>),
    Ask,
    Delegate(String),
}

/// What a `ResolvedAction` says.
pub enum ResolvedActionView {
    Allow,
    Deny(Option<Seq<char>>),
    Ask,
    Delegate(Seq<char>),
}

impl View for ResolvedAction {
    type V = ResolvedActionView;

    open spec fn view(&self) -> ResolvedActionView {
        match self {
            ResolvedAction::Allow => ResolvedActionView::Allow,
            ResolvedAction::Deny(message) => ResolvedActionView::Deny(
                crate::text::opt_view(*message),
            ),
            ResolvedAction::Ask => ResolvedActionView::Ask,
            ResolvedAction::Delegate(command) => ResolvedActionView::Delegate(command@),
        }
    }
}

impl RuleView {
    /// A rule that delegates names a command.
    pub open spec fn wf(self) -> bool {
        self.action is Delegate ==> self.command is Some
    }

    /// Whether one of the rule's matchers matches a call.
    pub open spec fn matches(
        self,
        tool_name: Seq<char>,
        tool_input: Option<JsonView>,
        cwd: Option<Seq<char>>,
    ) -> bool {
        exists|i: int|
            0 <= i < self.matchers.len() && (#[trigger] self.matchers[i]).matches(
                tool_name,
                tool_input,
                cwd,
            )
    }

    /// What the rule makes of a call.
    pub open spec fn resolved(self) -> ResolvedActionView {
        match self.action {
            RuleAction::Allow => ResolvedActionView::Allow,
            RuleAction::Deny => ResolvedActionView::Deny(self.message),
            RuleAction::Ask => ResolvedActionView::Ask,
            RuleAction::Delegate => ResolvedActionView::Delegate(self.command->0),
        }
    }
}

/// What becomes of a call that no rule speaks of.
pub open spec fn default_resolved(default: DefaultAction) -> ResolvedActionView {
    match default {
        DefaultAction::Allow => ResolvedActionView::Allow,
        DefaultAction::Deny => ResolvedActionView::Deny(None),
        DefaultAction::Ask => ResolvedActionView::Ask,
    }
}

/// What becomes of a call that no rule speaks of.
pub fn default_to_resolved(default: &DefaultAction) -> (r: ResolvedAction)
    ensures
        r@ == default_resolved(*default),
{
    match default {
        DefaultAction::Allow => ResolvedAction::Allow,
        DefaultAction::Deny => ResolvedAction::Deny(None),
        DefaultAction::Ask => ResolvedAction::Ask,
    }
}

impl ToolConfigView {
    /// Every rule that delegates names a command.
    pub open spec fn wf(self) -> bool {
        forall|i: int| 0 <= i < self.rules.len() ==> (#[trigger] self.rules[i]).wf()
    }

    /// Whether the rule at `i` is the first that matches a call.
    pub open spec fn first_match(
        self,
        i: int,
        tool_name: Seq<char>,
        tool_input: Option<JsonView>,
        cwd: Option<Seq<char>>,
    ) -> bool {
        &&& 0 <= i < self.rules.len()
        &&& self.rules[i].matches(tool_name, tool_input, cwd)
        &&& forall|j: int|
            0 <= j < i ==> !(#[trigger] self.rules[j]).matches(tool_name, tool_input, cwd)
    }

    /// Whether no rule matches a call.
    pub open spec fn unmatched(
        self,
        tool_name: Seq<char>,
        tool_input: Option<JsonView>,
        cwd: Option<Seq<char>>,
    ) -> bool {
        forall|j: int|
            0 <= j < self.rules.len() ==> !(#[trigger] self.rules[j]).matches(
                tool_name,
                tool_input,
                cwd,
            )
    }

    /// Whether `action` is what becomes of a call: a path that is not absolute is
    /// denied; otherwise the first rule that matches decides, or the default.
    pub open spec fn decides(
        self,
        tool_name: Seq<char>,
        tool_input: Option<JsonView>,
        cwd: Option<Seq<char>>,
        action: ResolvedActionView,
    ) -> bool {
        if names_relative_path(tool_name, tool_input, cwd) {
            action == ResolvedActionView::Deny(Some(RELATIVE_PATH_MESSAGE@))
        } else {
            ||| exists|i: int|
                #[trigger] self.first_match(i, tool_name, tool_input, cwd) && action
                    == self.rules[i].resolved()
            ||| self.unmatched(tool_name, tool_input, cwd) && action == default_resolved(
                self.default,
            )
        }
    }

    /// What is made of a call once the first rule that matches it is known.
    pub open spec fn resolved_by(self, rule: Option<int>) -> ResolvedActionView {
        match rule {
            Some(i) => self.rules[i].resolved(),
            None => default_resolved(self.default),
        }
    }
}

/// Whether a call names a path that is not absolute, after all is done to make it so.
pub open spec fn names_relative_path(
    tool_name: Seq<char>,
    tool_input: Option<JsonView>,
    cwd: Option<Seq<char>>,
) -> bool {
    path_tool(tool_name) && match call_argument(tool_name, tool_input, cwd) {
        Some(path) => !crate::paths::absolute(path),
        None => false,
    }
}

impl Rule {
    /// Whether one of the rule's matchers matches a call.
    pub fn matches(&self, tool_name: &str, tool_input: Option<&Json>, cwd: Option<&str>) -> (r:
        bool)
        ensures
            r == self@.matches(tool_name@, opt_json(tool_input), crate::json::opt_text(cwd)),
    {
        let mut i: usize = 0;
        while i < self.matchers.len()
            invariant
                i <= self.matchers@.len(),
                forall|j: int|
                    0 <= j < i ==> !(#[trigger] self@.matchers[j]).matches(
                        tool_name@,
                        opt_json(tool_input),
                        crate::json::opt_text(cwd),
                    ),
            decreases self.matchers@.len() - i,
        {
            assert(self@.matchers[i as int] == self.matchers@[i as int]@);
            if self.matchers[i].matches(tool_name, tool_input, cwd) {
                return true;
            }
            i += 1;
        }
        false
    }
}

impl ToolConfig {
    /// The first rule that matches a call.
    pub fn first_matching_rule(
        &self,
        tool_name: &str,
        tool_input: Option<&Json>,
        cwd: Option<&str>,
    ) -> (r: Option<usize>)
        ensures
            match r {
                Some(i) => self@.first_match(
                    i as int,
                    tool_name@,
                    opt_json(tool_input),
                    crate::json::opt_text(cwd),
                ),
                None => self@.unmatched(
                    tool_name@,
                    opt_json(tool_input),
                    crate::json::opt_text(cwd),
                ),
            },
    {
        let mut i: usize = 0;
        while i < self.rules.len()
            invariant
                i <= self.rules@.len(),
                forall|j: int|
                    0 <= j < i ==> !(#[trigger] self@.rules[j]).matches(
                        tool_name@,
                        opt_json(tool_input),
                        crate::json::opt_text(cwd),
                    ),
            decreases self.rules@.len() - i,
        {
            assert(self@.rules[i as int] == self.rules@[i as int]@);
            if self.rules[i].matches(tool_name, tool_input, cwd) {
                return Some(i);
            }
            i += 1;
        }
        None
    }

    /// What is made of a call once the first rule that matches it is known.
    pub fn action_of(&self, rule: Option<usize>) -> (r: ResolvedAction)
        requires
            self@.wf(),
            rule is Some ==> rule->0 < self.rules@.len(),
        ensures
            r@ == self@.resolved_by(
                match rule {
                    Some(i) => Some(i as int),
                    None => None,
                },
            ),
    {
        match rule {
            Some(i) => {
                let rule = &self.rules[i];
                assert(self@.rules[i as int] == rule@);
                match rule.action {
                    RuleAction::Allow => ResolvedAction::Allow,
                    RuleAction::Deny => ResolvedAction::Deny(clone_opt(&rule.message)),
                    RuleAction::Ask => ResolvedAction::Ask,
                    RuleAction::Delegate => match &rule.command {
                        Some(command) => ResolvedAction::Delegate(command.clone()),
                        None => ResolvedAction::Ask,
                    },
                }
            },
            None => default_to_resolved(&self.default),
        }
    }
}

/// What is told where a path is not absolute.
pub const RELATIVE_PATH_MESSAGE: &'static str = "path-based tool arguments must be absolute paths";

/// What becomes of a call: a path that is not absolute is denied; otherwise the
/// first rule that matches decides, or the default.
pub fn resolve_action(
    config: &ToolConfig,
    tool_name: &str,
    tool_input: Option<&Json>,
    cwd: Option<&str>,
) -> (r: ResolvedAction)
    requires
        config@.wf(),
    ensures
        config@.decides(tool_name@, opt_json(tool_input), crate::json::opt_text(cwd), r@),
{
    if is_path_tool(tool_name) {
        if let Some(input) = tool_input {
            if let Some(resolved) = get_matchable_arg(tool_name, input, cwd) {
                if !is_absolute(resolved.as_str()) {
                    return ResolvedAction::Deny(Some(RELATIVE_PATH_MESSAGE.to_string()));
                }
            }
        }
    }
    let rule = config.first_matching_rule(tool_name, tool_input, cwd);
    config.action_of(rule)
}

/// The matchers that a rule's entries are read as, or what is wrong with the
/// first entry that cannot be read.
pub open spec fn compiled_matchers(tools: Seq<Seq<char>>) -> Result<
    Seq<ToolMatcherView>,
    Seq<char>,
>
    decreases tools.len(),
{
    if tools.len() == 0 {
        Ok(Seq::empty())
    } else {
        match compiled_matchers(tools.drop_last()) {
            Ok(matchers) => match parsed_entry(tools.last()) {
                Ok(matcher) => Ok(matchers.push(matcher)),
                Err(fault) => Err(fault),
            },
            Err(fault) => Err(fault),
        }
    }
}

impl RuleJson {
    /// The rule that is written, or what is wrong with it.
    pub open spec fn compiled(self) -> Result<RuleView, Seq<char>> {
        if self.action is Delegate && self.command is None {
            Err(
                "rule for "@ + crate::hook::patterns::debug_list(crate::text::texts(self.tools@))
                    + " has action 'delegate' but no 'command'"@,
            )
        } else {
            match compiled_matchers(crate::text::texts(self.tools@)) {
                Ok(matchers) => Ok(
                    RuleView {
                        matchers,
                        action: self.action,
                        command: crate::text::opt_view(self.command),
                        message: crate::text::opt_view(self.message),
                    },
                ),
                Err(fault) => Err(fault),
            }
        }
    }
}

/// The rules that are written, or what is wrong with the first that cannot be read.
pub open spec fn compiled_rules(rules: Seq<RuleJson>) -> Result<Seq<RuleView>, Seq<char>>
    decreases rules.len(),
{
    if rules.len() == 0 {
        Ok(Seq::empty())
    } else {
        match compiled_rules(rules.drop_last()) {
            Ok(compiled) => match rules.last().compiled() {
                Ok(rule) => Ok(compiled.push(rule)),
                Err(fault) => Err(fault),
            },
            Err(fault) => Err(fault),
        }
    }
}

/// An error in the first part of the entries is an error of all.
proof fn matchers_fail_early(tools: Seq<Seq<char>>, n: int)
    requires
        0 <= n <= tools.len(),
        compiled_matchers(tools.take(n)) is Err,
    ensures
        compiled_matchers(tools) == compiled_matchers(tools.take(n)),
    decreases tools.len() - n,
{
    if n < tools.len() {
        assert(tools.take(n + 1).drop_last() =~= tools.take(n));
        matchers_fail_early(tools, n + 1);
    } else {
        assert(tools.take(n) =~= tools);
    }
}

/// An error in the first part of the rules is an error of all.
proof fn rules_fail_early(rules: Seq<RuleJson>, n: int)
    requires
        0 <= n <= rules.len(),
        compiled_rules(rules.take(n)) is Err,
    ensures
        compiled_rules(rules) == compiled_rules(rules.take(n)),
    decreases rules.len() - n,
{
    if n < rules.len() {
        assert(rules.take(n + 1).drop_last() =~= rules.take(n));
        rules_fail_early(rules, n + 1);
    } else {
        assert(rules.take(n) =~= rules);
    }
}

/// Rules that can be read name a command wherever they delegate.
pub proof fn compiled_rules_name_commands(rules: Seq<RuleJson>)
    ensures
        compiled_rules(rules) matches Ok(compiled) ==> compiled.len() == rules.len() && forall|i|
            0 <= i < compiled.len() ==> (#[trigger] compiled[i]).wf(),
    decreases rules.len(),
{
    if rules.len() > 0 {
        compiled_rules_name_commands(rules.drop_last());
    }
}

/// Reads the entries of a rule.
fn compile_matchers(tools: &Vec<String>) -> (r: Result<Vec<ToolMatcher>, String>)
    ensures
        match r {
            Ok(matchers) => compiled_matchers(crate::text::texts(tools@)) == Ok::<
                Seq<ToolMatcherView>,
                Seq<char>,
            >(matchers@.map_values(|matcher: ToolMatcher| matcher@)),
            Err(fault) => compiled_matchers(crate::text::texts(tools@)) == Err::<
                Seq<ToolMatcherView>,
                Seq<char>,
            >(fault@),
        },
{
    let ghost all = crate::text::texts(tools@);
    let mut matchers: Vec<ToolMatcher> = Vec::new();
    let mut i: usize = 0;
    assert(matchers@.map_values(|matcher: ToolMatcher| matcher@) =~= Seq::empty());
    while i < tools.len()
        invariant
            i <= tools@.len(),
            all == crate::text::texts(tools@),
            compiled_matchers(all.take(i as int)) == Ok::<Seq<ToolMatcherView>, Seq<char>>(
                matchers@.map_values(|matcher: ToolMatcher| matcher@),
            ),
        decreases tools@.len() - i,
    {
        assert(all.take(i + 1).drop_last() =~= all.take(i as int));
        assert(all.take(i + 1).last() == tools@[i as int]@);
        match parse_tool_entry(tools[i].as_str()) {
            Ok(matcher) => {
                let ghost before = matchers@;
                matchers.push(matcher);
                assert(matchers@.map_values(|matcher: ToolMatcher| matcher@)
                    =~= before.map_values(|matcher: ToolMatcher| matcher@).push(matcher@));
            },
            Err(fault) => {
                proof {
                    matchers_fail_early(all, i + 1);
                }
                return Err(fault);
            },
        }
        i += 1;
    }
    assert(all.take(i as int) =~= all);
    Ok(matchers)
}

/// Reads a set of rules.
pub fn compile_config(raw: ToolConfigJson) -> (r: Result<ToolConfig, String>)
    ensures
        match compiled_rules(raw.rules@) {
            Ok(rules) => r is Ok && r->Ok_0@ == (ToolConfigView { default: raw.default, rules })
                && r->Ok_0@.wf(),
            Err(fault) => r is Err && r->Err_0@ == fault,
        },
{
    let mut rules: Vec<Rule> = Vec::new();
    let mut i: usize = 0;
    assert(rules@.map_values(|rule: Rule| rule@) =~= Seq::empty());
    while i < raw.rules.len()
        invariant
            i <= raw.rules@.len(),
            compiled_rules(raw.rules@.take(i as int)) == Ok::<Seq<RuleView>, Seq<char>>(
                rules@.map_values(|rule: Rule| rule@),
            ),
        decreases raw.rules@.len() - i,
    {
        let written = &raw.rules[i];
        assert(raw.rules@.take(i + 1).drop_last() =~= raw.rules@.take(i as int));
        assert(raw.rules@.take(i + 1).last() == *written);
        if written.action == RuleAction::Delegate && written.command.is_none() {
            proof {
                rules_fail_early(raw.rules@, i + 1);
            }
            let tools = format_debug_list(&written.tools);
            return Err(
                joined3("rule for ", tools.as_str(), " has action 'delegate' but no 'command'"),
            );
        }
        let matchers = match compile_matchers(&written.tools) {
            Ok(matchers) => matchers,
            Err(fault) => {
                proof {
                    rules_fail_early(raw.rules@, i + 1);
                }
                return Err(fault);
            },
        };
        let rule = Rule {
            matchers,
            action: written.action,
            command: clone_opt(&written.command),
            message: clone_opt(&written.message),
        };
        let ghost before = rules@;
        rules.push(rule);
        assert(rules@.map_values(|rule: Rule| rule@) =~= before.map_values(
            |rule: Rule| rule@,
        ).push(rule@));
        i += 1;
    }
    assert(raw.rules@.take(i as int) =~= raw.rules@);
    proof {
        compiled_rules_name_commands(raw.rules@);
    }
    Ok(ToolConfig { default: raw.default, rules })
}

/// What came of reading a file of rules.
#[derive(Debug, PartialEq, Eq)]
pub enum ConfigFile {
    /// The file could not be read, and why.
    Unreadable(String),
    /// The file does not hold rules, and why.
    Malformed(String),
    Read(ToolConfigJson),
}

/// Makes rules of a file at `path`.
pub fn load_tool_config(path: &str, file: ConfigFile) -> (r: Result<ToolConfig, String>)
    ensures
        match file {
            ConfigFile::Unreadable(fault) => r is Err && r->Err_0@ == "failed to read config "@
                + path@ + ": "@ + fault@,
            ConfigFile::Malformed(fault) => r is Err && r->Err_0@ == "failed to parse config "@
                + path@ + ": "@ + fault@,
            ConfigFile::Read(raw) => match compiled_rules(raw.rules@) {
                Ok(rules) => r is Ok && r->Ok_0@ == (ToolConfigView {
                    default: raw.default,
                    rules,
                }) && r->Ok_0@.wf(),
                Err(fault) => r is Err && r->Err_0@ == fault,
            },
        },
{
    match file {
        ConfigFile::Unreadable(fault) => Err(
            joined(joined3("failed to read config ", path, ": ").as_str(), fault.as_str()),
        ),
        ConfigFile::Malformed(fault) => Err(
            joined(joined3("failed to parse config ", path, ": ").as_str(), fault.as_str()),
        ),
        ConfigFile::Read(raw) => compile_config(raw),
    }
}

/// The rules leave nothing open: at most one thing becomes of a call.
pub proof fn decision_is_unique(
    config: ToolConfigView,
    tool_name: Seq<char>,
    tool_input: Option<JsonView>,
    cwd: Option<Seq<char>>,
    one: ResolvedActionView,
    other: ResolvedActionView,
)
    requires
        config.decides(tool_name, tool_input, cwd, one),
        config.decides(tool_name, tool_input, cwd, other),
    ensures
        one == other,
{
    if !names_relative_path(tool_name, tool_input, cwd) && !config.unmatched(
        tool_name,
        tool_input,
        cwd,
    ) {
        let i = choose|i: int|
            #[trigger] config.first_match(i, tool_name, tool_input, cwd) && one
                == config.rules[i].resolved();
        let j = choose|j: int|
            #[trigger] config.first_match(j, tool_name, tool_input, cwd) && other
                == config.rules[j].resolved();
        if i < j {
            assert(!config.rules[i].matches(tool_name, tool_input, cwd));
        } else if j < i {
            assert(!config.rules[j].matches(tool_name, tool_input, cwd));
        }
    }
}

/// An earlier rule goes before a later one: what comes after the first match, and
/// the default, play no part.
pub proof fn earlier_rule_goes_first(
    config: ToolConfigView,
    other: ToolConfigView,
    i: int,
    tool_name: Seq<char>,
    tool_input: Option<JsonView>,
    cwd: Option<Seq<char>>,
)
    requires
        config.first_match(i, tool_name, tool_input, cwd),
        other.rules.len() > i,
        other.rules.take(i + 1) == config.rules.take(i + 1),
    ensures
        other.first_match(i, tool_name, tool_input, cwd),
        other.rules[i].resolved() == config.rules[i].resolved(),
{
    assert forall|j: int| 0 <= j <= i implies other.rules[j] == config.rules[j] by {
        assert(other.rules.take(i + 1)[j] == other.rules[j]);
        assert(config.rules.take(i + 1)[j] == config.rules[j]);
    }
}

/// A path below an absolute directory is absolute, so a relative path with an
/// absolute working directory is not denied for being relative.
pub proof fn absolute_directory_makes_paths_absolute(
    tool_name: Seq<char>,
    tool_input: Option<JsonView>,
    cwd: Seq<char>,
)
    requires
        crate::paths::absolute(cwd),
    ensures
        !names_relative_path(tool_name, tool_input, Some(cwd)),
{
}

/// Nothing but a tool whose argument is a path is denied for a relative path.
pub proof fn only_paths_must_be_absolute(
    tool_name: Seq<char>,
    tool_input: Option<JsonView>,
    cwd: Option<Seq<char>>,
)
    requires
        !path_tool(tool_name),
    ensures
        !names_relative_path(tool_name, tool_input, cwd),
{
}

/// A matcher with a pattern matches no call without an argument.
pub proof fn pattern_needs_an_argument(
    matcher: ToolMatcherView,
    tool_name: Seq<char>,
    tool_input: Option<JsonView>,
    cwd: Option<Seq<char>>,
)
    requires
        matcher.pattern is Some,
        call_argument(tool_name, tool_input, cwd) is None,
    ensures
        !matcher.matches(tool_name, tool_input, cwd),
{
}

/// The first rule that matches a call decides on it by its action: where it allows the
/// call is allowed, where it denies the call is denied with the rule's message, where
/// it asks the server is asked, and where it delegates its command decides.
pub proof fn first_matching_rule_decides(
    config: ToolConfigView,
    i: int,
    tool_name: Seq<char>,
    tool_input: Option<JsonView>,
    cwd: Option<Seq<char>>,
    action: ResolvedActionView,
)
    requires
        !names_relative_path(tool_name, tool_input, cwd),
        0 <= i < config.rules.len(),
        config.rules[i].matches(tool_name, tool_input, cwd),
        forall|j: int|
            0 <= j < i ==> !(#[trigger] config.rules[j]).matches(tool_name, tool_input, cwd),
        config.decides(tool_name, tool_input, cwd, action),
    ensures
        config.rules[i].action is Allow <==> action is Allow,
        config.rules[i].action is Deny <==> action is Deny,
        config.rules[i].action is Ask <==> action is Ask,
        config.rules[i].action is Delegate <==> action is Delegate,
        action matches ResolvedActionView::Deny(told) ==> told == config.rules[i].message,
        action matches ResolvedActionView::Delegate(command) ==> config.rules[i].command is Some
            ==> Some(command) == config.rules[i].command,
{
    assert(config.first_match(i, tool_name, tool_input, cwd));
    assert(!config.unmatched(tool_name, tool_input, cwd));
    let k = choose|k: int|
        #[trigger] config.first_match(k, tool_name, tool_input, cwd) && action
            == config.rules[k].resolved();
    if k < i {
        assert(!config.rules[k].matches(tool_name, tool_input, cwd));
    } else if i < k {
        assert(!config.rules[i].matches(tool_name, tool_input, cwd));
    }
}

/// A call that no rule matches is allowed, denied or asked about by the default, and
/// is then never delegated.
pub proof fn default_decides_where_no_rule_matches(
    config: ToolConfigView,
    tool_name: Seq<char>,
    tool_input: Option<JsonView>,
    cwd: Option<Seq<char>>,
    action: ResolvedActionView,
)
    requires
        !names_relative_path(tool_name, tool_input, cwd),
        forall|j: int|
            0 <= j < config.rules.len() ==> !(#[trigger] config.rules[j]).matches(
                tool_name,
                tool_input,
                cwd,
            ),
        config.decides(tool_name, tool_input, cwd, action),
    ensures
        config.default is Allow <==> action is Allow,
        config.default is Deny <==> action is Deny,
        config.default is Ask <==> action is Ask,
        !(action is Delegate),
        action matches ResolvedActionView::Deny(told) ==> told is None,
{
}

/// A call is allowed without being asked about only where the first rule that matches
/// it allows it, or no rule matches it and the default allows. A call of a path that
/// is not absolute is never allowed: it is denied, and told why.
pub proof fn allowed_only_by_rule_or_default(
    config: ToolConfigView,
    tool_name: Seq<char>,
    tool_input: Option<JsonView>,
    cwd: Option<Seq<char>>,
    action: ResolvedActionView,
)
    requires
        config.decides(tool_name, tool_input, cwd, action),
    ensures
        names_relative_path(tool_name, tool_input, cwd) ==> action == ResolvedActionView::Deny(
            Some("path-based tool arguments must be absolute paths"@),
        ),
        action is Allow ==> {
            ||| exists|i: int|
                0 <= i < config.rules.len() && (#[trigger] config.rules[i]).matches(
                    tool_name,
                    tool_input,
                    cwd,
                ) && config.rules[i].action is Allow && forall|j: int|
                    0 <= j < i ==> !(#[trigger] config.rules[j]).matches(
                        tool_name,
                        tool_input,
                        cwd,
                    )
            ||| config.default is Allow && forall|j: int|
                0 <= j < config.rules.len() ==> !(#[trigger] config.rules[j]).matches(
                    tool_name,
                    tool_input,
                    cwd,
                )
        },
{
    if action is Allow && !(config.unmatched(tool_name, tool_input, cwd) && action
        == default_resolved(config.default)) {
        let k = choose|k: int|
            #[trigger] config.first_match(k, tool_name, tool_input, cwd) && action
                == config.rules[k].resolved();
        assert(config.rules[k].matches(tool_name, tool_input, cwd));
    }
}

/// A rule matches a call where any of its matchers does.
pub proof fn any_matcher_is_enough(
    rule: RuleView,
    i: int,
    tool_name: Seq<char>,
    tool_input: Option<JsonView>,
    cwd: Option<Seq<char>>,
)
    requires
        0 <= i < rule.matchers.len(),
    ensures
        rule.matchers[i].matches(tool_name, tool_input, cwd) ==> rule.matches(
            tool_name,
            tool_input,
            cwd,
        ),
        (forall|j: int|
            0 <= j < rule.matchers.len() ==> !(#[trigger] rule.matchers[j]).matches(
                tool_name,
                tool_input,
                cwd,
            )) ==> !rule.matches(tool_name, tool_input, cwd),
{
}

/// A matcher matches calls of the tool that it names and of no other. Without a pattern
/// it matches all of them; with one, those whose argument the pattern matches.
pub proof fn matcher_is_for_one_tool(
    matcher: ToolMatcherView,
    tool_name: Seq<char>,
    tool_input: Option<JsonView>,
    cwd: Option<Seq<char>>,
    value: Seq<char>,
)
    ensures
        matcher.name != tool_name ==> !matcher.matches(tool_name, tool_input, cwd),
        matcher.name == tool_name && matcher.pattern is None ==> matcher.matches(
            tool_name,
            tool_input,
            cwd,
        ),
        matcher.name == tool_name && call_argument(tool_name, tool_input, cwd) == Some(value) ==> (
        match matcher.pattern {
            Some(ToolPatternView::Glob(glob)) => matcher.matches(tool_name, tool_input, cwd)
                <==> crate::hook::patterns::glob_selects(glob, value),
            Some(ToolPatternView::Regex(expression)) => matcher.matches(tool_name, tool_input, cwd)
                <==> crate::hook::patterns::regex_selects(expression, value),
            None => true,
        }),
{
}

/// Patterns are held against the command of a shell call, the address that is fetched,
/// and the path of a call on a file or a notebook; a file's path stands under `path`,
/// or else under `file_path`. No other call has an argument.
pub proof fn argument_is_what_the_tool_works_on(tool_name: Seq<char>, tool_input: JsonView)
    ensures
        tool_name == "Bash"@ || tool_name == "Shell"@ ==> raw_argument(tool_name, tool_input)
            == tool_input.text_member("command"@),
        tool_name == "WebFetch"@ ==> raw_argument(tool_name, tool_input)
            == tool_input.text_member("url"@),
        tool_name == "EditNotebook"@ || tool_name == "NotebookEdit"@ ==> raw_argument(
            tool_name,
            tool_input,
        ) == tool_input.text_member("target_notebook"@),
        tool_name == "Read"@ || tool_name == "Write"@ || tool_name == "StrReplace"@ || tool_name
            == "Delete"@ || tool_name == "Edit"@ || tool_name == "MultiEdit"@ ==> {
            &&& tool_input.member("path"@) is Some ==> raw_argument(tool_name, tool_input)
                == tool_input.text_member("path"@)
            &&& tool_input.member("path"@) is None ==> raw_argument(tool_name, tool_input)
                == tool_input.text_member("file_path"@)
        },
        raw_argument(tool_name, tool_input) is Some ==> path_tool(tool_name) || tool_name
            == "Bash"@ || tool_name == "Shell"@ || tool_name == "WebFetch"@,
        path_tool(tool_name) <==> tool_name == "Read"@ || tool_name == "Write"@ || tool_name
            == "StrReplace"@ || tool_name == "Delete"@ || tool_name == "Edit"@ || tool_name
            == "MultiEdit"@ || tool_name == "EditNotebook"@ || tool_name == "NotebookEdit"@,
{
    tool_names_differ();
}

/// The names of tools are told apart.
proof fn tool_names_differ()
    ensures
        ({
            let others = seq!["Bash"@, "Shell"@, "WebFetch"@];
            let files = seq![
                "Read"@,
                "Write"@,
                "StrReplace"@,
                "Delete"@,
                "Edit"@,
                "MultiEdit"@,
                "EditNotebook"@,
                "NotebookEdit"@,
            ];
            &&& forall|i: int, j: int|
                0 <= i < 3 && 0 <= j < 8 ==> #[trigger] others[i] != #[trigger] files[j]
        }),
        "Bash"@ != "WebFetch"@ && "Shell"@ != "WebFetch"@,
        !file_tool("EditNotebook"@) && !file_tool("NotebookEdit"@),
        !path_tool("Bash"@) && !path_tool("Shell"@) && !path_tool("WebFetch"@),
{
    reveal_strlit("Bash");
    reveal_strlit("Shell");
    reveal_strlit("WebFetch");
    reveal_strlit("Read");
    reveal_strlit("Write");
    reveal_strlit("StrReplace");
    reveal_strlit("Delete");
    reveal_strlit("Edit");
    reveal_strlit("MultiEdit");
    reveal_strlit("EditNotebook");
    reveal_strlit("NotebookEdit");
    assert("Bash"@.len() == 4 && "Bash"@[0] == 'B');
    assert("Shell"@.len() == 5 && "Shell"@[0] == 'S');
    assert("WebFetch"@.len() == 8 && "WebFetch"@[0] == 'W');
    assert("Read"@.len() == 4 && "Read"@[0] == 'R');
    assert("Write"@.len() == 5 && "Write"@[0] == 'W');
    assert("StrReplace"@.len() == 10);
    assert("Delete"@.len() == 6);
    assert("Edit"@.len() == 4 && "Edit"@[0] == 'E');
    assert("MultiEdit"@.len() == 9);
    assert("EditNotebook"@.len() == 12 && "NotebookEdit"@.len() == 12);
}

/// A path that is absolute is taken as it is given, whatever the working directory. One
/// that is not is taken from there: it starts with the directory, ends with the path,
/// and has one slash between them. Any other argument is taken as it is given.
pub proof fn relative_path_is_taken_from_the_directory(
    tool_name: Seq<char>,
    tool_input: JsonView,
    cwd: Option<Seq<char>>,
    raw: Seq<char>,
)
    requires
        raw_argument(tool_name, tool_input) == Some(raw),
    ensures
        ({
            let argument = matchable_argument(tool_name, tool_input, cwd);
            &&& !path_tool(tool_name) || crate::paths::absolute(raw) || cwd is None ==> argument
                == Some(raw)
            &&& path_tool(tool_name) && !crate::paths::absolute(raw) ==> (match cwd {
                Some(dir) => {
                    &&& argument is Some
                    &&& crate::text::starts_with(argument->0, dir)
                    &&& argument->0.len() >= raw.len()
                    &&& argument->0.skip(argument->0.len() - raw.len()) == raw
                    &&& dir.len() > 0 ==> argument->0[argument->0.len() - raw.len() - 1] == '/'
                    &&& argument->0.len() <= dir.len() + raw.len() + 1
                    &&& dir.len() > 0 && dir.last() == '/' ==> argument->0.len() == dir.len()
                        + raw.len()
                },
                None => true,
            })
        }),
        raw_argument(tool_name, tool_input) is None ==> matchable_argument(
            tool_name,
            tool_input,
            cwd,
        ) is None,
{
    if let Some(dir) = cwd {
        let whole = crate::paths::below(dir, raw);
        assert(whole.take(dir.len() as int) =~= dir);
        assert(whole.skip(whole.len() - raw.len()) =~= raw);
    }
}

/// An entry that was put together of a name and a pattern in brackets is taken apart
/// into the same: a regular expression after its mark, a glob without.
pub proof fn entry_is_taken_apart_as_put_together(name: Seq<char>, pattern: Seq<char>)
    requires
        name.len() > 0,
        !name.contains('('),
        pattern.len() > 0,
    ensures
        split_entry(name) == Ok::<ToolMatcherView, Seq<char>>(
            ToolMatcherView { name, pattern: None },
        ),
        !crate::text::starts_with(pattern, "regex:"@) ==> split_entry(
            name + seq!['('] + pattern + seq![')'],
        ) == Ok::<ToolMatcherView, Seq<char>>(
            ToolMatcherView { name, pattern: Some(ToolPatternView::Glob(pattern)) },
        ),
        split_entry(name + seq!['('] + ("regex:"@ + pattern) + seq![')']) == Ok::<
            ToolMatcherView,
            Seq<char>,
        >(ToolMatcherView { name, pattern: Some(ToolPatternView::Regex(pattern)) }),
{
    first_bracket(name, Seq::empty());
    assert(name + Seq::<char>::empty() =~= name);
    let rest = seq!['('] + pattern + seq![')'];
    let entry = name + seq!['('] + pattern + seq![')'];
    assert(entry =~= name + rest);
    first_bracket(name, rest);
    assert(entry.take(name.len() as int) =~= name);
    assert(entry.subrange(name.len() as int + 1, entry.len() - 1) =~= pattern);
    assert(entry.last() == ')');
    let marked = "regex:"@ + pattern;
    let rest1 = seq!['('] + marked + seq![')'];
    let entry1 = name + seq!['('] + marked + seq![')'];
    assert(entry1 =~= name + rest1);
    first_bracket(name, rest1);
    assert(entry1.take(name.len() as int) =~= name);
    assert(entry1.subrange(name.len() as int + 1, entry1.len() - 1) =~= marked);
    assert(entry1.last() == ')');
    assert(marked.take("regex:"@.len() as int) =~= "regex:"@);
    assert(marked.skip("regex:"@.len() as int) =~= pattern);
}

/// The first bracket stands behind a start without one.
proof fn first_bracket(start: Seq<char>, rest: Seq<char>)
    requires
        !start.contains('('),
        rest.len() == 0 || rest[0] == '(',
    ensures
        crate::text::first_of(start + rest, '(') == start.len(),
    decreases start.len(),
{
    let all = start + rest;
    if start.len() > 0 {
        let tail = start.drop_first();
        assert(start[0] != '(') by {
            if start[0] == '(' {
                assert(start.contains('('));
            }
        }
        assert(!tail.contains('(')) by {
            if tail.contains('(') {
                let k = choose|k: int| 0 <= k < tail.len() && tail[k] == '(';
                assert(start[k + 1] == '(');
            }
        }
        first_bracket(tail, rest);
        assert(all.drop_first() =~= tail + rest);
    } else {
        assert(all =~= rest);
    }
}

/// An entry that opens a bracket and does not end with one, or that lacks a name or a
/// pattern, is refused, and the entry is named.
pub proof fn broken_entry_is_refused(entry: Seq<char>, name: Seq<char>, rest: Seq<char>)
    requires
        !name.contains('('),
        entry == name + seq!['('] + rest,
    ensures
        entry.last() != ')' ==> split_entry(entry) == Err::<ToolMatcherView, Seq<char>>(
            "malformed tool pattern (missing closing paren): "@ + entry,
        ),
        entry.last() == ')' && (name.len() == 0 || rest.len() == 1) ==> split_entry(entry)
            == Err::<ToolMatcherView, Seq<char>>("empty tool name or pattern: "@ + entry),
{
    first_bracket(name, seq!['('] + rest);
    assert(entry =~= name + (seq!['('] + rest));
    assert(entry.take(name.len() as int) =~= name);
    if rest.len() > 0 {
        assert(entry.subrange(name.len() as int + 1, entry.len() - 1).len() == rest.len() - 1);
    }
}

/// An entry is taken exactly where its pattern, if it has one, can be compiled; it is
/// then what it was taken apart into. Otherwise it is refused, with what is wrong.
pub proof fn entry_is_taken_where_its_pattern_compiles(entry: Seq<char>)
    ensures
        match split_entry(entry) {
            Ok(matcher) => match matcher.pattern {
                None => parsed_entry(entry) == Ok::<ToolMatcherView, Seq<char>>(matcher),
                Some(ToolPatternView::Glob(glob)) => match crate::hook::patterns::glob_fault(
                    glob,
                ) {
                    None => parsed_entry(entry) == Ok::<ToolMatcherView, Seq<char>>(matcher),
                    Some(fault) => parsed_entry(entry) == Err::<ToolMatcherView, Seq<char>>(
                        "invalid glob in '"@ + entry + "': "@ + fault,
                    ),
                },
                Some(ToolPatternView::Regex(expression)) =>
                    match crate::hook::patterns::regex_fault(expression) {
                    None => parsed_entry(entry) == Ok::<ToolMatcherView, Seq<char>>(matcher),
                    Some(fault) => parsed_entry(entry) == Err::<ToolMatcherView, Seq<char>>(
                        "invalid regex in '"@ + entry + "': "@ + fault,
                    ),
                },
            },
            Err(fault) => parsed_entry(entry) == Err::<ToolMatcherView, Seq<char>>(fault),
        },
{
}

/// Entries that can be read are read one by one, in their order.
pub proof fn matchers_stand_for_their_entries(tools: Seq<Seq<char>>, i: int)
    requires
        compiled_matchers(tools) is Ok,
        0 <= i < tools.len(),
    ensures
        compiled_matchers(tools)->Ok_0.len() == tools.len(),
        parsed_entry(tools[i]) == Ok::<ToolMatcherView, Seq<char>>(
            compiled_matchers(tools)->Ok_0[i],
        ),
    decreases tools.len(),
{
    let fewer = tools.drop_last();
    if fewer.len() > 0 {
        matchers_stand_for_their_entries(fewer, if i < fewer.len() { i } else { 0 });
    } else {
        assert(compiled_matchers(fewer)->Ok_0.len() == 0);
    }
    if i < fewer.len() {
        assert(fewer[i] == tools[i]);
    }
}

/// Rules that can be read keep what is written: their order, their actions, their
/// commands and their messages, and a matcher for each of their entries. A rule that
/// delegates without a command makes the whole unreadable.
pub proof fn compiled_rules_keep_what_is_written(rules: Seq<RuleJson>, i: int)
    requires
        0 <= i < rules.len(),
    ensures
        rules[i].action is Delegate && rules[i].command is None ==> compiled_rules(rules) is Err,
        compiled_rules(rules) matches Ok(compiled) ==> {
            &&& compiled.len() == rules.len()
            &&& compiled[i].action == rules[i].action
            &&& compiled[i].command == crate::text::opt_view(rules[i].command)
            &&& compiled[i].message == crate::text::opt_view(rules[i].message)
            &&& compiled_matchers(crate::text::texts(rules[i].tools@)) == Ok::<
                Seq<ToolMatcherView>,
                Seq<char>,
            >(compiled[i].matchers)
        },
    decreases rules.len(),
{
    let fewer = rules.drop_last();
    if fewer.len() > 0 {
        compiled_rules_keep_what_is_written(fewer, if i < fewer.len() { i } else { 0 });
    } else {
        assert(compiled_rules(fewer)->Ok_0.len() == 0);
    }
    if i < fewer.len() {
        assert(fewer[i] == rules[i]);
    }
}

/// What the rules make of a call: it is denied where it names a path that is not
/// absolute; otherwise the first rule that matches it decides by its action, with its
/// message or its command; and where none matches, the default does.
pub proof fn rules_decide_on_a_call(
    config: &ToolConfig,
    tool_name: &str,
    tool_input: Option<&Json>,
    cwd: Option<&str>,
    r: ResolvedAction,
    i: int,
)
    requires
        config@.wf(),
        call_ensures(resolve_action, (config, tool_name, tool_input, cwd), r),
    ensures
        ({
            let name = tool_name@;
            let input = opt_json(tool_input);
            let dir = crate::json::opt_text(cwd);
            let rule = config.rules@[i];
            let relative = names_relative_path(name, input, dir);
            let first = 0 <= i < config.rules@.len() && rule@.matches(name, input, dir)
                && forall|j: int|
                0 <= j < i ==> !(#[trigger] config.rules@[j])@.matches(name, input, dir);
            let none = forall|j: int|
                0 <= j < config.rules@.len() ==> !(#[trigger] config.rules@[j])@.matches(
                    name,
                    input,
                    dir,
                );
            &&& relative ==> r is Deny && r->Deny_0 is Some && r->Deny_0->0@
                == "path-based tool arguments must be absolute paths"@
            &&& !relative && first ==> {
                &&& rule.action is Allow <==> r is Allow
                &&& rule.action is Ask <==> r is Ask
                &&& rule.action is Deny <==> r is Deny
                &&& rule.action is Delegate <==> r is Delegate
                &&& r is Deny ==> crate::text::opt_view(r->Deny_0) == crate::text::opt_view(
                    rule.message,
                )
                &&& r is Delegate ==> rule.command is Some && r->Delegate_0@ == rule.command->0@
            }
            &&& !relative && none ==> {
                &&& config.default is Allow <==> r is Allow
                &&& config.default is Ask <==> r is Ask
                &&& config.default is Deny <==> r is Deny
                &&& r is Deny ==> r->Deny_0 is None
            }
        }),
{
    let name = tool_name@;
    let input = opt_json(tool_input);
    let dir = crate::json::opt_text(cwd);
    assert forall|j: int| 0 <= j < config.rules@.len() implies #[trigger] config@.rules[j]
        == config.rules@[j]@ by {}
    if !names_relative_path(name, input, dir) {
        if 0 <= i < config.rules@.len() && config.rules@[i]@.matches(name, input, dir) && (forall|
            j: int,
        |
            0 <= j < i ==> !(#[trigger] config.rules@[j])@.matches(name, input, dir)) {
            assert forall|j: int| 0 <= j < i implies !(#[trigger] config@.rules[j]).matches(
                name,
                input,
                dir,
            ) by {
                assert(!config.rules@[j]@.matches(name, input, dir));
            }
            assert(config@.rules[i].wf());
            first_matching_rule_decides(config@, i, name, input, dir, r@);
        }
        if forall|j: int|
            0 <= j < config.rules@.len() ==> !(#[trigger] config.rules@[j])@.matches(
                name,
                input,
                dir,
            ) {
            assert forall|j: int| 0 <= j < config@.rules.len() implies !(
            #[trigger] config@.rules[j]).matches(name, input, dir) by {
                assert(!config.rules@[j]@.matches(name, input, dir));
            }
            default_decides_where_no_rule_matches(config@, name, input, dir, r@);
        }
    }
}

/// The rule that is found is the first that matches, and none is found only where none
/// matches.
pub proof fn first_rule_is_found(
    config: &ToolConfig,
    tool_name: &str,
    tool_input: Option<&Json>,
    cwd: Option<&str>,
    r: Option<usize>,
    j: int,
)
    requires
        call_ensures(ToolConfig::first_matching_rule, (config, tool_name, tool_input, cwd), r),
        0 <= j < config.rules@.len(),
    ensures
        ({
            let matches = config.rules@[j]@.matches(
                tool_name@,
                opt_json(tool_input),
                crate::json::opt_text(cwd),
            );
            &&& r matches Some(i) ==> i < config.rules@.len() && (j == i ==> matches) && (j < i
                ==> !matches)
            &&& r is None ==> !matches
        }),
{
    assert(config@.rules[j] == config.rules@[j]@);
}

/// A rule that is found acts by its action: it allows, asks, denies with its message or
/// delegates to its command; where none is found the default allows, asks or denies.
pub proof fn rule_acts_by_its_action(config: &ToolConfig, rule: Option<usize>, r: ResolvedAction)
    requires
        config@.wf(),
        rule is Some ==> rule->0 < config.rules@.len(),
        call_ensures(ToolConfig::action_of, (config, rule), r),
    ensures
        rule matches Some(i) ==> match config.rules@[i as int].action {
            RuleAction::Allow => r is Allow,
            RuleAction::Ask => r is Ask,
            RuleAction::Deny => r is Deny && crate::text::opt_view(r->Deny_0)
                == crate::text::opt_view(config.rules@[i as int].message),
            RuleAction::Delegate => r is Delegate && config.rules@[i as int].command is Some
                && r->Delegate_0@ == config.rules@[i as int].command->0@,
        },
        rule is None ==> match config.default {
            DefaultAction::Allow => r is Allow,
            DefaultAction::Ask => r is Ask,
            DefaultAction::Deny => r is Deny && r->Deny_0 is None,
        },
{
    if let Some(i) = rule {
        assert(config@.rules[i as int] == config.rules@[i as int]@);
        assert(config@.rules[i as int].wf());
    }
}

/// A default stands for itself: it allows, asks, or denies without a message.
pub proof fn default_stands_for_itself(default: &DefaultAction, r: ResolvedAction)
    requires
        call_ensures(default_to_resolved, (default,), r),
    ensures
        default is Allow <==> r is Allow,
        default is Ask <==> r is Ask,
        default is Deny <==> r is Deny,
        r is Deny ==> r->Deny_0 is None,
{
}

/// A matcher is for the tool that it names; where it has a pattern, the call must have
/// an argument that the pattern matches.
pub proof fn matcher_needs_name_and_pattern(
    matcher: &ToolMatcher,
    tool_name: &str,
    tool_input: Option<&Json>,
    cwd: Option<&str>,
    r: bool,
    argument: Option<String>,
    value: &str,
    selected: bool,
    given: bool,
)
    requires
        call_ensures(ToolMatcher::matches, (matcher, tool_name, tool_input, cwd), r),
        tool_input is Some ==> call_ensures(
            get_matchable_arg,
            (tool_name, tool_input->0, cwd),
            argument,
        ),
        tool_input is None ==> argument is None,
        argument is Some ==> value@ == argument->0@,
        matcher.pattern is Some ==> call_ensures(
            ToolPattern::is_match,
            (&matcher.pattern->0, value),
            selected,
        ),
        call_ensures(ToolMatcher::matches_given, (matcher, tool_name, selected), given),
    ensures
        matcher.name@ != tool_name@ ==> !r && !given,
        matcher.name@ == tool_name@ && matcher.pattern is None ==> r && given,
        matcher.name@ == tool_name@ && matcher.pattern is Some ==> r == (argument is Some
            && selected) && given == selected,
{
}

/// A rule is for every call that one of its matchers is for.
pub proof fn rule_is_for_what_its_matchers_are_for(
    rule: &Rule,
    tool_name: &str,
    tool_input: Option<&Json>,
    cwd: Option<&str>,
    r: bool,
    i: int,
    one: bool,
)
    requires
        call_ensures(Rule::matches, (rule, tool_name, tool_input, cwd), r),
        0 <= i < rule.matchers@.len(),
        call_ensures(ToolMatcher::matches, (&rule.matchers@[i], tool_name, tool_input, cwd), one),
    ensures
        one ==> r,
        r ==> exists|k: int|
            0 <= k < rule.matchers@.len() && (#[trigger] rule.matchers@[k])@.matches(
                tool_name@,
                opt_json(tool_input),
                crate::json::opt_text(cwd),
            ),
{
    assert(rule@.matchers[i] == rule.matchers@[i]@);
    if r {
        let k = choose|k: int|
            0 <= k < rule@.matchers.len() && (#[trigger] rule@.matchers[k]).matches(
                tool_name@,
                opt_json(tool_input),
                crate::json::opt_text(cwd),
            );
        assert(rule@.matchers[k] == rule.matchers@[k]@);
    }
}

/// A pattern is held against the whole argument by its own kind, and what is wrong with
/// it is what its own kind finds.
pub proof fn pattern_is_of_its_kind(
    pattern: &ToolPattern,
    value: &str,
    r: bool,
    fault: Option<String>,
)
    requires
        call_ensures(ToolPattern::is_match, (pattern, value), r),
        call_ensures(ToolPattern::check, (pattern,), fault),
    ensures
        pattern matches ToolPattern::Glob(glob) ==> r == crate::hook::patterns::glob_selects(
            glob@,
            value@,
        ) && crate::text::opt_view(fault) == crate::hook::patterns::glob_fault(glob@),
        pattern matches ToolPattern::Regex(expression) ==> r
            == crate::hook::patterns::regex_selects(expression@, value@)
            && crate::text::opt_view(fault) == crate::hook::patterns::regex_fault(expression@),
{
}

/// The argument of a call: the command of a shell call, the address that is fetched, and
/// the path of a call on a notebook or a file, each as it is given where it starts at
/// the root or no directory is known; no other call has one.
pub proof fn argument_of_a_call(
    tool_name: &str,
    tool_input: &Json,
    cwd: Option<&str>,
    r: Option<String>,
    on_path: bool,
)
    requires
        call_ensures(get_matchable_arg, (tool_name, tool_input, cwd), r),
        call_ensures(is_path_tool, (tool_name,), on_path),
    ensures
        ({
            let name = tool_name@;
            let shell = name == "Bash"@ || name == "Shell"@;
            let fetch = name == "WebFetch"@;
            let notebook = name == "EditNotebook"@ || name == "NotebookEdit"@;
            let file = name == "Read"@ || name == "Write"@ || name == "StrReplace"@ || name
                == "Delete"@ || name == "Edit"@ || name == "MultiEdit"@;
            let path = if notebook {
                tool_input@.text_member("target_notebook"@)
            } else if tool_input@.member("path"@) is Some {
                tool_input@.text_member("path"@)
            } else {
                tool_input@.text_member("file_path"@)
            };
            &&& on_path == (notebook || file)
            &&& shell ==> crate::text::opt_view(r) == tool_input@.text_member("command"@)
            &&& fetch ==> crate::text::opt_view(r) == tool_input@.text_member("url"@)
            &&& !(shell || fetch || notebook || file) ==> r is None
            &&& notebook || file ==> (r is Some <==> path is Some)
            &&& (notebook || file) && path is Some && (cwd is None || (path->0.len() > 0
                && path->0[0] == '/')) ==> r->0@ == path->0
            &&& (notebook || file) && path is Some && cwd is Some && !(path->0.len() > 0
                && path->0[0] == '/') ==> {
                let dir = cwd->0@;
                &&& r->0@.len() >= dir.len() + path->0.len()
                &&& r->0@.take(dir.len() as int) == dir
                &&& r->0@.skip(r->0@.len() - path->0.len()) == path->0
                &&& dir.len() > 0 ==> r->0@[r->0@.len() - path->0.len() - 1] == '/'
                &&& dir.len() > 0 && dir.last() == '/' ==> r->0@.len() == dir.len()
                    + path->0.len()
                &&& dir.len() > 0 && dir.last() != '/' ==> r->0@.len() == dir.len()
                    + path->0.len() + 1
            }
        }),
{
    argument_is_what_the_tool_works_on(tool_name@, tool_input@);
    tool_names_differ();
    if let Some(raw) = raw_argument(tool_name@, tool_input@) {
        relative_path_is_taken_from_the_directory(
            tool_name@,
            tool_input@,
            crate::json::opt_text(cwd),
            raw,
        );
    }
}

/// An entry is read as the matcher that it was written for, if its pattern can be
/// compiled: the name alone, or with a glob or a regular expression in brackets.
pub proof fn entry_is_read_as_written(
    entry: &str,
    name: Seq<char>,
    pattern: Seq<char>,
    split: Result<ToolMatcher, String>,
    r: Result<ToolMatcher, String>,
)
    requires
        call_ensures(split_tool_entry, (entry,), split),
        call_ensures(parse_tool_entry, (entry,), r),
        name.len() > 0,
        !name.contains('('),
        pattern.len() > 0,
    ensures
        entry@ == name ==> split is Ok && r is Ok && split->Ok_0@ == r->Ok_0@ && r->Ok_0.name@
            == name && r->Ok_0.pattern is None,
        entry@ == name + seq!['('] + pattern + seq![')'] && !crate::text::starts_with(
            pattern,
            "regex:"@,
        ) ==> {
            &&& split is Ok
            &&& split->Ok_0.name@ == name
            &&& split->Ok_0.pattern matches Some(ToolPattern::Glob(glob)) && glob@ == pattern
            &&& r is Ok <==> crate::hook::patterns::glob_fault(pattern) is None
            &&& r is Ok ==> r->Ok_0@ == split->Ok_0@
            &&& r is Err ==> r->Err_0@ == "invalid glob in '"@ + entry@ + "': "@
                + crate::hook::patterns::glob_fault(pattern)->0
        },
        entry@ == name + seq!['('] + ("regex:"@ + pattern) + seq![')'] ==> {
            &&& split is Ok
            &&& split->Ok_0.name@ == name
            &&& split->Ok_0.pattern matches Some(ToolPattern::Regex(expression)) && expression@
                == pattern
            &&& r is Ok <==> crate::hook::patterns::regex_fault(pattern) is None
            &&& r is Ok ==> r->Ok_0@ == split->Ok_0@
            &&& r is Err ==> r->Err_0@ == "invalid regex in '"@ + entry@ + "': "@
                + crate::hook::patterns::regex_fault(pattern)->0
        },
{
    entry_is_taken_apart_as_put_together(name, pattern);
    entry_is_taken_where_its_pattern_compiles(entry@);
}

/// An entry that opens a bracket and does not end with one is refused, and so is one
/// that lacks a name or a pattern; each refusal names the entry.
pub proof fn broken_entry_is_not_read(
    entry: &str,
    name: Seq<char>,
    rest: Seq<char>,
    split: Result<ToolMatcher, String>,
    r: Result<ToolMatcher, String>,
)
    requires
        call_ensures(split_tool_entry, (entry,), split),
        call_ensures(parse_tool_entry, (entry,), r),
        !name.contains('('),
        entry@ == name + seq!['('] + rest,
    ensures
        entry@.last() != ')' ==> split is Err && r is Err && split->Err_0@ == r->Err_0@
            && r->Err_0@ == "malformed tool pattern (missing closing paren): "@ + entry@,
        entry@.last() == ')' && (name.len() == 0 || rest.len() == 1) ==> split is Err && r is Err
            && split->Err_0@ == r->Err_0@ && r->Err_0@ == "empty tool name or pattern: "@
            + entry@,
{
    broken_entry_is_refused(entry@, name, rest);
}

/// A matcher is refused exactly where something is wrong with the pattern that it has;
/// one that is taken is the one that was given.
pub proof fn matcher_is_refused_for_its_pattern(
    entry: &str,
    matcher: ToolMatcher,
    fault: Option<String>,
    r: Result<ToolMatcher, String>,
)
    requires
        call_ensures(accept_tool_entry, (entry, matcher, fault), r),
    ensures
        r is Err <==> matcher.pattern is Some && fault is Some,
        r is Ok ==> r->Ok_0@ == matcher@,
        r is Err ==> r->Err_0@ == (if matcher.pattern->0 is Glob {
            "invalid glob in '"@
        } else {
            "invalid regex in '"@
        }) + entry@ + "': "@ + fault->0@,
{
}

/// Rules that are read are those that are written, one for one and in their order: each
/// with its action, its command and its message, and with a matcher for each entry.
pub proof fn rules_are_read_as_written(
    raw: ToolConfigJson,
    path: &str,
    compiled: Result<ToolConfig, String>,
    loaded: Result<ToolConfig, String>,
    i: int,
    k: int,
)
    requires
        call_ensures(compile_config, (raw,), compiled),
        call_ensures(load_tool_config, (path, ConfigFile::Read(raw)), loaded),
        0 <= i < raw.rules@.len(),
    ensures
        raw.rules@[i].action is Delegate && raw.rules@[i].command is None ==> compiled is Err,
        compiled is Ok == loaded is Ok,
        compiled is Ok ==> compiled->Ok_0@ == loaded->Ok_0@,
        compiled is Err ==> compiled->Err_0@ == loaded->Err_0@,
        compiled is Ok ==> {
            let config = compiled->Ok_0;
            &&& config.default == raw.default
            &&& config.rules@.len() == raw.rules@.len()
            &&& config.rules@[i].action == raw.rules@[i].action
            &&& crate::text::opt_view(config.rules@[i].command) == crate::text::opt_view(
                raw.rules@[i].command,
            )
            &&& crate::text::opt_view(config.rules@[i].message) == crate::text::opt_view(
                raw.rules@[i].message,
            )
            &&& config.rules@[i].matchers@.len() == raw.rules@[i].tools@.len()
            &&& 0 <= k < raw.rules@[i].tools@.len() ==> parsed_entry(raw.rules@[i].tools@[k]@)
                == Ok::<ToolMatcherView, Seq<char>>(config.rules@[i].matchers@[k]@)
        },
{
    compiled_rules_keep_what_is_written(raw.rules@, i);
    if let Ok(config) = compiled {
        assert(config@.rules.len() == config.rules@.len());
        assert(config@.rules[i] == config.rules@[i]@);
        assert(config@.rules[i].matchers.len() == config.rules@[i].matchers@.len());
        let tools = crate::text::texts(raw.rules@[i].tools@);
        assert(tools.len() == raw.rules@[i].tools@.len());
        if tools.len() > 0 {
            matchers_stand_for_their_entries(tools, 0);
        } else {
            assert(compiled_matchers(tools)->Ok_0.len() == 0);
        }
        if 0 <= k < tools.len() {
            matchers_stand_for_their_entries(tools, k);
            assert(tools[k] == raw.rules@[i].tools@[k]@);
            assert(config.rules@[i]@.matchers[k] == config.rules@[i].matchers@[k]@);
        }
    }
}

/// Rules are read wherever each can be: no rule delegates without a command, and each
/// entry of each rule can be read.
pub proof fn readable_rules_are_read(raw: ToolConfigJson, r: Result<ToolConfig, String>)
    requires
        call_ensures(compile_config, (raw,), r),
        forall|i: int|
            0 <= i < raw.rules@.len() ==> ((#[trigger] raw.rules@[i]).action is Delegate
                ==> raw.rules@[i].command is Some),
        forall|i: int, k: int|
            0 <= i < raw.rules@.len() && 0 <= k < raw.rules@[i].tools@.len() ==> parsed_entry(
                (#[trigger] raw.rules@[i].tools@[k])@,
            ) is Ok,
    ensures
        r is Ok,
{
    rules_can_be_read(raw.rules@);
}

/// Rules of which each can be read can be read.
proof fn rules_can_be_read(rules: Seq<RuleJson>)
    requires
        forall|i: int|
            0 <= i < rules.len() ==> ((#[trigger] rules[i]).action is Delegate
                ==> rules[i].command is Some),
        forall|i: int, k: int|
            0 <= i < rules.len() && 0 <= k < rules[i].tools@.len() ==> parsed_entry(
                (#[trigger] rules[i].tools@[k])@,
            ) is Ok,
    ensures
        compiled_rules(rules) is Ok,
    decreases rules.len(),
{
    if rules.len() > 0 {
        let fewer = rules.drop_last();
        assert forall|i: int|
            0 <= i < fewer.len() && (#[trigger] fewer[i]).action
                is Delegate implies fewer[i].command is Some by {
            assert(fewer[i] == rules[i]);
        }
        assert forall|i: int, k: int|
            0 <= i < fewer.len() && 0 <= k < fewer[i].tools@.len() implies parsed_entry(
            (#[trigger] fewer[i].tools@[k])@,
        ) is Ok by {
            assert(fewer[i] == rules[i]);
            assert(parsed_entry(rules[i].tools@[k]@) is Ok);
        }
        rules_can_be_read(fewer);
        let last = rules.len() - 1;
        assert(rules.last() == rules[last]);
        let tools = crate::text::texts(rules[last].tools@);
        assert forall|k: int| 0 <= k < tools.len() implies parsed_entry(#[trigger] tools[k])
            is Ok by {
            assert(tools[k] == rules[last].tools@[k]@);
        }
        entries_can_be_read(tools);
    }
}

/// Entries of which each can be read can be read.
proof fn entries_can_be_read(tools: Seq<Seq<char>>)
    requires
        forall|k: int| 0 <= k < tools.len() ==> parsed_entry(#[trigger] tools[k]) is Ok,
    ensures
        compiled_matchers(tools) is Ok,
    decreases tools.len(),
{
    if tools.len() > 0 {
        let fewer = tools.drop_last();
        assert forall|k: int| 0 <= k < fewer.len() implies parsed_entry(#[trigger] fewer[k])
            is Ok by {
            assert(fewer[k] == tools[k]);
        }
        entries_can_be_read(fewer);
        assert(tools.last() == tools[tools.len() - 1]);
    }
}

/// A file that cannot be read, or holds no rules, gives none, and says which file and
/// why.
pub proof fn unreadable_file_is_named(
    path: &str,
    fault: String,
    unread: Result<ToolConfig, String>,
    malformed: Result<ToolConfig, String>,
)
    requires
        call_ensures(load_tool_config, (path, ConfigFile::Unreadable(fault)), unread),
        call_ensures(load_tool_config, (path, ConfigFile::Malformed(fault)), malformed),
    ensures
        unread is Err,
        unread->Err_0@ == "failed to read config "@ + path@ + ": "@ + fault@,
        malformed is Err,
        malformed->Err_0@ == "failed to parse config "@ + path@ + ": "@ + fault@,
{
}

/// A call is denied for its path exactly where the tool works on a path and the path that
/// it names does not start at the root, after it is taken from the working directory.
pub proof fn relative_path_is_denied(
    config: &ToolConfig,
    tool_name: &str,
    tool_input: &Json,
    cwd: Option<&str>,
    on_path: bool,
    argument: Option<String>,
    r: ResolvedAction,
    without_input: ResolvedAction,
)
    requires
        config@.wf(),
        call_ensures(is_path_tool, (tool_name,), on_path),
        call_ensures(get_matchable_arg, (tool_name, tool_input, cwd), argument),
        call_ensures(resolve_action, (config, tool_name, Some(tool_input), cwd), r),
        call_ensures(resolve_action, (config, tool_name, None, cwd), without_input),
    ensures
        ({
            let relative = on_path && argument is Some && !(argument->0@.len() > 0
                && argument->0@[0] == '/');
            &&& names_relative_path(tool_name@, Some(tool_input@), crate::json::opt_text(cwd))
                == relative
            &&& !names_relative_path(tool_name@, None, crate::json::opt_text(cwd))
            &&& relative ==> r is Deny && r->Deny_0 is Some && r->Deny_0->0@
                == "path-based tool arguments must be absolute paths"@
        }),
{
}

} // verus!
