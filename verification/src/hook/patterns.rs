//! Glob and regular expression patterns.

use vstd::prelude::*;

verus! {

/// The regular expression that `globset` makes of a glob, or what it finds wrong
/// with the glob.
pub uninterp spec fn glob_expression(pattern: Seq<char>) -> Result<Seq<char>, Seq<char>>;

/// What `regex` finds wrong with an expression over bytes, if anything.
pub uninterp spec fn bytes_regex_fault(expression: Seq<char>) -> Option<Seq<char>>;

/// Whether an expression over bytes, as `regex` reads it, matches somewhere in the
/// bytes of a text.
pub uninterp spec fn bytes_regex_selects(expression: Seq<char>, value: Seq<char>) -> bool;

/// What is wrong with a glob, if anything: it cannot be read, or the expression
/// that is made of it cannot be compiled.
pub open spec fn glob_fault(pattern: Seq<char>) -> Option<Seq<char>> {
    match glob_expression(pattern) {
        Ok(expression) => bytes_regex_fault(expression),
        Err(fault) => Some(fault),
    }
}

/// Whether a glob matches a text: the expression that is made of it does. A glob
/// that cannot be read matches nothing.
pub open spec fn glob_selects(pattern: Seq<char>, value: Seq<char>) -> bool {
    match glob_expression(pattern) {
        Ok(expression) => bytes_regex_selects(expression, value),
        Err(_) => false,
    }
}

/// What `regex` finds wrong with a regular expression, if anything.
pub uninterp spec fn regex_fault(pattern: Seq<char>) -> Option<Seq<char>>;

/// Whether a regular expression, as `regex` reads it, matches somewhere in a text.
pub uninterp spec fn regex_selects(pattern: Seq<char>, value: Seq<char>) -> bool;

/// `globset::Glob::new` and `globset::Glob::regex`: the regular expression that
/// stands for a glob, or what is wrong with the glob. That depends on the glob
/// alone.
#[verifier::external_body]
fn expression_of_glob(pattern: &str) -> (r: Result<String, String>)
    ensures
        match r {
            Ok(expression) => glob_expression(pattern@) == Ok::<_, Seq<char>>(expression@),
            Err(fault) => glob_expression(pattern@) == Err::<Seq<char>, _>(fault@),
        },
{
    globset::Glob::new(pattern).map(|g| g.regex().to_string()).map_err(|e| e.to_string())
}

/// `regex::bytes::RegexBuilder::build`, with the dot matching line feeds too:
/// whether an expression can be read and compiled, and what is wrong where it
/// cannot. That depends on the expression alone.
#[verifier::external_body]
fn check_bytes_regex(expression: &str) -> (r: Option<String>)
    ensures
        match r {
            Some(fault) => bytes_regex_fault(expression@) == Some(fault@),
            None => bytes_regex_fault(expression@) is None,
        },
{
    let built = regex::bytes::RegexBuilder::new(expression).dot_matches_new_line(true).build();
    built.err().map(|e| e.to_string())
}

/// `regex::bytes::Regex::is_match`, with the dot matching line feeds too: whether
/// the expression matches somewhere in the bytes of the text. An expression that
/// cannot be read or compiled matches nothing.
#[verifier::external_body]
fn bytes_regex_is_match(expression: &str, value: &str) -> (r: bool)
    ensures
        r == bytes_regex_selects(expression@, value@),
{
    match regex::bytes::RegexBuilder::new(expression).dot_matches_new_line(true).build() {
        Ok(compiled) => compiled.is_match(value.as_bytes()),
        Err(_) => false,
    }
}

/// What is wrong with a glob, if anything.
pub(crate) fn check_glob(pattern: &str) -> (r: Option<String>)
    ensures
        crate::text::opt_view(r) == glob_fault(pattern@),
{
    match expression_of_glob(pattern) {
        Ok(expression) => check_bytes_regex(expression.as_str()),
        Err(fault) => Some(fault),
    }
}

/// Whether a glob matches a text.
pub(crate) fn glob_is_match(pattern: &str, value: &str) -> (r: bool)
    ensures
        r == glob_selects(pattern@, value@),
{
    match expression_of_glob(pattern) {
        Ok(expression) => bytes_regex_is_match(expression.as_str(), value),
        Err(_) => false,
    }
}

/// `regex::Regex::new`: whether a regular expression can be read and compiled,
/// and what is wrong where it cannot. That depends on the expression alone.
#[verifier::external_body]
pub(crate) fn check_regex(pattern: &str) -> (r: Option<String>)
    ensures
        match r {
            Some(fault) => regex_fault(pattern@) == Some(fault@),
            None => regex_fault(pattern@) is None,
        },
{
    regex::Regex::new(pattern).err().map(|e| e.to_string())
}

/// `regex::Regex::is_match`: whether the expression matches somewhere in the
/// text. An expression that cannot be read or compiled matches nothing.
#[verifier::external_body]
pub(crate) fn regex_is_match(pattern: &str, value: &str) -> (r: bool)
    ensures
        r == regex_selects(pattern@, value@),
{
    match regex::Regex::new(pattern) {
        Ok(expression) => expression.is_match(value),
        Err(_) => false,
    }
}

/// A list of texts as `std` writes it for debugging.
pub uninterp spec fn debug_list(items: Seq<Seq<char>>) -> Seq<char>;

/// `format!` with `{:?}` on a list of texts: each text quoted and escaped,
/// between square brackets. What comes out depends on the texts alone.
#[verifier::external_body]
pub(crate) fn format_debug_list(items: &Vec<String>) -> (r: String)
    ensures
        r@ == debug_list(crate::text::texts(items@)),
{
    format!("{:?}", items)
}

/// A glob matches a text exactly where it can be read and the expression that is made of
/// it matches; it is at fault exactly where it cannot be read, or where that expression
/// cannot be compiled.
pub proof fn glob_is_its_expression(pattern: Seq<char>, value: Seq<char>)
    ensures
        glob_expression(pattern) matches Ok(expression) ==> {
            &&& glob_selects(pattern, value) == bytes_regex_selects(expression, value)
            &&& glob_fault(pattern) == bytes_regex_fault(expression)
        },
        glob_expression(pattern) matches Err(fault) ==> !glob_selects(pattern, value)
            && glob_fault(pattern) == Some(fault),
{
}

} // verus!
