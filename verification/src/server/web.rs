//! What the pages for the operator are made of.

use vstd::prelude::*;

use crate::json::JsonView;
use crate::text::chars_of;

verus! {

/// What the operator signs in with.
pub struct BasicAuthForm {
    pub username: String,
    pub password: String,
}

/// What is answered to a request for a page.
#[derive(Debug, PartialEq, Eq)]
pub enum WebAnswer {
    /// A page.
    Page(String),
    /// An HTTP status with a line of text.
    Line(u16, &'static str),
    /// Another page to go to.
    GoTo(&'static str),
}

/// The HTTP status for what is not there.
pub const NOT_FOUND: u16 = 404;

/// The HTTP status for a fault of the server.
pub const SERVER_ERROR: u16 = 500;

/// What came of an attempt to sign in.
#[derive(Clone, Copy, Debug, PartialEq, Eq, Structural)]
pub enum SignIn {
    /// Nobody can sign in here.
    NotConfigured,
    /// Name and password do not fit.
    Refused,
    /// They fit, but the session could not be stored.
    NotStored,
    /// They fit, and the session is stored.
    Stored,
}

/// Whether `answer` is this line with this HTTP status.
pub open spec fn is_line(answer: WebAnswer, code: u16, text: Seq<char>) -> bool {
    match answer {
        WebAnswer::Line(c, t) => c == code && t@ == text,
        _ => false,
    }
}

/// Whether `answer` leads to this page.
pub open spec fn leads_to(answer: WebAnswer, path: Seq<char>) -> bool {
    match answer {
        WebAnswer::GoTo(p) => p@ == path,
        _ => false,
    }
}

/// What an attempt to sign in is answered.
pub fn basic_auth_login(attempt: SignIn) -> (r: WebAnswer)
    ensures
        match attempt {
            SignIn::NotConfigured => is_line(r, NOT_FOUND, "Auth not configured"@),
            SignIn::Refused => leads_to(r, "/auth/login?error=invalid"@),
            SignIn::NotStored => is_line(r, SERVER_ERROR, "Session error"@),
            SignIn::Stored => leads_to(r, "/approvals"@),
        },
{
    match attempt {
        SignIn::NotConfigured => WebAnswer::Line(NOT_FOUND, "Auth not configured"),
        SignIn::Refused => WebAnswer::GoTo("/auth/login?error=invalid"),
        SignIn::NotStored => WebAnswer::Line(SERVER_ERROR, "Session error"),
        SignIn::Stored => WebAnswer::GoTo("/approvals"),
    }
}

/// How a character of a JSON text is written inside a script element.
pub open spec fn script_char(c: char) -> Seq<char> {
    if c == '<' {
        seq!['\\', 'u', '0', '0', '3', 'c']
    } else if c == '>' {
        seq!['\\', 'u', '0', '0', '3', 'e']
    } else if c == '&' {
        seq!['\\', 'u', '0', '0', '2', '6']
    } else if c == '\u{2028}' {
        seq!['\\', 'u', '2', '0', '2', '8']
    } else if c == '\u{2029}' {
        seq!['\\', 'u', '2', '0', '2', '9']
    } else {
        seq![c]
    }
}

/// How a JSON text is written inside a script element.
pub open spec fn script_text(json: Seq<char>) -> Seq<char>
    decreases json.len(),
{
    if json.len() == 0 {
        Seq::empty()
    } else {
        script_text(json.drop_last()) + script_char(json.last())
    }
}

/// Appends the escape of a character.
fn push_escape(out: &mut String, a: char, b: char, c: char, d: char)
    ensures
        final(out)@ == old(out)@ + seq!['\\', 'u', a, b, c, d],
{
    out.push('\\');
    out.push('u');
    out.push(a);
    out.push(b);
    out.push(c);
    out.push(d);
    assert(out@ =~= old(out)@ + seq!['\\', 'u', a, b, c, d]);
}

/// Writes a JSON text so that it can stand inside a script element: it cannot
/// end the element, nor the line of a script.
pub fn json_for_script(json: &str) -> (r: String)
    ensures
        r@ == script_text(json@),
{
    let chars = chars_of(json);
    let mut out = String::new();
    let mut i: usize = 0;
    while i < chars.len()
        invariant
            i <= chars@.len(),
            out@ == script_text(chars@.take(i as int)),
        decreases chars@.len() - i,
    {
        assert(chars@.take(i + 1).drop_last() =~= chars@.take(i as int));
        let c = chars[i];
        if c == '<' {
            push_escape(&mut out, '0', '0', '3', 'c');
        } else if c == '>' {
            push_escape(&mut out, '0', '0', '3', 'e');
        } else if c == '&' {
            push_escape(&mut out, '0', '0', '2', '6');
        } else if c == '\u{2028}' {
            push_escape(&mut out, '2', '0', '2', '8');
        } else if c == '\u{2029}' {
            push_escape(&mut out, '2', '0', '2', '9');
        } else {
            let ghost before = out@;
            out.push(c);
            assert(out@ =~= before + seq![c]);
        }
        i += 1;
    }
    assert(chars@.take(i as int) =~= chars@);
    out
}

/// Whether a character may not stand in a script element's text.
pub open spec fn breaks_script(c: char) -> bool {
    c == '<' || c == '>' || c == '&' || c == '\u{2028}' || c == '\u{2029}'
}

/// What is written inside a script element holds nothing that could end it:
/// whatever the JSON text says, none of its characters breaks out.
pub proof fn script_text_cannot_break_out(json: Seq<char>)
    ensures
        forall|i: int| 0 <= i < script_text(json).len() ==> !breaks_script(
            #[trigger] script_text(json)[i],
        ),
    decreases json.len(),
{
    if json.len() > 0 {
        script_text_cannot_break_out(json.drop_last());
        let before = script_text(json.drop_last());
        let own = script_char(json.last());
        assert forall|i: int| 0 <= i < script_text(json).len() implies !breaks_script(
            #[trigger] script_text(json)[i],
        ) by {
            if i < before.len() {
                assert(script_text(json)[i] == before[i]);
            } else {
                assert(script_text(json)[i] == own[i - before.len()]);
            }
        }
    }
}

/// Text without such characters is written as it is.
pub proof fn plain_json_is_kept(json: Seq<char>)
    requires
        forall|i: int| 0 <= i < json.len() ==> !breaks_script(#[trigger] json[i]),
    ensures
        script_text(json) == json,
    decreases json.len(),
{
    if json.len() > 0 {
        let before = json.drop_last();
        assert forall|i: int| 0 <= i < before.len() implies !breaks_script(
            #[trigger] before[i],
        ) by {
            assert(before[i] == json[i]);
        }
        plain_json_is_kept(before);
        assert(!breaks_script(json[json.len() - 1]));
        assert(before + seq![json.last()] =~= json);
    }
}

/// The character that one of the escapes of `script_char` at the start of `s` stands
/// for.
pub open spec fn escape_at_start(s: Seq<char>) -> Option<char> {
    if s.len() < 6 {
        None
    } else if s.take(6) == script_char('<') {
        Some('<')
    } else if s.take(6) == script_char('>') {
        Some('>')
    } else if s.take(6) == script_char('&') {
        Some('&')
    } else if s.take(6) == script_char('\u{2028}') {
        Some('\u{2028}')
    } else if s.take(6) == script_char('\u{2029}') {
        Some('\u{2029}')
    } else {
        None
    }
}

/// A script element's text with those escapes read back.
pub open spec fn script_read(s: Seq<char>) -> Seq<char>
    decreases s.len(),
{
    if s.len() == 0 {
        Seq::empty()
    } else {
        match escape_at_start(s) {
            Some(c) => seq![c] + script_read(s.skip(6)),
            None => seq![s[0]] + script_read(s.skip(1)),
        }
    }
}

/// Whether none of those escapes stands in a text.
pub open spec fn without_escapes(s: Seq<char>) -> bool {
    forall|i: int| 0 <= i <= s.len() ==> escape_at_start(#[trigger] s.skip(i)) is None
}

/// A text is written character by character.
proof fn script_text_from_front(json: Seq<char>)
    requires
        json.len() > 0,
    ensures
        script_text(json) == script_char(json[0]) + script_text(json.skip(1)),
    decreases json.len(),
{
    if json.len() == 1 {
        assert(json.drop_last() =~= Seq::empty());
        assert(json.skip(1) =~= Seq::empty());
        assert(script_text(json) =~= script_char(json[0]) + script_text(json.skip(1)));
    } else {
        script_text_from_front(json.drop_last());
        assert(json.drop_last().skip(1) =~= json.skip(1).drop_last());
        assert(script_text(json) =~= script_char(json[0]) + script_text(json.skip(1)));
    }
}

/// The first characters of what is written, up to one that is escaped, are those of
/// the text.
proof fn script_text_start(json: Seq<char>, n: int)
    requires
        0 <= n <= script_text(json).len(),
        forall|i: int| 0 < i < n ==> #[trigger] script_text(json)[i] != '\\',
        n > 0 && json.len() > 0 ==> !breaks_script(json[0]),
    ensures
        n <= json.len(),
        script_text(json).take(n) == json.take(n),
    decreases json.len(),
{
    let written = script_text(json);
    if n > 0 && json.len() > 0 {
        let rest = json.skip(1);
        script_text_from_front(json);
        assert(written =~= seq![json[0]] + script_text(rest));
        if n > 1 {
            assert(rest.len() > 0) by {
                if rest.len() == 0 {
                    assert(script_text(rest) =~= Seq::empty());
                }
            }
            assert(script_text(rest)[0] == written[1]);
            script_text_from_front(rest);
            assert(!breaks_script(rest[0])) by {
                if breaks_script(rest[0]) {
                    assert(script_text(rest)[0] == '\\');
                }
            }
            assert forall|i: int| 0 < i < n - 1 implies #[trigger] script_text(rest)[i]
                != '\\' by {
                assert(script_text(rest)[i] == written[i + 1]);
            }
            script_text_start(rest, n - 1);
            assert forall|i: int| 0 <= i < n implies written[i] == json[i] by {
                if i > 0 {
                    assert(script_text(rest).take(n - 1)[i - 1] == rest.take(n - 1)[i - 1]);
                }
            }
        }
        assert(written.take(n) =~= json.take(n));
    }
}

/// Where a text starts neither with an escape nor with a character that is escaped,
/// what is written of it starts with no escape.
proof fn no_escape_is_made(json: Seq<char>)
    requires
        json.len() > 0,
        !breaks_script(json[0]),
        escape_at_start(json) is None,
    ensures
        escape_at_start(script_text(json)) is None,
{
    let written = script_text(json);
    if escape_at_start(written) is Some {
        let c = escape_at_start(written)->0;
        assert(written.take(6) == script_char(c));
        assert forall|i: int| 0 < i < 6 implies #[trigger] written[i] != '\\' by {
            assert(written[i] == written.take(6)[i]);
        }
        script_text_start(json, 6);
        assert(json.take(6) == script_char(c));
    }
}

/// An escape at the start is read as the character that it stands for.
proof fn escape_is_read(c: char, rest: Seq<char>)
    requires
        breaks_script(c),
    ensures
        script_char(c).len() == 6,
        escape_at_start(script_char(c) + rest) == Some(c),
        (script_char(c) + rest).skip(6) == rest,
{
    let s = script_char(c) + rest;
    assert(s.take(6) =~= script_char(c));
    assert(s.skip(6) =~= rest);
    let last = s.take(6)[5];
    assert(script_char('<')[5] == 'c' && script_char('<')[4] == '3');
    assert(script_char('>')[5] == 'e');
    assert(script_char('&')[5] == '6');
    assert(script_char('\u{2028}')[5] == '8');
    assert(script_char('\u{2029}')[5] == '9');
}

/// Writing a JSON text inside a script element loses nothing: where none of the
/// escapes stands in the text already, reading them back gives the text again.
pub proof fn script_text_is_read_back(json: Seq<char>)
    requires
        without_escapes(json),
    ensures
        script_read(script_text(json)) == json,
    decreases json.len(),
{
    if json.len() > 0 {
        let rest = json.skip(1);
        assert forall|i: int| 0 <= i <= rest.len() implies escape_at_start(
            #[trigger] rest.skip(i),
        ) is None by {
            assert(rest.skip(i) =~= json.skip(i + 1));
        }
        script_text_is_read_back(rest);
        script_text_from_front(json);
        assert(json =~= seq![json[0]] + rest);
        if breaks_script(json[0]) {
            escape_is_read(json[0], script_text(rest));
        } else {
            assert(json.skip(0) =~= json);
            no_escape_is_made(json);
            assert(script_text(json).skip(1) =~= script_text(rest));
        }
    }
}

/// Whether every backslash in a text escapes what follows it as JSON does: one of the
/// characters that need no escape in a script element, or four digits after a `u`
/// that are none of the escapes of `script_char`.
pub open spec fn well_escaped(s: Seq<char>) -> bool
    decreases s.len(),
{
    if s.len() == 0 {
        true
    } else if s[0] == '\\' {
        &&& s.len() >= 2
        &&& !breaks_script(s[1])
        &&& s[1] == 'u' ==> s.len() >= 6 && escape_at_start(s) is None
        &&& well_escaped(s.skip(2))
    } else {
        well_escaped(s.skip(1))
    }
}

/// A script element's text with those escapes read back as JSON does: what follows
/// another backslash belongs to it.
pub open spec fn script_json_read(s: Seq<char>) -> Seq<char>
    decreases s.len(),
{
    if s.len() == 0 {
        Seq::empty()
    } else {
        match escape_at_start(s) {
            Some(c) => seq![c] + script_json_read(s.skip(6)),
            None => if s[0] == '\\' && s.len() >= 2 {
                s.take(2) + script_json_read(s.skip(2))
            } else {
                seq![s[0]] + script_json_read(s.skip(1))
            },
        }
    }
}

/// Writing a JSON text inside a script element loses nothing for a reader of JSON,
/// also where an escaped backslash stands before what looks like an escape.
pub proof fn script_json_is_read_back(json: Seq<char>)
    requires
        well_escaped(json),
    ensures
        script_json_read(script_text(json)) == json,
    decreases json.len(),
{
    if json.len() > 0 {
        let written = script_text(json);
        script_text_from_front(json);
        if json[0] == '\\' {
            let tail = json.skip(1);
            let rest = json.skip(2);
            if escape_at_start(json) is Some {
                assert(json.take(6)[1] == 'u');
                assert(json[1] == 'u');
            }
            no_escape_is_made(json);
            script_text_from_front(tail);
            assert(tail.skip(1) =~= rest);
            script_json_is_read_back(rest);
            assert(written =~= seq!['\\', json[1]] + script_text(rest));
            assert(written.take(2) =~= json.take(2));
            assert(written.skip(2) =~= script_text(rest));
            assert(json =~= json.take(2) + rest);
        } else {
            let rest = json.skip(1);
            script_json_is_read_back(rest);
            assert(json =~= seq![json[0]] + rest);
            if breaks_script(json[0]) {
                escape_is_read(json[0], script_text(rest));
            } else {
                if escape_at_start(json) is Some {
                    assert(json.take(6)[0] == '\\');
                }
                no_escape_is_made(json);
                assert(written.skip(1) =~= script_text(rest));
            }
        }
    }
}

/// Two texts of which both are well escaped are so together.
proof fn well_escaped_together(a: Seq<char>, b: Seq<char>)
    requires
        well_escaped(a),
        well_escaped(b),
    ensures
        well_escaped(a + b),
    decreases a.len(),
{
    let all = a + b;
    if a.len() == 0 {
        assert(all =~= b);
    } else if a[0] == '\\' {
        well_escaped_together(a.skip(2), b);
        assert(all.skip(2) =~= a.skip(2) + b);
        if a[1] == 'u' {
            assert(all.take(6) =~= a.take(6));
        }
    } else {
        well_escaped_together(a.skip(1), b);
        assert(all.skip(1) =~= a.skip(1) + b);
    }
}

/// A text without backslashes is well escaped.
proof fn plain_is_well_escaped(s: Seq<char>)
    requires
        forall|i: int| 0 <= i < s.len() ==> #[trigger] s[i] != '\\',
    ensures
        well_escaped(s),
    decreases s.len(),
{
    if s.len() > 0 {
        assert forall|i: int| 0 <= i < s.skip(1).len() implies #[trigger] s.skip(1)[i]
            != '\\' by {
            assert(s.skip(1)[i] == s[i + 1]);
        }
        plain_is_well_escaped(s.skip(1));
    }
}

/// Each character of a JSON string is written well escaped.
proof fn escaped_char_is_well_escaped(c: char)
    ensures
        well_escaped(crate::json::escaped_char(c)),
{
    let s = crate::json::escaped_char(c);
    plain_is_well_escaped(Seq::empty());
    if s.len() == 1 {
        assert(s[0] != '\\');
        assert(s.skip(1) =~= Seq::empty());
    } else if s.len() == 2 {
        assert(s[0] == '\\' && s[1] != 'u' && !breaks_script(s[1]));
        assert(s.skip(2) =~= Seq::empty());
    } else {
        assert(s[0] == '\\' && s[1] == 'u');
        assert(s.take(6) =~= s);
        let n = c as int;
        assert(s[4] == crate::json::hex_digit(n / 16));
        assert(n / 16 == 0 || n / 16 == 1);
        assert(script_char('<')[4] == '3' && script_char('>')[4] == '3');
        assert(script_char('&')[4] == '2');
        assert(script_char('\u{2028}')[2] == '2' && script_char('\u{2029}')[2] == '2');
        assert(escape_at_start(s) is None);
        let digits = s.skip(2);
        assert forall|i: int| 0 <= i < digits.len() implies #[trigger] digits[i] != '\\' by {
            assert(digits[i] == s[i + 2]);
            hex_digit_is_plain(n / 16);
            hex_digit_is_plain(n % 16);
        }
        plain_is_well_escaped(digits);
    }
}

/// No hexadecimal digit is a backslash.
proof fn hex_digit_is_plain(n: int)
    requires
        0 <= n < 16,
    ensures
        crate::json::hex_digit(n) != '\\',
{
}

/// A JSON string is well escaped.
proof fn quoted_is_well_escaped(s: Seq<char>)
    ensures
        well_escaped(crate::json::quoted(s)),
{
    escaped_is_well_escaped(s);
    plain_is_well_escaped(seq!['"']);
    well_escaped_together(seq!['"'], crate::json::escaped(s));
    well_escaped_together(seq!['"'] + crate::json::escaped(s), seq!['"']);
}

/// The inside of a JSON string is well escaped.
proof fn escaped_is_well_escaped(s: Seq<char>)
    ensures
        well_escaped(crate::json::escaped(s)),
    decreases s.len(),
{
    if s.len() > 0 {
        escaped_is_well_escaped(s.drop_last());
        escaped_char_is_well_escaped(s.last());
        well_escaped_together(
            crate::json::escaped(s.drop_last()),
            crate::json::escaped_char(s.last()),
        );
    }
}

/// A number is written without backslashes.
proof fn number_is_well_escaped(n: Seq<char>)
    requires
        crate::json::number_text(n),
    ensures
        well_escaped(n),
{
    let (sign, whole, fraction, exponent) = choose|
        sign: Seq<char>,
        whole: Seq<char>,
        fraction: Seq<char>,
        exponent: Seq<char>,
    |
        crate::json::number_parts(n, sign, whole, fraction, exponent);
    assert forall|i: int| 0 <= i < fraction.len() implies #[trigger] fraction[i] != '\\' by {
        if i > 0 {
            assert(fraction.skip(1)[i - 1] == fraction[i]);
        }
    }
    assert forall|i: int| 0 <= i < exponent.len() implies #[trigger] exponent[i] != '\\' by {
        if i > 0 {
            assert(exponent.skip(1)[i - 1] == exponent[i]);
        }
        if i > 1 {
            assert(exponent.skip(2)[i - 2] == exponent[i]);
        }
    }
    plain_is_well_escaped(sign);
    plain_is_well_escaped(whole);
    plain_is_well_escaped(fraction);
    plain_is_well_escaped(exponent);
    well_escaped_together(sign, whole);
    well_escaped_together(sign + whole, fraction);
    well_escaped_together(sign + whole + fraction, exponent);
}

/// The text of a document is well escaped.
pub proof fn document_is_well_escaped(v: JsonView)
    requires
        v.canonical(),
    ensures
        well_escaped(crate::json::json_text(v)),
    decreases v,
{
    match v {
        JsonView::Null => {
            reveal_strlit("null");
            plain_is_well_escaped("null"@);
        },
        JsonView::Bool(b) => {
            reveal_strlit("true");
            reveal_strlit("false");
            plain_is_well_escaped("true"@);
            plain_is_well_escaped("false"@);
        },
        JsonView::Number(n) => {
            number_is_well_escaped(n);
        },
        JsonView::Text(s) => {
            quoted_is_well_escaped(s);
        },
        JsonView::Array(items) => {
            items_are_well_escaped(items);
            plain_is_well_escaped(seq!['[']);
            plain_is_well_escaped(seq![']']);
            well_escaped_together(seq!['['], crate::json::items_text(items));
            well_escaped_together(seq!['['] + crate::json::items_text(items), seq![']']);
        },
        JsonView::Object(members) => {
            members_are_well_escaped(members);
            plain_is_well_escaped(seq!['{']);
            plain_is_well_escaped(seq!['}']);
            well_escaped_together(seq!['{'], crate::json::members_text(members));
            well_escaped_together(seq!['{'] + crate::json::members_text(members), seq!['}']);
        },
    }
}

/// The texts of the items of an array are well escaped.
proof fn items_are_well_escaped(items: Seq<JsonView>)
    requires
        forall|i: int| 0 <= i < items.len() ==> (#[trigger] items[i]).canonical(),
    ensures
        well_escaped(crate::json::items_text(items)),
    decreases items,
{
    if items.len() > 0 {
        let last = items[items.len() - 1];
        assert(last.canonical());
        document_is_well_escaped(last);
        if items.len() > 1 {
            let fewer = items.drop_last();
            assert forall|i: int| 0 <= i < fewer.len() implies (
            #[trigger] fewer[i]).canonical() by {
                assert(fewer[i] == items[i]);
            }
            items_are_well_escaped(fewer);
            plain_is_well_escaped(seq![',']);
            well_escaped_together(crate::json::items_text(fewer), seq![',']);
            well_escaped_together(
                crate::json::items_text(fewer) + seq![','],
                crate::json::json_text(last),
            );
        }
    }
}

/// The texts of the members of an object are well escaped.
proof fn members_are_well_escaped(members: Seq<(Seq<char>, JsonView)>)
    requires
        forall|i: int| 0 <= i < members.len() ==> (#[trigger] members[i]).1.canonical(),
    ensures
        well_escaped(crate::json::members_text(members)),
    decreases members,
{
    if members.len() > 0 {
        let last = members[members.len() - 1];
        assert(last.1.canonical());
        document_is_well_escaped(last.1);
        quoted_is_well_escaped(last.0);
        plain_is_well_escaped(seq![':']);
        well_escaped_together(crate::json::quoted(last.0), seq![':']);
        let own = crate::json::quoted(last.0) + seq![':'] + crate::json::json_text(last.1);
        well_escaped_together(
            crate::json::quoted(last.0) + seq![':'],
            crate::json::json_text(last.1),
        );
        if members.len() > 1 {
            let fewer = members.drop_last();
            assert forall|i: int| 0 <= i < fewer.len() implies (
            #[trigger] fewer[i]).1.canonical() by {
                assert(fewer[i] == members[i]);
            }
            members_are_well_escaped(fewer);
            plain_is_well_escaped(seq![',']);
            well_escaped_together(crate::json::members_text(fewer), seq![',']);
            well_escaped_together(crate::json::members_text(fewer) + seq![','], own);
        }
    }
}

/// Whatever a document says, its text is read back from a script element as it was.
pub proof fn document_is_read_back_from_script(v: JsonView)
    requires
        v.canonical(),
    ensures
        script_json_read(script_text(crate::json::json_text(v))) == crate::json::json_text(v),
{
    document_is_well_escaped(v);
    script_json_is_read_back(crate::json::json_text(v));
}

/// How a character is written in a page.
pub open spec fn html_char(c: char) -> Seq<char> {
    if c == '<' {
        "&#60;"@
    } else if c == '>' {
        "&#62;"@
    } else if c == '&' {
        "&#38;"@
    } else if c == '"' {
        "&#34;"@
    } else if c == '\'' {
        "&#39;"@
    } else {
        seq![c]
    }
}

/// How a text is written in a page.
pub open spec fn html(text: Seq<char>) -> Seq<char>
    decreases text.len(),
{
    if text.len() == 0 {
        Seq::empty()
    } else {
        html(text.drop_last()) + html_char(text.last())
    }
}

/// Writes a text so that a page shows it letter by letter.
pub fn html_escape(text: &str) -> (r: String)
    ensures
        r@ == html(text@),
{
    let chars = chars_of(text);
    let mut out = String::new();
    let mut i: usize = 0;
    while i < chars.len()
        invariant
            i <= chars@.len(),
            out@ == html(chars@.take(i as int)),
        decreases chars@.len() - i,
    {
        assert(chars@.take(i + 1).drop_last() =~= chars@.take(i as int));
        let c = chars[i];
        if c == '<' {
            out.append("&#60;");
        } else if c == '>' {
            out.append("&#62;");
        } else if c == '&' {
            out.append("&#38;");
        } else if c == '"' {
            out.append("&#34;");
        } else if c == '\'' {
            out.append("&#39;");
        } else {
            let ghost before = out@;
            out.push(c);
            assert(out@ =~= before + seq![c]);
        }
        i += 1;
    }
    assert(chars@.take(i as int) =~= chars@);
    out
}

/// An attempt to sign in leads to the approvals exactly where name and password fit and
/// the session is stored; where they do not fit it leads back to the form; and a fault is
/// said, with its HTTP status.
pub proof fn sign_in_leads_on_only_where_it_fits(attempt: SignIn, r: WebAnswer)
    requires
        call_ensures(basic_auth_login, (attempt,), r),
    ensures
        (r matches WebAnswer::GoTo(path) && path@ == "/approvals"@) <==> attempt == SignIn::Stored,
        (r matches WebAnswer::GoTo(path) && path@ == "/auth/login?error=invalid"@) <==> attempt
            == SignIn::Refused,
        (r matches WebAnswer::Line(code, text) && code == 404 && text@ == "Auth not configured"@)
            <==> attempt == SignIn::NotConfigured,
        (r matches WebAnswer::Line(code, text) && code == 500 && text@ == "Session error"@)
            <==> attempt == SignIn::NotStored,
{
    reveal_strlit("/approvals");
    reveal_strlit("/auth/login?error=invalid");
    assert("/approvals"@.len() != "/auth/login?error=invalid"@.len());
}

/// A document that is written inside a script element cannot end it, and is read back
/// from it as it was.
pub proof fn document_in_script_is_kept(json: &str, r: String, i: int)
    requires
        call_ensures(json_for_script, (json,), r),
        0 <= i < r@.len(),
    ensures
        r@[i] != '<' && r@[i] != '>' && r@[i] != '&' && r@[i] != '\u{2028}' && r@[i] != '\u{2029}',
        well_escaped(json@) ==> script_json_read(r@) == json@,
{
    script_text_cannot_break_out(json@);
    assert(!breaks_script(script_text(json@)[i]));
    if well_escaped(json@) {
        script_json_is_read_back(json@);
    }
}

/// The character that a reference at the start of `s` stands for, if one of those that a
/// page is written with stands there.
pub open spec fn reference_at_start(s: Seq<char>) -> Option<char> {
    if s.len() < 5 {
        None
    } else if s.take(5) == "&#60;"@ {
        Some('<')
    } else if s.take(5) == "&#62;"@ {
        Some('>')
    } else if s.take(5) == "&#38;"@ {
        Some('&')
    } else if s.take(5) == "&#34;"@ {
        Some('"')
    } else if s.take(5) == "&#39;"@ {
        Some('\'')
    } else {
        None
    }
}

/// What a page shows of a text with such references in it.
pub open spec fn html_read(s: Seq<char>) -> Seq<char>
    decreases s.len(),
{
    if s.len() == 0 {
        Seq::empty()
    } else {
        match reference_at_start(s) {
            Some(c) => seq![c] + html_read(s.skip(5)),
            None => seq![s[0]] + html_read(s.skip(1)),
        }
    }
}

/// A text is written into a page character by character.
proof fn html_from_front(text: Seq<char>)
    requires
        text.len() > 0,
    ensures
        html(text) == html_char(text[0]) + html(text.skip(1)),
    decreases text.len(),
{
    if text.len() == 1 {
        assert(text.drop_last() =~= Seq::empty());
        assert(text.skip(1) =~= Seq::empty());
        assert(html(text) =~= html_char(text[0]) + html(text.skip(1)));
    } else {
        html_from_front(text.drop_last());
        assert(text.drop_last().skip(1) =~= text.skip(1).drop_last());
        assert(html(text) =~= html_char(text[0]) + html(text.skip(1)));
    }
}

/// The references that a page is written with are told apart.
proof fn references_are_read()
    ensures
        reference_at_start("&#60;"@) == Some('<'),
        reference_at_start("&#62;"@) == Some('>'),
        reference_at_start("&#38;"@) == Some('&'),
        reference_at_start("&#34;"@) == Some('"'),
        reference_at_start("&#39;"@) == Some('\''),
        "&#60;"@.len() == 5 && "&#60;"@[0] == '&',
        "&#62;"@.len() == 5 && "&#62;"@[0] == '&',
        "&#38;"@.len() == 5 && "&#38;"@[0] == '&',
        "&#34;"@.len() == 5 && "&#34;"@[0] == '&',
        "&#39;"@.len() == 5 && "&#39;"@[0] == '&',
{
    reveal_strlit("&#60;");
    reveal_strlit("&#62;");
    reveal_strlit("&#38;");
    reveal_strlit("&#34;");
    reveal_strlit("&#39;");
    assert("&#60;"@.take(5) =~= "&#60;"@);
    assert("&#62;"@.take(5) =~= "&#62;"@);
    assert("&#38;"@.take(5) =~= "&#38;"@);
    assert("&#34;"@.take(5) =~= "&#34;"@);
    assert("&#39;"@.take(5) =~= "&#39;"@);
    assert("&#60;"@[2] == '6' && "&#60;"@[3] == '0');
    assert("&#62;"@[2] == '6' && "&#62;"@[3] == '2');
    assert("&#38;"@[2] == '3' && "&#38;"@[3] == '8');
    assert("&#34;"@[2] == '3' && "&#34;"@[3] == '4');
    assert("&#39;"@[2] == '3' && "&#39;"@[3] == '9');
}

/// Whatever a text says, a page shows it letter by letter.
proof fn html_is_read_back(text: Seq<char>)
    ensures
        html_read(html(text)) == text,
    decreases text.len(),
{
    if text.len() > 0 {
        let c = text[0];
        let own = html_char(c);
        let rest = html(text.skip(1));
        html_from_front(text);
        html_is_read_back(text.skip(1));
        references_are_read();
        assert(text =~= seq![c] + text.skip(1));
        let all = own + rest;
        if c == '<' || c == '>' || c == '&' || c == '"' || c == '\'' {
            assert(all.take(5) =~= own);
            assert(own.take(5) =~= own);
            assert(all.skip(5) =~= rest);
            assert(reference_at_start(all) == Some(c));
        } else {
            if all.len() >= 5 {
                assert(all.take(5)[0] == c);
            }
            assert(reference_at_start(all) is None);
            assert(all.skip(1) =~= rest);
        }
    }
}

/// Nothing of a text can end or open an element, or end an attribute.
proof fn html_cannot_break_out(text: Seq<char>)
    ensures
        forall|i: int|
            0 <= i < html(text).len() ==> (#[trigger] html(text)[i]) != '<' && html(text)[i] != '>'
                && html(text)[i] != '"' && html(text)[i] != '\'',
    decreases text.len(),
{
    if text.len() > 0 {
        html_cannot_break_out(text.drop_last());
        let before = html(text.drop_last());
        let own = html_char(text.last());
        reveal_strlit("&#60;");
        reveal_strlit("&#62;");
        reveal_strlit("&#38;");
        reveal_strlit("&#34;");
        reveal_strlit("&#39;");
        assert forall|i: int| 0 <= i < html(text).len() implies (#[trigger] html(text)[i]) != '<'
            && html(text)[i] != '>' && html(text)[i] != '"' && html(text)[i] != '\'' by {
            if i < before.len() {
                assert(html(text)[i] == before[i]);
            } else {
                assert(html(text)[i] == own[i - before.len()]);
            }
        }
    }
}

/// What is written into a page of a text holds no character that could end an element or
/// an attribute, and the page shows the text letter by letter.
pub proof fn text_in_page_is_shown_as_it_is(text: &str, r: String)
    requires
        call_ensures(html_escape, (text,), r),
    ensures
        forall|i: int|
            0 <= i < r@.len() ==> (#[trigger] r@[i]) != '<' && r@[i] != '>' && r@[i] != '"' && r@[i]
                != '\'',
        html_read(r@) == text@,
{
    html_cannot_break_out(text@);
    html_is_read_back(text@);
}

/// A character that could end a script element or a line of it is written by its code, as
/// JSON does: a backslash, a `u` and the four hexadecimal digits of the code. Every other
/// character is written as it is, and each behind what stands before it.
pub proof fn character_in_script_is_written_by_its_code(
    json: &str,
    r: String,
    longer: &str,
    c: char,
    further: String,
)
    requires
        longer@ == json@.push(c),
        call_ensures(json_for_script, (json,), r),
        call_ensures(json_for_script, (longer,), further),
    ensures
        ({
            let code = c as int;
            let escape = seq![
                '\\',
                'u',
                crate::json::hex_digit(code / 4096),
                crate::json::hex_digit(code / 256 % 16),
                crate::json::hex_digit(code / 16 % 16),
                crate::json::hex_digit(code % 16),
            ];
            &&& c == '<' || c == '>' || c == '&' || c == '\u{2028}' || c == '\u{2029}' ==> further@
                == r@ + escape
            &&& c != '<' && c != '>' && c != '&' && c != '\u{2028}' && c != '\u{2029}' ==> further@
                == r@.push(c)
        }),
        json@.len() == 0 ==> r@.len() == 0,
{
    assert(longer@.drop_last() =~= json@);
    assert(longer@.last() == c);
    let code = c as int;
    let escape = seq![
        '\\',
        'u',
        crate::json::hex_digit(code / 4096),
        crate::json::hex_digit(code / 256 % 16),
        crate::json::hex_digit(code / 16 % 16),
        crate::json::hex_digit(code % 16),
    ];
    if breaks_script(c) {
        assert(script_char(c) =~= escape);
    } else {
        assert(r@ + seq![c] =~= r@.push(c));
    }
}

} // verus!
