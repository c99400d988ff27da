//! Text as sequences of characters.

use vstd::prelude::*;

verus! {

/// `String::push`: appends one character.
pub assume_specification[ String::push ](s: &mut String, c: char)
    ensures
        final(s)@ == old(s)@.push(c),
;

/// Equality of string slices: two are equal when they hold the same
/// characters in the same order.
pub assume_specification[ <str as PartialEq>::eq ](a: &str, b: &str) -> (r: bool)
    ensures
        r == (a@ == b@),
;

/// Whether a character has the Unicode property White_Space.
pub open spec fn white_space(c: char) -> bool {
    ||| '\u{9}' <= c <= '\u{d}'
    ||| c == ' '
    ||| c == '\u{85}'
    ||| c == '\u{a0}'
    ||| c == '\u{1680}'
    ||| '\u{2000}' <= c <= '\u{200a}'
    ||| c == '\u{2028}'
    ||| c == '\u{2029}'
    ||| c == '\u{202f}'
    ||| c == '\u{205f}'
    ||| c == '\u{3000}'
}

/// `char::is_whitespace`: whether the character has the property White_Space.
pub assume_specification[ char::is_whitespace ](c: char) -> (r: bool)
    ensures
        r == white_space(c),
;

/// Whether two texts hold the same characters.
pub fn same_text(a: &str, b: &str) -> (r: bool)
    ensures
        r == (a@ == b@),
{
    *a == *b
}

/// Whether `a` stands before `b` in the order of their characters; a text stands
/// before those that it starts.
pub open spec fn before(a: Seq<char>, b: Seq<char>) -> bool
    decreases a.len(),
{
    if b.len() == 0 {
        false
    } else if a.len() == 0 {
        true
    } else if a[0] == b[0] {
        before(a.drop_first(), b.drop_first())
    } else {
        a[0] < b[0]
    }
}

/// Of two texts that differ one stands before the other, and no text stands before
/// itself.
pub proof fn one_stands_before(a: Seq<char>, b: Seq<char>)
    ensures
        a != b ==> before(a, b) != before(b, a),
        a == b ==> !before(a, b),
    decreases a.len(),
{
    if a.len() > 0 && b.len() > 0 && a[0] == b[0] {
        one_stands_before(a.drop_first(), b.drop_first());
        if a.drop_first() == b.drop_first() {
            assert(a =~= seq![a[0]] + a.drop_first());
            assert(b =~= seq![b[0]] + b.drop_first());
        }
    } else if a.len() == 0 && b.len() == 0 {
        assert(a =~= b);
    }
}

/// What stands before a text stands before what that text stands before.
pub proof fn before_is_transitive(a: Seq<char>, b: Seq<char>, c: Seq<char>)
    requires
        before(a, b),
        before(b, c),
    ensures
        before(a, c),
    decreases a.len(),
{
    if a.len() > 0 && a[0] == b[0] && b[0] == c[0] {
        before_is_transitive(a.drop_first(), b.drop_first(), c.drop_first());
    }
}

/// A text stands before those that it starts.
pub proof fn start_stands_before(a: Seq<char>, rest: Seq<char>)
    requires
        rest.len() > 0,
    ensures
        before(a, a + rest),
    decreases a.len(),
{
    if a.len() > 0 {
        start_stands_before(a.drop_first(), rest);
        assert((a + rest).drop_first() =~= a.drop_first() + rest);
    }
}

/// Whether one text stands before another.
pub fn stands_before(a: &str, b: &str) -> (r: bool)
    ensures
        r == before(a@, b@),
{
    let one = chars_of(a);
    let two = chars_of(b);
    let mut i: usize = 0;
    assert(one@.skip(0) =~= one@);
    assert(two@.skip(0) =~= two@);
    while i < one.len() && i < two.len() && one[i] == two[i]
        invariant
            i <= one@.len(),
            i <= two@.len(),
            before(one@, two@) == before(one@.skip(i as int), two@.skip(i as int)),
        decreases one@.len() - i,
    {
        assert(one@.skip(i as int).drop_first() =~= one@.skip(i + 1));
        assert(two@.skip(i as int).drop_first() =~= two@.skip(i + 1));
        i += 1;
    }
    if i >= two.len() {
        false
    } else if i >= one.len() {
        true
    } else {
        one[i] < two[i]
    }
}

/// The characters of a text.
pub fn chars_of(s: &str) -> (r: Vec<char>)
    ensures
        r@ == s@,
{
    let mut v: Vec<char> = Vec::new();
    for c in it: s.chars()
        invariant
            v@ == it.seq().take(it.index()),
            it.seq() == s@,
    {
        v.push(c);
    }
    v
}

/// The text made of the characters from `from` up to, and without, `to`.
pub fn text_between(chars: &Vec<char>, from: usize, to: usize) -> (r: String)
    requires
        from <= to <= chars@.len(),
    ensures
        r@ == chars@.subrange(from as int, to as int),
{
    let mut s = String::new();
    let mut i: usize = from;
    while i < to
        invariant
            from <= i <= to <= chars@.len(),
            s@ == chars@.subrange(from as int, i as int),
        decreases to - i,
    {
        s.push(chars[i]);
        i += 1;
    }
    s
}

/// The place of the first `c` in `s`, or the length of `s` where there is none.
pub open spec fn first_of(s: Seq<char>, c: char) -> int
    decreases s.len(),
{
    if s.len() == 0 {
        0
    } else if s[0] == c {
        0
    } else {
        1 + first_of(s.drop_first(), c)
    }
}

/// Finds the first `c`; the length where there is none.
pub fn find_char(chars: &Vec<char>, c: char) -> (r: usize)
    ensures
        r == first_of(chars@, c),
        r <= chars@.len(),
        r < chars@.len() ==> chars@[r as int] == c,
        forall|j: int| 0 <= j < r ==> chars@[j] != c,
{
    let mut i: usize = 0;
    assert(chars@.skip(0) =~= chars@);
    while i < chars.len() && chars[i] != c
        invariant
            i <= chars@.len(),
            first_of(chars@, c) == i + first_of(chars@.skip(i as int), c),
            forall|j: int| 0 <= j < i ==> chars@[j] != c,
        decreases chars@.len() - i,
    {
        assert(chars@.skip(i as int).drop_first() =~= chars@.skip(i + 1));
        i += 1;
    }
    i
}

/// Two texts, one after the other.
pub fn joined(a: &str, b: &str) -> (r: String)
    ensures
        r@ == a@ + b@,
{
    let mut s = a.to_string();
    s.append(b);
    s
}

/// Three texts, one after the other.
pub fn joined3(a: &str, b: &str, c: &str) -> (r: String)
    ensures
        r@ == a@ + b@ + c@,
{
    let mut s = joined(a, b);
    s.append(c);
    s
}

/// `s` without the run of `c` at its end.
pub open spec fn without_trailing(s: Seq<char>, c: char) -> Seq<char>
    decreases s.len(),
{
    if s.len() > 0 && s.last() == c {
        without_trailing(s.drop_last(), c)
    } else {
        s
    }
}

/// Drops the run of `c` at the end of a text.
pub fn trim_end_char(s: &str, c: char) -> (r: String)
    ensures
        r@ == without_trailing(s@, c),
{
    let chars = chars_of(s);
    let mut n: usize = chars.len();
    assert(chars@.take(n as int) =~= chars@);
    while n > 0 && chars[n - 1] == c
        invariant
            n <= chars@.len(),
            without_trailing(chars@, c) == without_trailing(chars@.take(n as int), c),
        decreases n,
    {
        assert(chars@.take(n as int).drop_last() =~= chars@.take(n - 1));
        n -= 1;
    }
    assert(chars@.subrange(0, n as int) =~= chars@.take(n as int));
    text_between(&chars, 0, n)
}

/// `c` with an ASCII capital made small.
pub open spec fn ascii_lower(c: char) -> char {
    if 'A' <= c <= 'Z' {
        ((c as u8) + 32) as char
    } else {
        c
    }
}

/// `s` with its ASCII capitals made small.
pub open spec fn ascii_lowercase(s: Seq<char>) -> Seq<char> {
    s.map_values(|c: char| ascii_lower(c))
}

/// Makes the ASCII capitals of a text small and leaves the rest.
pub fn to_ascii_lowercase(s: &str) -> (r: String)
    ensures
        r@ == ascii_lowercase(s@),
{
    let chars = chars_of(s);
    let mut out = String::new();
    let mut i: usize = 0;
    while i < chars.len()
        invariant
            i <= chars@.len(),
            out@ == ascii_lowercase(chars@.take(i as int)),
        decreases chars@.len() - i,
    {
        let c = chars[i];
        let low = if 'A' <= c && c <= 'Z' {
            ((c as u8) + 32) as char
        } else {
            c
        };
        out.push(low);
        i += 1;
        assert(ascii_lowercase(chars@.take(i as int)) =~= ascii_lowercase(
            chars@.take(i - 1),
        ).push(ascii_lower(c)));
    }
    assert(chars@.take(chars@.len() as int) =~= chars@);
    out
}

/// The words of `s`: its maximal runs of characters that are not white space,
/// in order.
pub open spec fn words(s: Seq<char>) -> Seq<Seq<char>>
    decreases s.len(),
{
    if s.len() == 0 {
        Seq::empty()
    } else if white_space(s.last()) {
        words(s.drop_last())
    } else if s.len() >= 2 && !white_space(s[s.len() - 2]) {
        let earlier = words(s.drop_last());
        earlier.drop_last().push(earlier.last().push(s.last()))
    } else {
        words(s.drop_last()).push(seq![s.last()])
    }
}

/// The views of a list of texts.
pub open spec fn texts(v: Seq<String>) -> Seq<Seq<char>> {
    v.map_values(|s: String| s@)
}

/// Splits a text into its words.
pub fn split_words(s: &str) -> (r: Vec<String>)
    ensures
        texts(r@) == words(s@),
{
    let chars = chars_of(s);
    let mut out: Vec<String> = Vec::new();
    let mut i: usize = 0;
    let mut open = false;
    let mut word = String::new();
    while i < chars.len()
        invariant
            i <= chars@.len(),
            open == (i > 0 && !white_space(chars@[i - 1])),
            open ==> words(chars@.take(i as int)) == texts(out@).push(word@),
            !open ==> words(chars@.take(i as int)) == texts(out@),
        decreases chars@.len() - i,
    {
        let c = chars[i];
        let ghost before = chars@.take(i as int);
        let ghost after = chars@.take(i + 1);
        assert(after.drop_last() =~= before);
        assert(after.last() == c);
        let ghost out0 = out@;
        if c.is_whitespace() {
            if open {
                let ghost w = word@;
                out.push(word);
                word = String::new();
                open = false;
                assert(texts(out@) =~= texts(out0).push(w));
            }
        } else if open {
            let ghost w = word@;
            word.push(c);
            assert(texts(out@).push(w).drop_last() =~= texts(out@));
        } else {
            word = String::new();
            word.push(c);
            open = true;
            assert(word@ =~= seq![c]);
        }
        i += 1;
    }
    assert(chars@.take(chars@.len() as int) =~= chars@);
    let ghost out0 = out@;
    if open {
        let ghost w = word@;
        out.push(word);
        assert(texts(out@) =~= texts(out0).push(w));
    }
    out
}

/// Copies a list of texts.
pub fn clone_texts(v: &Vec<String>) -> (r: Vec<String>)
    ensures
        r@ == v@,
{
    let mut out: Vec<String> = Vec::new();
    let mut i: usize = 0;
    while i < v.len()
        invariant
            i <= v@.len(),
            out@ == v@.take(i as int),
        decreases v@.len() - i,
    {
        out.push(v[i].clone());
        i += 1;
    }
    out
}

/// `s` without the white space at its end.
pub open spec fn without_trailing_space(s: Seq<char>) -> Seq<char>
    decreases s.len(),
{
    if s.len() > 0 && white_space(s.last()) {
        without_trailing_space(s.drop_last())
    } else {
        s
    }
}

/// `s` without the white space at its start.
pub open spec fn without_leading_space(s: Seq<char>) -> Seq<char>
    decreases s.len(),
{
    if s.len() > 0 && white_space(s[0]) {
        without_leading_space(s.drop_first())
    } else {
        s
    }
}

/// `s` without the white space around it.
pub open spec fn trimmed(s: Seq<char>) -> Seq<char> {
    without_trailing_space(without_leading_space(s))
}

/// Drops the white space around a text.
pub fn trim(s: &str) -> (r: String)
    ensures
        r@ == trimmed(s@),
{
    let chars = chars_of(s);
    let mut from: usize = 0;
    assert(chars@.skip(0) =~= chars@);
    while from < chars.len() && chars[from].is_whitespace()
        invariant
            from <= chars@.len(),
            without_leading_space(chars@) == without_leading_space(chars@.skip(from as int)),
        decreases chars@.len() - from,
    {
        assert(chars@.skip(from as int).drop_first() =~= chars@.skip(from + 1));
        from += 1;
    }
    let ghost rest = chars@.skip(from as int);
    assert(without_leading_space(chars@) == rest);
    let mut to: usize = chars.len();
    assert(rest.take(rest.len() as int) =~= rest);
    while to > from && chars[to - 1].is_whitespace()
        invariant
            from <= to <= chars@.len(),
            rest == chars@.skip(from as int),
            without_trailing_space(rest) == without_trailing_space(rest.take(to - from)),
        decreases to,
    {
        assert(rest.take(to - from).drop_last() =~= rest.take(to - from - 1));
        to -= 1;
    }
    assert(chars@.subrange(from as int, to as int) =~= rest.take(to - from));
    text_between(&chars, from, to)
}

/// Whether `s` starts with `prefix`.
pub open spec fn starts_with(s: Seq<char>, prefix: Seq<char>) -> bool {
    prefix.len() <= s.len() && s.take(prefix.len() as int) == prefix
}

/// What follows `prefix` at the start of a text, where the text has it.
pub fn strip_prefix(s: &str, prefix: &str) -> (r: Option<String>)
    ensures
        match r {
            Some(rest) => starts_with(s@, prefix@) && rest@ == s@.skip(prefix@.len() as int),
            None => !starts_with(s@, prefix@),
        },
{
    let chars = chars_of(s);
    let start = chars_of(prefix);
    if chars.len() < start.len() {
        return None;
    }
    let mut i: usize = 0;
    while i < start.len()
        invariant
            i <= start@.len() <= chars@.len(),
            chars@ == s@,
            start@ == prefix@,
            chars@.take(i as int) == start@.take(i as int),
        decreases start@.len() - i,
    {
        if chars[i] != start[i] {
            assert(s@.take(prefix@.len() as int)[i as int] == chars@[i as int]);
            return None;
        }
        i += 1;
    }
    assert(start@.take(i as int) =~= start@);
    assert(chars@.subrange(i as int, chars@.len() as int) =~= s@.skip(i as int));
    Some(text_between(&chars, start.len(), chars.len()))
}

/// Copies a text that may be absent.
pub fn clone_opt(s: &Option<String>) -> (r: Option<String>)
    ensures
        r == *s,
{
    match s {
        Some(s) => Some(s.clone()),
        None => None,
    }
}

/// The view of a text that may be absent.
pub open spec fn opt_view(s: Option<String>) -> Option<Seq<char>> {
    match s {
        Some(s) => Some(s@),
        None => None,
    }
}

/// A text that may be absent, as a slice.
pub fn opt_str(s: &Option<String>) -> (r: Option<&str>)
    ensures
        crate::json::opt_text(r) == opt_view(*s),
{
    match s {
        Some(s) => Some(s.as_str()),
        None => None,
    }
}

/// How many bytes a text takes in UTF-8.
pub open spec fn utf8_len(s: Seq<char>) -> nat {
    vstd::utf8::encode_utf8(s).len()
}

/// How many bytes a text takes in UTF-8.
pub fn byte_len(s: &str) -> (r: usize)
    ensures
        r == utf8_len(s@),
{
    s.as_bytes().len()
}

/// What is cut from the end of a text is that character and nothing else, and all of it.
proof fn cut_end_is_of_one_kind(s: Seq<char>, c: char)
    ensures
        ({
            let kept = without_trailing(s, c);
            &&& kept.len() <= s.len()
            &&& s.take(kept.len() as int) == kept
            &&& kept.len() > 0 ==> kept.last() != c
            &&& forall|i: int| kept.len() <= i < s.len() ==> #[trigger] s[i] == c
        }),
    decreases s.len(),
{
    let kept = without_trailing(s, c);
    if s.len() > 0 && s.last() == c {
        cut_end_is_of_one_kind(s.drop_last(), c);
        assert(s.take(kept.len() as int) =~= s.drop_last().take(kept.len() as int));
        assert forall|i: int| kept.len() <= i < s.len() implies #[trigger] s[i] == c by {
            if i < s.len() - 1 {
                assert(s.drop_last()[i] == s[i]);
            }
        }
    } else {
        assert(s.take(s.len() as int) =~= s);
    }
}

/// Trimming a character at the end keeps a start of the text that does not end with it,
/// and cuts off nothing but it.
pub proof fn end_is_trimmed_of_one_character(s: &str, c: char, r: String)
    requires
        call_ensures(trim_end_char, (s, c), r),
    ensures
        r@.len() <= s@.len(),
        s@.take(r@.len() as int) == r@,
        r@.len() > 0 ==> r@.last() != c,
        forall|i: int| r@.len() <= i < s@.len() ==> #[trigger] s@[i] == c,
{
    cut_end_is_of_one_kind(s@, c);
}

/// Making capitals small keeps the length and every character but the capitals from A to
/// Z, each of which becomes its small letter.
pub proof fn capitals_are_made_small(s: &str, r: String, i: int)
    requires
        call_ensures(to_ascii_lowercase, (s,), r),
        0 <= i < s@.len(),
    ensures
        r@.len() == s@.len(),
        'A' <= s@[i] <= 'Z' ==> r@[i] as int == s@[i] as int + ('a' as int - 'A' as int),
        !('A' <= s@[i] <= 'Z') ==> r@[i] == s@[i],
        !('A' <= r@[i] <= 'Z'),
{
    let c = s@[i];
    if 'A' <= c <= 'Z' {
        assert((c as u8) as int == c as int);
        assert(r@[i] as int == c as int + 32);
    }
}

/// Space that is cut from the start of a text is space, and all of it.
proof fn cut_start_is_space(s: Seq<char>)
    ensures
        ({
            let kept = without_leading_space(s);
            let cut = s.len() - kept.len();
            &&& cut >= 0
            &&& s.skip(cut) == kept
            &&& kept.len() > 0 ==> !white_space(kept[0])
            &&& forall|i: int| 0 <= i < cut ==> white_space(#[trigger] s[i])
        }),
    decreases s.len(),
{
    let kept = without_leading_space(s);
    let cut = s.len() - kept.len();
    if s.len() > 0 && white_space(s[0]) {
        let rest = s.drop_first();
        cut_start_is_space(rest);
        assert(s.skip(cut) =~= rest.skip(cut - 1));
        assert forall|i: int| 0 <= i < cut implies white_space(#[trigger] s[i]) by {
            if i > 0 {
                assert(rest[i - 1] == s[i]);
            }
        }
    } else {
        assert(s.skip(0) =~= s);
    }
}

/// Space that is cut from the end of a text is space, and all of it.
proof fn cut_end_is_space(s: Seq<char>)
    ensures
        ({
            let kept = without_trailing_space(s);
            &&& kept.len() <= s.len()
            &&& s.take(kept.len() as int) == kept
            &&& kept.len() > 0 ==> !white_space(kept.last())
            &&& forall|i: int| kept.len() <= i < s.len() ==> white_space(#[trigger] s[i])
        }),
    decreases s.len(),
{
    let kept = without_trailing_space(s);
    if s.len() > 0 && white_space(s.last()) {
        cut_end_is_space(s.drop_last());
        assert(s.take(kept.len() as int) =~= s.drop_last().take(kept.len() as int));
        assert forall|i: int| kept.len() <= i < s.len() implies white_space(#[trigger] s[i]) by {
            if i < s.len() - 1 {
                assert(s.drop_last()[i] == s[i]);
            }
        }
    } else {
        assert(s.take(s.len() as int) =~= s);
    }
}

/// Trimming a text keeps one run of it, which neither starts nor ends with white space,
/// and cuts off nothing but white space.
pub proof fn space_is_trimmed_around(s: &str, r: String)
    requires
        call_ensures(trim, (s,), r),
    ensures
        exists|from: int, to: int| {
            &&& 0 <= from <= to <= s@.len()
            &&& r@ == #[trigger] s@.subrange(from, to)
            &&& forall|i: int| 0 <= i < from || to <= i < s@.len() ==> white_space(#[trigger] s@[i])
        },
        r@.len() > 0 ==> !white_space(r@[0]) && !white_space(r@.last()),
{
    cut_start_is_space(s@);
    let rest = without_leading_space(s@);
    cut_end_is_space(rest);
    let from = s@.len() - rest.len();
    let to = from + trimmed(s@).len();
    assert(r@ =~= s@.subrange(from, to)) by {
        assert(rest.take(trimmed(s@).len() as int) =~= s@.subrange(from, to));
    }
    assert forall|i: int| 0 <= i < from || to <= i < s@.len() implies white_space(
        #[trigger] s@[i],
    ) by {
        if i >= to {
            assert(rest[i - from] == s@[i]);
        }
    }
    if r@.len() > 0 {
        assert(r@[0] == rest[0]);
    }
}

/// A text is split at white space: a text with a word behind some white space has the
/// words of what stands before, and then that word; white space alone adds none.
pub proof fn words_are_split_at_space(start: Seq<char>, space: char, word: Seq<char>)
    requires
        white_space(space),
        word.len() > 0,
        forall|i: int| 0 <= i < word.len() ==> !white_space(#[trigger] word[i]),
    ensures
        words(Seq::empty()).len() == 0,
        words(start.push(space)) == words(start),
        words(word) == seq![word],
        words(start.push(space) + word) == words(start).push(word),
    decreases word.len(),
{
    let stem = start.push(space);
    assert(stem.drop_last() =~= start);
    let all = stem + word;
    let fewer = word.drop_last();
    assert(all.drop_last() =~= stem + fewer);
    assert(all.last() == word[word.len() - 1]);
    assert(!white_space(word[word.len() - 1]));
    assert(words(Seq::<char>::empty()) =~= Seq::empty());
    if word.len() == 1 {
        assert(stem + fewer =~= stem);
        assert(all[all.len() - 2] == space);
        assert(word =~= seq![word.last()]);
        assert(fewer =~= Seq::empty());
        assert(words(word) =~= seq![word]);
        assert(words(stem) == words(start));
        assert(words(all) == words(stem).push(seq![all.last()]));
    } else {
        assert forall|i: int| 0 <= i < fewer.len() implies !white_space(#[trigger] fewer[i]) by {
            assert(fewer[i] == word[i]);
        }
        words_are_split_at_space(start, space, fewer);
        assert(all[all.len() - 2] == word[word.len() - 2]);
        assert(fewer.push(word.last()) =~= word);
        assert(words(start).push(fewer).drop_last() =~= words(start));
        assert(seq![fewer].drop_last() =~= Seq::empty());
        assert(words(word) =~= seq![word]);
    }
}

/// The words of a text are given one for one, in their order.
pub proof fn words_are_given_in_order(s: &str, r: Vec<String>, i: int)
    requires
        call_ensures(split_words, (s,), r),
    ensures
        r@.len() == words(s@).len(),
        0 <= i < r@.len() ==> r@[i]@ == words(s@)[i],
{
    let shown = texts(r@);
    assert(shown.len() == r@.len());
    if 0 <= i < r@.len() {
        assert(shown[i] == r@[i]@);
    }
}

/// What follows a start is given exactly where the text has that start, and is then what
/// is left of it.
pub proof fn start_is_stripped(s: &str, prefix: &str, r: Option<String>, rest: Seq<char>)
    requires
        call_ensures(strip_prefix, (s, prefix), r),
    ensures
        (r is Some && r->0@ == rest) <==> s@ == prefix@ + rest,
{
    let n = prefix@.len() as int;
    if s@ == prefix@ + rest {
        assert(s@.take(n) =~= prefix@);
        assert(s@.skip(n) =~= rest);
    }
    if r is Some && r->0@ == rest {
        assert(s@ =~= s@.take(n) + s@.skip(n));
    }
}

} // verus!
