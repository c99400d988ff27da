//! JSON documents.

use vstd::prelude::*;

use crate::text::{same_text, stands_before};

verus! {

/// Whether `s` is a run of digits.
pub open spec fn digits(s: Seq<char>) -> bool {
    s.len() > 0 && forall|i: int| 0 <= i < s.len() ==> '0' <= #[trigger] s[i] <= '9'
}

/// Whether `s` is how JSON writes a number with these parts: a sign, the whole
/// part, the fraction with its point and the exponent with its letter.
pub open spec fn number_parts(
    s: Seq<char>,
    sign: Seq<char>,
    whole: Seq<char>,
    fraction: Seq<char>,
    exponent: Seq<char>,
) -> bool {
    &&& s == sign + whole + fraction + exponent
    &&& sign.len() == 0 || sign == seq!['-']
    &&& digits(whole) && (whole[0] == '0' ==> whole.len() == 1)
    &&& fraction.len() == 0 || (fraction[0] == '.' && digits(fraction.skip(1)))
    &&& exponent.len() == 0 || ((exponent[0] == 'e' || exponent[0] == 'E') && (digits(
        exponent.skip(1),
    ) || (exponent.len() > 1 && (exponent[1] == '+' || exponent[1] == '-') && digits(
        exponent.skip(2),
    ))))
}

/// Whether `s` is a number as JSON writes it.
pub open spec fn number_text(s: Seq<char>) -> bool {
    exists|sign: Seq<char>, whole: Seq<char>, fraction: Seq<char>, exponent: Seq<char>|
        number_parts(s, sign, whole, fraction, exponent)
}

/// `serde_json::Number`, carried through as it is.
#[verifier::external_type_specification]
#[verifier::external_body]
pub struct ExJsonNumber(serde_json::Number);

/// How `serde_json` writes a number.
pub uninterp spec fn number_form(n: serde_json::Number) -> Seq<char>;

/// `clone` on a `serde_json::Number`: the same number. `serde_json` writes every
/// number, none of which is infinite or undefined, as JSON does.
#[verifier::external_body]
fn copy_number(n: &serde_json::Number) -> (r: serde_json::Number)
    ensures
        r == *n,
        number_text(number_form(r)),
{
    n.clone()
}

/// Whether names stand in the order of their characters, each once.
pub open spec fn ascending(names: Seq<Seq<char>>) -> bool {
    forall|i: int, j: int|
        0 <= i < j < names.len() ==> crate::text::before(#[trigger] names[i], #[trigger] names[j])
}

/// The members of an object, in the order of their names, each name once.
#[derive(Debug, PartialEq)]
pub struct Members {
    list: Vec<(String, Json)>,
}

/// The names of members.
spec fn listed_names(list: Seq<(String, Json)>) -> Seq<Seq<char>> {
    list.map_values(|member: (String, Json)| member.0@)
}

impl Members {
    #[verifier::type_invariant]
    spec fn wf(self) -> bool {
        ascending(listed_names(self.list@))
    }

    /// The members, in the order of their names.
    pub fn as_list(&self) -> (r: &Vec<(String, Json)>)
        ensures
            JsonView::Object(
                r@.map_values(|member: (String, Json)| (member.0@, member.1@)),
            ) == Json::Object(*self)@,
            ascending(r@.map_values(|member: (String, Json)| member.0@)),
    {
        proof {
            use_type_invariant(self);
        }
        let r = &self.list;
        assert(listed_names(r@) =~= r@.map_values(|member: (String, Json)| member.0@));
        assert(Json::Object(*self).tree()->Object_0 =~= r@.map_values(
            |member: (String, Json)| (member.0@, member.1@),
        ));
        r
    }
}

/// A JSON document.
#[derive(Debug, PartialEq)]
pub enum Json {
    Null,
    Bool(bool),
    Number(serde_json::Number),
    Text(String),
    Array(Vec<Json>),
    Object(Members),
}

/// What a JSON document says.
pub enum JsonView {
    Null,
    Bool(bool),
    Number(Seq<char>),
    Text(Seq<char>),
    Array(Seq<JsonView>),
    Object(Seq<(Seq<char>, JsonView)>),
}

/// The names of members.
pub open spec fn names(members: Seq<(Seq<char>, JsonView)>) -> Seq<Seq<char>> {
    members.map_values(|member: (Seq<char>, JsonView)| member.0)
}

impl JsonView {
    /// Whether every number in the document is written as one, and the members of
    /// every object stand in the order of their names, each name once.
    pub open spec fn canonical(self) -> bool
        decreases self,
    {
        match self {
            JsonView::Number(n) => number_text(n),
            JsonView::Array(items) => forall|i: int|
                0 <= i < items.len() ==> (#[trigger] items[i]).canonical(),
            JsonView::Object(members) => ascending(names(members)) && forall|i: int|
                0 <= i < members.len() ==> (#[trigger] members[i]).1.canonical(),
            _ => true,
        }
    }
}

impl Json {
    /// What the document says.
    pub closed spec fn tree(self) -> JsonView
        decreases self,
    {
        match self {
            Json::Null => JsonView::Null,
            Json::Bool(b) => JsonView::Bool(b),
            Json::Number(n) => JsonView::Number(number_form(n)),
            Json::Text(s) => JsonView::Text(s@),
            Json::Array(items) => JsonView::Array(
                Seq::new(
                    items@.len(),
                    |i: int|
                        if 0 <= i < items@.len() {
                            items@[i].tree()
                        } else {
                            JsonView::Null
                        },
                ),
            ),
            Json::Object(members) => JsonView::Object(
                Seq::new(
                    members.list@.len(),
                    |i: int|
                        if 0 <= i < members.list@.len() {
                            (members.list@[i].0@, members.list@[i].1.tree())
                        } else {
                            (Seq::empty(), JsonView::Null)
                        },
                ),
            ),
        }
    }
}

impl View for Json {
    type V = JsonView;

    open spec fn view(&self) -> JsonView {
        self.tree()
    }
}

/// The value of the first member with the name `key`.
pub open spec fn first_member(members: Seq<(Seq<char>, JsonView)>, key: Seq<char>) -> Option<
    JsonView,
>
    decreases members.len(),
{
    if members.len() == 0 {
        None
    } else if members[0].0 == key {
        Some(members[0].1)
    } else {
        first_member(members.drop_first(), key)
    }
}

impl JsonView {
    /// The member of an object with the name `key`. Nothing but an object has members.
    pub open spec fn member(self, key: Seq<char>) -> Option<JsonView> {
        match self {
            JsonView::Object(members) => first_member(members, key),
            _ => None,
        }
    }

    /// The text that a document of kind text holds.
    pub open spec fn text(self) -> Option<Seq<char>> {
        match self {
            JsonView::Text(s) => Some(s),
            _ => None,
        }
    }

    /// The text of the member `key`, where there is such a member and it is a text.
    pub open spec fn text_member(self, key: Seq<char>) -> Option<Seq<char>> {
        match self.member(key) {
            Some(v) => v.text(),
            None => None,
        }
    }
}

/// The view of a text that may be absent.
pub open spec fn opt_text(s: Option<&str>) -> Option<Seq<char>> {
    match s {
        Some(s) => Some(s@),
        None => None,
    }
}

impl Clone for Json {
    fn clone(&self) -> (r: Self)
        ensures
            r@ == self@,
            r@.canonical(),
    {
        self.duplicate()
    }
}

impl Json {
    /// A document that says the same.
    fn duplicate(&self) -> (r: Self)
        ensures
            r@ == self@,
            r@.canonical(),
        decreases self,
    {
        match self {
            Json::Null => Json::Null,
            Json::Bool(b) => Json::Bool(*b),
            Json::Number(n) => Json::Number(copy_number(n)),
            Json::Text(s) => Json::Text(s.clone()),
            Json::Array(items) => {
                let mut out: Vec<Json> = Vec::new();
                let mut i: usize = 0;
                while i < items.len()
                    invariant
                        i <= items@.len(),
                        out@.len() == i,
                        *self == Json::Array(*items),
                        forall|j: int|
                            0 <= j < i ==> out@[j].tree() == (#[trigger] items@[j]).tree()
                                && items@[j].tree().canonical(),
                    decreases items@.len() - i,
                {
                    assert(decreases_to!(*self => self->Array_0));
                    assert(decreases_to!(self->Array_0 => items@));
                    assert(decreases_to!(items@ => items@[i as int]));
                    let item = items[i].duplicate();
                    out.push(item);
                    i += 1;
                }
                let r = Json::Array(out);
                assert(r.tree()->Array_0 =~= self.tree()->Array_0);
                r
            },
            Json::Object(members) => {
                proof {
                    use_type_invariant(members);
                }
                let list = &members.list;
                let mut out: Vec<(String, Json)> = Vec::new();
                let mut i: usize = 0;
                while i < list.len()
                    invariant
                        i <= list@.len(),
                        out@.len() == i,
                        *self == Json::Object(*members),
                        *list == members.list,
                        forall|j: int|
                            0 <= j < i ==> out@[j].0@ == (#[trigger] list@[j]).0@
                                && out@[j].1.tree() == list@[j].1.tree()
                                && list@[j].1.tree().canonical(),
                    decreases list@.len() - i,
                {
                    assert(decreases_to!(*self => self->Object_0));
                    assert(decreases_to!(self->Object_0 => self->Object_0.list));
                    assert(decreases_to!(self->Object_0.list => list@));
                    assert(decreases_to!(list@ => list@[i as int]));
                    let name = list[i].0.clone();
                    let value = list[i].1.duplicate();
                    out.push((name, value));
                    i += 1;
                }
                assert(listed_names(out@) =~= listed_names(list@));
                let r = Json::Object(Members { list: out });
                assert(r.tree()->Object_0 =~= self.tree()->Object_0);
                assert(names(r.tree()->Object_0) =~= listed_names(list@));
                r
            },
        }
    }
}

impl Json {
    /// The member of an object with the name `key`.
    pub fn get(&self, key: &str) -> (r: Option<&Json>)
        ensures
            match r {
                Some(v) => self@.member(key@) == Some(v@),
                None => self@.member(key@) is None,
            },
    {
        match self {
            Json::Object(members) => {
                let list = &members.list;
                let ghost all = self.tree()->Object_0;
                let mut i: usize = 0;
                assert(all.skip(0) =~= all);
                while i < list.len()
                    invariant
                        i <= list@.len(),
                        *self == Json::Object(*members),
                        *list == members.list,
                        all == self.tree()->Object_0,
                        self@.member(key@) == first_member(all.skip(i as int), key@),
                    decreases list@.len() - i,
                {
                    if same_text(list[i].0.as_str(), key) {
                        assert(all.skip(i as int)[0] == all[i as int]);
                        return Some(&list[i].1);
                    }
                    assert(all.skip(i as int).drop_first() =~= all.skip(i + 1));
                    i += 1;
                }
                None
            },
            _ => None,
        }
    }

    /// The text of a document of kind text.
    pub fn as_str(&self) -> (r: Option<&str>)
        ensures
            opt_text(r) == self@.text(),
    {
        match self {
            Json::Text(s) => Some(s.as_str()),
            _ => None,
        }
    }

    /// The text of the member `key`.
    pub fn get_str(&self, key: &str) -> (r: Option<&str>)
        ensures
            opt_text(r) == self@.text_member(key@),
    {
        match self.get(key) {
            Some(v) => v.as_str(),
            None => None,
        }
    }
}

impl Json {
    /// A text.
    pub fn from_str_slice(s: &str) -> (r: Json)
        ensures
            r@ == JsonView::Text(s@),
    {
        Json::Text(s.to_string())
    }

    /// A text.
    pub fn from_string(s: String) -> (r: Json)
        ensures
            r@ == JsonView::Text(s@),
    {
        Json::Text(s)
    }

    /// An array.
    pub fn array(items: Vec<Json>) -> (r: Json)
        ensures
            r@ == JsonView::Array(items@.map_values(|item: Json| item@)),
    {
        let r = Json::Array(items);
        assert(r.tree()->Array_0 =~= items@.map_values(|item: Json| item@));
        r
    }
}

/// The place of `name` among members: behind those whose names stand before it.
pub open spec fn place_of(members: Seq<(Seq<char>, JsonView)>, name: Seq<char>) -> int
    decreases members.len(),
{
    if members.len() > 0 && crate::text::before(members[0].0, name) {
        1 + place_of(members.drop_first(), name)
    } else {
        0
    }
}

/// Members with one more. One of the same name is replaced.
pub open spec fn with_member(
    members: Seq<(Seq<char>, JsonView)>,
    name: Seq<char>,
    value: JsonView,
) -> Seq<(Seq<char>, JsonView)> {
    let place = place_of(members, name);
    if place < members.len() && members[place].0 == name {
        members.update(place, (name, value))
    } else {
        members.insert(place, (name, value))
    }
}

/// Members put in one after the other: in the order of their names, and of several
/// with one name the last.
pub open spec fn arranged(members: Seq<(Seq<char>, JsonView)>) -> Seq<(Seq<char>, JsonView)>
    decreases members.len(),
{
    if members.len() == 0 {
        Seq::empty()
    } else {
        with_member(arranged(members.drop_last()), members.last().0, members.last().1)
    }
}

/// The place of `name` is where the names that stand before it end.
proof fn place_parts(members: Seq<(Seq<char>, JsonView)>, name: Seq<char>)
    ensures
        0 <= place_of(members, name) <= members.len(),
        forall|i: int|
            0 <= i < place_of(members, name) ==> crate::text::before(
                (#[trigger] members[i]).0,
                name,
            ),
        place_of(members, name) < members.len() ==> !crate::text::before(
            members[place_of(members, name)].0,
            name,
        ),
    decreases members.len(),
{
    if members.len() > 0 && crate::text::before(members[0].0, name) {
        let rest = members.drop_first();
        place_parts(rest, name);
        assert forall|i: int| 0 <= i < place_of(members, name) implies crate::text::before(
            (#[trigger] members[i]).0,
            name,
        ) by {
            if i > 0 {
                assert(rest[i - 1] == members[i]);
            }
        }
    }
}

/// Members in order stay in order with one more.
proof fn with_member_ascends(
    members: Seq<(Seq<char>, JsonView)>,
    name: Seq<char>,
    value: JsonView,
)
    requires
        ascending(names(members)),
    ensures
        ascending(names(with_member(members, name, value))),
{
    let place = place_of(members, name);
    let after = with_member(members, name, value);
    place_parts(members, name);
    assert forall|i: int, j: int| 0 <= i < j < members.len() implies crate::text::before(
        (#[trigger] members[i]).0,
        (#[trigger] members[j]).0,
    ) by {
        assert(crate::text::before(names(members)[i], names(members)[j]));
    }
    if place < members.len() && members[place].0 == name {
        assert(names(after) =~= names(members));
    } else {
        if place < members.len() {
            crate::text::one_stands_before(name, members[place].0);
        }
        assert forall|i: int, j: int| 0 <= i < j < after.len() implies crate::text::before(
            #[trigger] names(after)[i],
            #[trigger] names(after)[j],
        ) by {
            if i == place {
                assert(after[j] == members[j - 1]);
                if j - 1 > place {
                    assert(crate::text::before(members[place].0, members[j - 1].0));
                    crate::text::before_is_transitive(name, members[place].0, members[j - 1].0);
                }
            } else {
                let i0 = if i < place { i } else { i - 1 };
                assert(after[i] == members[i0]);
                if j != place {
                    let j0 = if j < place { j } else { j - 1 };
                    assert(after[j] == members[j0]);
                }
            }
        }
    }
}

/// A name behind all others has its place at the end.
proof fn place_at_the_end(members: Seq<(Seq<char>, JsonView)>, name: Seq<char>)
    requires
        forall|i: int|
            0 <= i < members.len() ==> crate::text::before((#[trigger] members[i]).0, name),
    ensures
        place_of(members, name) == members.len(),
    decreases members.len(),
{
    if members.len() > 0 {
        let rest = members.drop_first();
        assert forall|i: int| 0 <= i < rest.len() implies crate::text::before(
            (#[trigger] rest[i]).0,
            name,
        ) by {
            assert(rest[i] == members[i + 1]);
        }
        assert(crate::text::before(members[0].0, name));
        place_at_the_end(rest, name);
    }
}

/// Members that stand in order stay as they are.
pub proof fn ascending_members_are_kept(members: Seq<(Seq<char>, JsonView)>)
    requires
        ascending(names(members)),
    ensures
        arranged(members) == members,
    decreases members.len(),
{
    if members.len() > 0 {
        let rest = members.drop_last();
        let last = members.last();
        assert forall|i: int, j: int| 0 <= i < j < rest.len() implies crate::text::before(
            #[trigger] names(rest)[i],
            #[trigger] names(rest)[j],
        ) by {
            assert(crate::text::before(names(members)[i], names(members)[j]));
        }
        ascending_members_are_kept(rest);
        assert forall|i: int| 0 <= i < rest.len() implies crate::text::before(
            (#[trigger] rest[i]).0,
            last.0,
        ) by {
            assert(crate::text::before(names(members)[i], names(members)[members.len() - 1]));
        }
        place_at_the_end(rest, last.0);
        assert(arranged(members) =~= members);
    }
}

/// Two members in order stay as they are.
pub proof fn two_members_are_kept(
    name0: Seq<char>,
    value0: JsonView,
    name1: Seq<char>,
    value1: JsonView,
)
    requires
        crate::text::before(name0, name1),
    ensures
        arranged(seq![(name0, value0), (name1, value1)]) == seq![(name0, value0), (name1, value1)],
{
    ascending_members_are_kept(seq![(name0, value0), (name1, value1)]);
}

/// Three members in order stay as they are.
pub proof fn three_members_are_kept(
    name0: Seq<char>,
    value0: JsonView,
    name1: Seq<char>,
    value1: JsonView,
    name2: Seq<char>,
    value2: JsonView,
)
    requires
        crate::text::before(name0, name1),
        crate::text::before(name1, name2),
    ensures
        arranged(seq![(name0, value0), (name1, value1), (name2, value2)]) == seq![
            (name0, value0),
            (name1, value1),
            (name2, value2),
        ],
{
    crate::text::before_is_transitive(name0, name1, name2);
    ascending_members_are_kept(seq![(name0, value0), (name1, value1), (name2, value2)]);
}

/// What members say.
spec fn said(list: Seq<(String, Json)>) -> Seq<(Seq<char>, JsonView)> {
    list.map_values(|member: (String, Json)| (member.0@, member.1.tree()))
}

/// Puts a member in.
fn put_member(list: &mut Vec<(String, Json)>, name: String, value: Json)
    requires
        ascending(listed_names(old(list)@)),
    ensures
        ascending(listed_names(final(list)@)),
        said(final(list)@) == with_member(said(old(list)@), name@, value@),
{
    let ghost before = said(list@);
    let ghost key = name@;
    let ghost held = value@;
    let mut i: usize = 0;
    assert(before.skip(0) =~= before);
    while i < list.len() && stands_before(list[i].0.as_str(), name.as_str())
        invariant
            i <= list@.len(),
            before == said(list@),
            key == name@,
            place_of(before, key) == i + place_of(before.skip(i as int), key),
        decreases list@.len() - i,
    {
        assert(before.skip(i as int).drop_first() =~= before.skip(i + 1));
        i += 1;
    }
    proof {
        assert(names(before) =~= listed_names(list@));
        with_member_ascends(before, key, held);
    }
    if i < list.len() && same_text(list[i].0.as_str(), name.as_str()) {
        list.remove(i);
    }
    list.insert(i, (name, value));
    assert(said(list@) =~= with_member(before, key, held));
    assert(names(said(list@)) =~= listed_names(list@));
}

impl Json {
    /// An object with members put in one after the other.
    pub fn object(members: Vec<(String, Json)>) -> (r: Json)
        ensures
            r@ == JsonView::Object(
                arranged(members@.map_values(|member: (String, Json)| (member.0@, member.1@))),
            ),
    {
        let mut list: Vec<(String, Json)> = Vec::new();
        let ghost all = said(members@);
        assert(said(list@) =~= arranged(all.take(0)));
        for member in it: members
            invariant
                it.seq() == members@,
                all == said(members@),
                ascending(listed_names(list@)),
                said(list@) == arranged(all.take(it.index())),
        {
            assert(all.take(it.index() + 1).drop_last() =~= all.take(it.index()));
            assert(all.take(it.index() + 1).last() == (member.0@, member.1@));
            put_member(&mut list, member.0, member.1);
        }
        assert(all.take(all.len() as int) =~= all);
        assert(all =~= members@.map_values(|member: (String, Json)| (member.0@, member.1@)));
        let ghost put = list@;
        let r = Json::Object(Members { list });
        assert(r.tree()->Object_0 =~= said(put));
        r
    }

    /// An object with one member.
    pub fn object1(name: &str, value: Json) -> (r: Json)
        ensures
            r@ == JsonView::Object(seq![(name@, value@)]),
    {
        let ghost all = seq![(name@, value@)];
        let mut members: Vec<(String, Json)> = Vec::new();
        members.push((name.to_string(), value));
        proof {
            assert(members@.map_values(|member: (String, Json)| (member.0@, member.1@)) =~= all);
            ascending_members_are_kept(all);
        }
        Json::object(members)
    }

    /// An object with two members.
    pub fn object2(name0: &str, value0: Json, name1: &str, value1: Json) -> (r: Json)
        ensures
            r@ == JsonView::Object(arranged(seq![(name0@, value0@), (name1@, value1@)])),
    {
        let ghost all = seq![(name0@, value0@), (name1@, value1@)];
        let mut members: Vec<(String, Json)> = Vec::new();
        members.push((name0.to_string(), value0));
        members.push((name1.to_string(), value1));
        assert(members@.map_values(|member: (String, Json)| (member.0@, member.1@)) =~= all);
        Json::object(members)
    }

    /// An object with three members.
    pub fn object3(
        name0: &str,
        value0: Json,
        name1: &str,
        value1: Json,
        name2: &str,
        value2: Json,
    ) -> (r: Json)
        ensures
            r@ == JsonView::Object(
                arranged(seq![(name0@, value0@), (name1@, value1@), (name2@, value2@)]),
            ),
    {
        let ghost all = seq![(name0@, value0@), (name1@, value1@), (name2@, value2@)];
        let mut members: Vec<(String, Json)> = Vec::new();
        members.push((name0.to_string(), value0));
        members.push((name1.to_string(), value1));
        members.push((name2.to_string(), value2));
        assert(members@.map_values(|member: (String, Json)| (member.0@, member.1@)) =~= all);
        Json::object(members)
    }
}

/// The digit of the hexadecimal number `n`, below sixteen.
pub open spec fn hex_digit(n: int) -> char {
    if n < 10 {
        (('0' as int) + n) as char
    } else {
        (('a' as int) + n - 10) as char
    }
}

/// How a character is written inside a JSON string.
pub open spec fn escaped_char(c: char) -> Seq<char> {
    if c == '"' || c == '\\' {
        seq!['\\', c]
    } else if c == '\u{8}' {
        seq!['\\', 'b']
    } else if c == '\t' {
        seq!['\\', 't']
    } else if c == '\n' {
        seq!['\\', 'n']
    } else if c == '\u{c}' {
        seq!['\\', 'f']
    } else if c == '\r' {
        seq!['\\', 'r']
    } else if (c as int) < 32 {
        seq!['\\', 'u', '0', '0', hex_digit(c as int / 16), hex_digit(c as int % 16)]
    } else {
        seq![c]
    }
}

/// The inside of the JSON string for `s`.
pub open spec fn escaped(s: Seq<char>) -> Seq<char>
    decreases s.len(),
{
    if s.len() == 0 {
        Seq::empty()
    } else {
        escaped(s.drop_last()) + escaped_char(s.last())
    }
}

/// The JSON string for `s`, with its quotation marks.
pub open spec fn quoted(s: Seq<char>) -> Seq<char> {
    seq!['"'] + escaped(s) + seq!['"']
}

/// The compact text of a document: no white space between its parts.
pub open spec fn json_text(v: JsonView) -> Seq<char>
    decreases v,
{
    match v {
        JsonView::Null => "null"@,
        JsonView::Bool(b) => if b {
            "true"@
        } else {
            "false"@
        },
        JsonView::Number(n) => n,
        JsonView::Text(s) => quoted(s),
        JsonView::Array(items) => seq!['['] + items_text(items) + seq![']'],
        JsonView::Object(members) => seq!['{'] + members_text(members) + seq!['}'],
    }
}

/// The texts of the items of an array, with commas between them.
pub open spec fn items_text(items: Seq<JsonView>) -> Seq<char>
    decreases items,
{
    if items.len() == 0 {
        Seq::empty()
    } else if items.len() == 1 {
        json_text(items[0])
    } else {
        items_text(items.drop_last()) + seq![','] + json_text(items[items.len() - 1])
    }
}

/// The texts of the members of an object, with commas between them.
pub open spec fn members_text(members: Seq<(Seq<char>, JsonView)>) -> Seq<char>
    decreases members,
{
    if members.len() == 0 {
        Seq::empty()
    } else {
        let name = members[members.len() - 1].0;
        let value = members[members.len() - 1].1;
        let own = quoted(name) + seq![':'] + json_text(value);
        if members.len() == 1 {
            own
        } else {
            members_text(members.drop_last()) + seq![','] + own
        }
    }
}

/// `serde_json::to_string` on a text: the text between quotation marks, with
/// a backslash before quotation marks and backslashes, the short escapes for
/// backspace, tab, line feed, form feed and carriage return, and `\u00xx` with
/// small hexadecimal digits for the other characters below the space.
#[verifier::external_body]
pub(crate) fn json_quote(s: &str) -> (r: String)
    ensures
        r@ == quoted(s@),
{
    serde_json::to_string(s).expect("a text is always serializable")
}

/// The text of one member of an object.
pub open spec fn member_text(name: Seq<char>, value: Seq<char>) -> Seq<char> {
    quoted(name) + seq![':'] + value
}

/// The text of an object with one member, by the text of its value.
pub open spec fn record1_text(name: Seq<char>, value: Seq<char>) -> Seq<char> {
    seq!['{'] + member_text(name, value) + seq!['}']
}

/// The text of an object with two members in the order given.
pub open spec fn record2_text(
    name0: Seq<char>,
    value0: Seq<char>,
    name1: Seq<char>,
    value1: Seq<char>,
) -> Seq<char> {
    seq!['{'] + member_text(name0, value0) + seq![','] + member_text(name1, value1) + seq!['}']
}

/// The text of an object with three members in the order given.
pub open spec fn record3_text(
    name0: Seq<char>,
    value0: Seq<char>,
    name1: Seq<char>,
    value1: Seq<char>,
    name2: Seq<char>,
    value2: Seq<char>,
) -> Seq<char> {
    seq!['{'] + member_text(name0, value0) + seq![','] + member_text(name1, value1) + seq![',']
        + member_text(name2, value2) + seq!['}']
}

/// The text of a record is that of the object with the same members.
pub proof fn record1_is_object(name: Seq<char>, value: JsonView)
    ensures
        record1_text(name, json_text(value)) == json_text(JsonView::Object(seq![(name, value)])),
{
    let one = seq![(name, value)];
    assert(members_text(one) == member_text(name, json_text(value)));
}

/// The text of a record is that of the object with the same members.
pub proof fn record2_is_object(
    name0: Seq<char>,
    value0: JsonView,
    name1: Seq<char>,
    value1: JsonView,
)
    ensures
        record2_text(name0, json_text(value0), name1, json_text(value1)) == json_text(
            JsonView::Object(seq![(name0, value0), (name1, value1)]),
        ),
{
    let one = seq![(name0, value0)];
    let two = seq![(name0, value0), (name1, value1)];
    assert(two.drop_last() =~= one);
    assert(members_text(one) == member_text(name0, json_text(value0)));
    assert(members_text(two) == members_text(one) + seq![','] + member_text(
        name1,
        json_text(value1),
    ));
    assert(json_text(JsonView::Object(two)) =~= record2_text(
        name0,
        json_text(value0),
        name1,
        json_text(value1),
    ));
}

/// The text of a record is that of the object with the same members.
pub proof fn record3_is_object(
    name0: Seq<char>,
    value0: JsonView,
    name1: Seq<char>,
    value1: JsonView,
    name2: Seq<char>,
    value2: JsonView,
)
    ensures
        record3_text(
            name0,
            json_text(value0),
            name1,
            json_text(value1),
            name2,
            json_text(value2),
        ) == json_text(
            JsonView::Object(seq![(name0, value0), (name1, value1), (name2, value2)]),
        ),
{
    let one = seq![(name0, value0)];
    let two = seq![(name0, value0), (name1, value1)];
    let three = seq![(name0, value0), (name1, value1), (name2, value2)];
    assert(two.drop_last() =~= one);
    assert(three.drop_last() =~= two);
    assert(members_text(one) == member_text(name0, json_text(value0)));
    assert(members_text(two) == members_text(one) + seq![','] + member_text(
        name1,
        json_text(value1),
    ));
    assert(members_text(three) == members_text(two) + seq![','] + member_text(
        name2,
        json_text(value2),
    ));
    assert(json_text(JsonView::Object(three)) =~= record3_text(
        name0,
        json_text(value0),
        name1,
        json_text(value1),
        name2,
        json_text(value2),
    ));
}

/// Writes one member of an object.
fn push_member(out: &mut String, name: &str, value: &str)
    ensures
        final(out)@ == old(out)@ + member_text(name@, value@),
{
    let quoted_name = json_quote(name);
    out.append(quoted_name.as_str());
    out.push(':');
    out.append(value);
    assert(out@ =~= old(out)@ + member_text(name@, value@));
}

/// Writes an object with one member, by the text of its value.
pub fn record1(name: &str, value: &str) -> (r: String)
    ensures
        r@ == record1_text(name@, value@),
{
    let mut out = String::new();
    out.push('{');
    push_member(&mut out, name, value);
    out.push('}');
    assert(out@ =~= record1_text(name@, value@));
    out
}

/// Writes an object with two members in the order given, by the texts of their
/// values.
pub fn record2(name0: &str, value0: &str, name1: &str, value1: &str) -> (r: String)
    ensures
        r@ == record2_text(name0@, value0@, name1@, value1@),
{
    let mut out = String::new();
    out.push('{');
    push_member(&mut out, name0, value0);
    out.push(',');
    push_member(&mut out, name1, value1);
    out.push('}');
    assert(out@ =~= record2_text(name0@, value0@, name1@, value1@));
    out
}

/// Writes an object with three members in the order given, by the texts of their
/// values.
pub fn record3(
    name0: &str,
    value0: &str,
    name1: &str,
    value1: &str,
    name2: &str,
    value2: &str,
) -> (r: String)
    ensures
        r@ == record3_text(name0@, value0@, name1@, value1@, name2@, value2@),
{
    let mut out = String::new();
    out.push('{');
    push_member(&mut out, name0, value0);
    out.push(',');
    push_member(&mut out, name1, value1);
    out.push(',');
    push_member(&mut out, name2, value2);
    out.push('}');
    assert(out@ =~= record3_text(name0@, value0@, name1@, value1@, name2@, value2@));
    out
}

/// `serde_json::Value`, handed from the reader to its conversion.
#[verifier::external_type_specification]
#[verifier::external_body]
pub struct ExJsonValue(serde_json::Value);

/// Takes a `serde_json::Value` over, part by part; an object with its members in
/// the order in which the value yields them, which is that of their names. Nothing is stated of the result, since the value itself is
/// not visible here.
#[verifier::external_body]
fn from_value(value: serde_json::Value) -> Json {
    match value {
        serde_json::Value::Null => Json::Null,
        serde_json::Value::Bool(b) => Json::Bool(b),
        serde_json::Value::Number(n) => Json::Number(n),
        serde_json::Value::String(s) => Json::Text(s),
        serde_json::Value::Array(items) => Json::Array(items.into_iter().map(from_value).collect()),
        serde_json::Value::Object(members) => Json::Object(Members {
            list: members.into_iter().map(|(name, member)| (name, from_value(member))).collect(),
        }),
    }
}

/// Hands a document over as a `serde_json::Value`, part by part. Nothing is stated
/// of the result, since the value itself is not visible here.
#[verifier::external_body]
fn to_value(document: &Json) -> serde_json::Value {
    match document {
        Json::Null => serde_json::Value::Null,
        Json::Bool(b) => serde_json::Value::Bool(*b),
        Json::Number(n) => serde_json::Value::Number(n.clone()),
        Json::Text(s) => serde_json::Value::String(s.clone()),
        Json::Array(items) => serde_json::Value::Array(items.iter().map(to_value).collect()),
        Json::Object(members) => serde_json::Value::Object(
            members.list.iter().map(|(name, member)| (name.clone(), to_value(member))).collect(),
        ),
    }
}

/// `serde_json::to_string` on a document: its compact text.
#[verifier::external_body]
fn write_compact(document: &Json) -> (r: String)
    ensures
        r@ == json_text(document@),
{
    serde_json::to_string(&to_value(document)).expect("a document is always serializable")
}

/// How `serde_json` writes a document over several lines.
pub uninterp spec fn pretty_json(document: JsonView) -> Seq<char>;

/// `serde_json::to_string_pretty` on a document: its text with one item or member
/// per line. What it is depends on the document alone.
#[verifier::external_body]
fn write_pretty(document: &Json) -> (r: String)
    ensures
        r@ == pretty_json(document@),
{
    serde_json::to_string_pretty(&to_value(document)).expect("a document is always serializable")
}

impl Json {
    /// The compact text of the document.
    pub fn to_text(&self) -> (r: String)
        ensures
            r@ == json_text(self@),
    {
        write_compact(self)
    }

    /// The text of the document with one item or member per line.
    pub fn to_pretty_text(&self) -> (r: String)
        ensures
            r@ == pretty_json(self@),
    {
        write_pretty(self)
    }
}

/// What `serde_json` reads in a text: a document, or what is wrong with the text.
pub uninterp spec fn parsed_json(text: Seq<char>) -> Result<JsonView, Seq<char>>;

/// `serde_json::from_str` into a `serde_json::Value`, taken over as a `Json`.
/// What a text is read as depends on the text alone.
#[verifier::external_body]
fn parse(text: &str) -> (r: Result<Json, String>)
    ensures
        match r {
            Ok(document) => parsed_json(text@) == Ok::<JsonView, Seq<char>>(document@),
            Err(fault) => parsed_json(text@) == Err::<JsonView, Seq<char>>(fault@),
        },
{
    serde_json::from_str::<serde_json::Value>(text).map(from_value).map_err(|e| e.to_string())
}

impl Json {
    /// Reads a document.
    pub fn from_text(text: &str) -> (r: Result<Json, String>)
        ensures
            match r {
                Ok(document) => parsed_json(text@) == Ok::<JsonView, Seq<char>>(document@),
                Err(fault) => parsed_json(text@) == Err::<JsonView, Seq<char>>(fault@),
            },
    {
        parse(text)
    }
}

/// What is found by name in an object with one member.
pub proof fn member_of_one(name: Seq<char>, value: JsonView)
    ensures
        JsonView::Object(seq![(name, value)]).member(name) == Some(value),
        forall|other: Seq<char>|
            other != name ==> #[trigger] JsonView::Object(seq![(name, value)]).member(other)
                is None,
{
    reveal_with_fuel(first_member, 3);
    let all = seq![(name, value)];
    assert(all.drop_first() =~= Seq::empty());
}

/// What is found by name in an object with two members.
pub proof fn member_of_two(
    name0: Seq<char>,
    value0: JsonView,
    name1: Seq<char>,
    value1: JsonView,
)
    ensures
        ({
            let object = JsonView::Object(seq![(name0, value0), (name1, value1)]);
            &&& object.member(name0) == Some(value0)
            &&& name0 != name1 ==> object.member(name1) == Some(value1)
            &&& forall|other: Seq<char>|
                other != name0 && other != name1 ==> #[trigger] object.member(other) is None
        }),
{
    reveal_with_fuel(first_member, 4);
    let all = seq![(name0, value0), (name1, value1)];
    assert(all.drop_first() =~= seq![(name1, value1)]);
    assert(seq![(name1, value1)].drop_first() =~= Seq::empty());
}

/// What is found by name in an object with three members.
pub proof fn member_of_three(
    name0: Seq<char>,
    value0: JsonView,
    name1: Seq<char>,
    value1: JsonView,
    name2: Seq<char>,
    value2: JsonView,
)
    ensures
        ({
            let object = JsonView::Object(
                seq![(name0, value0), (name1, value1), (name2, value2)],
            );
            &&& object.member(name0) == Some(value0)
            &&& name0 != name1 ==> object.member(name1) == Some(value1)
            &&& name0 != name2 && name1 != name2 ==> object.member(name2) == Some(value2)
        }),
{
    reveal_with_fuel(first_member, 5);
    let all = seq![(name0, value0), (name1, value1), (name2, value2)];
    assert(all.drop_first() =~= seq![(name1, value1), (name2, value2)]);
    assert(seq![(name1, value1), (name2, value2)].drop_first() =~= seq![(name2, value2)]);
}

/// A text that is found under a name is a text, and nothing else is.
pub proof fn text_member_is_the_member(v: JsonView, key: Seq<char>, s: Seq<char>)
    ensures
        v.text_member(key) == Some(s) <==> v.member(key) == Some(JsonView::Text(s)),
        !(v is Object) ==> v.member(key) is None,
{
}

/// Putting a member in is found again under its name, and leaves what is found under
/// any other name.
pub proof fn put_member_is_found(
    members: Seq<(Seq<char>, JsonView)>,
    name: Seq<char>,
    value: JsonView,
    other: Seq<char>,
)
    requires
        ascending(names(members)),
    ensures
        first_member(with_member(members, name, value), name) == Some(value),
        other != name ==> first_member(with_member(members, name, value), other)
            == first_member(members, other),
    decreases members.len(),
{
    let place = place_of(members, name);
    let after = with_member(members, name, value);
    place_parts(members, name);
    crate::text::one_stands_before(name, name);
    if place == 0 {
        if members.len() > 0 && members[0].0 == name {
            assert(after.drop_first() =~= members.drop_first());
        } else {
            assert(after.drop_first() =~= members);
        }
    } else {
        let rest = members.drop_first();
        assert forall|i: int, j: int| 0 <= i < j < rest.len() implies crate::text::before(
            #[trigger] names(rest)[i],
            #[trigger] names(rest)[j],
        ) by {
            assert(names(rest)[i] == names(members)[i + 1]);
            assert(names(rest)[j] == names(members)[j + 1]);
        }
        put_member_is_found(rest, name, value, other);
        assert(members[0].0 != name);
        place_parts(rest, name);
        assert(place_of(rest, name) == place - 1);
        if place < members.len() {
            assert(rest[place - 1] == members[place]);
        }
        assert(after.drop_first() =~= with_member(rest, name, value));
        assert(after[0] == members[0]);
    }
}

/// Every member of an object is found under its name, and nothing is found under a name
/// that no member has.
pub proof fn every_member_is_found(members: Seq<(Seq<char>, JsonView)>, key: Seq<char>, i: int)
    requires
        ascending(names(members)),
    ensures
        0 <= i < members.len() && members[i].0 == key ==> JsonView::Object(members).member(key)
            == Some(members[i].1),
        (forall|k: int| 0 <= k < members.len() ==> (#[trigger] members[k]).0 != key)
            ==> JsonView::Object(members).member(key) is None,
    decreases members.len(),
{
    if members.len() > 0 {
        let rest = members.drop_first();
        assert forall|a: int, b: int| 0 <= a < b < rest.len() implies crate::text::before(
            #[trigger] names(rest)[a],
            #[trigger] names(rest)[b],
        ) by {
            assert(names(rest)[a] == names(members)[a + 1]);
            assert(names(rest)[b] == names(members)[b + 1]);
        }
        every_member_is_found(rest, key, i - 1);
        if 0 < i < members.len() {
            assert(crate::text::before(names(members)[0], names(members)[i]));
            crate::text::one_stands_before(members[0].0, members[0].0);
            assert(rest[i - 1] == members[i]);
        }
        if forall|k: int| 0 <= k < members.len() ==> (#[trigger] members[k]).0 != key {
            assert(members[0].0 != key);
            assert forall|k: int| 0 <= k < rest.len() implies (#[trigger] rest[k]).0 != key by {
                assert(rest[k] == members[k + 1]);
            }
        }
    }
}

/// What is looked up in a document by name is the member of that name, as it is, where the
/// document is an object that has one; and it is a text only where the member is one.
pub proof fn document_is_looked_up_by_name(
    document: &Json,
    key: &str,
    found: Option<&Json>,
    text: Option<&str>,
    own: Option<&str>,
    list: Seq<(Seq<char>, JsonView)>,
    i: int,
)
    requires
        call_ensures(Json::get, (document, key), found),
        call_ensures(Json::get_str, (document, key), text),
        call_ensures(Json::as_str, (document,), own),
    ensures
        !(document@ is Object) ==> found is None && text is None,
        document@ == JsonView::Object(list) && ascending(names(list)) && 0 <= i < list.len()
            && list[i].0 == key@ ==> found is Some && found->0@ == list[i].1,
        document@ == JsonView::Object(list) && ascending(names(list)) && (forall|k: int|
            0 <= k < list.len() ==> (#[trigger] list[k]).0 != key@) ==> found is None,
        text is Some <==> found is Some && found->0@ is Text,
        text is Some ==> found->0@ == JsonView::Text(text->0@),
        own is Some <==> document@ is Text,
        own is Some ==> document@ == JsonView::Text(own->0@),
{
    if document@ == JsonView::Object(list) && ascending(names(list)) {
        every_member_is_found(list, key@, i);
    }
}

/// A text is written as a document that is that text, and an array as one that holds its
/// items in their order.
pub proof fn document_is_made_of_its_parts(
    s: &str,
    from_slice: Json,
    owned: String,
    from_owned: Json,
    items: Vec<Json>,
    array: Json,
    i: int,
)
    requires
        call_ensures(Json::from_str_slice, (s,), from_slice),
        call_ensures(Json::from_string, (owned,), from_owned),
        call_ensures(Json::array, (items,), array),
    ensures
        from_slice@ == JsonView::Text(s@),
        from_owned@ == JsonView::Text(owned@),
        array@ is Array,
        array@->Array_0.len() == items@.len(),
        0 <= i < items@.len() ==> array@->Array_0[i] == items@[i]@,
{
}

/// Members that are put in one after the other stand in the order of their names.
proof fn arranged_members_ascend(members: Seq<(Seq<char>, JsonView)>)
    ensures
        ascending(names(arranged(members))),
    decreases members.len(),
{
    if members.len() > 0 {
        arranged_members_ascend(members.drop_last());
        with_member_ascends(
            arranged(members.drop_last()),
            members.last().0,
            members.last().1,
        );
    }
}

/// The last member that was put in under a name is what is found there.
proof fn last_member_put_in_is_found(members: Seq<(Seq<char>, JsonView)>, i: int)
    requires
        0 <= i < members.len(),
        forall|k: int| i < k < members.len() ==> (#[trigger] members[k]).0 != members[i].0,
    ensures
        first_member(arranged(members), members[i].0) == Some(members[i].1),
    decreases members.len(),
{
    let fewer = members.drop_last();
    let last = members.last();
    arranged_members_ascend(fewer);
    put_member_is_found(arranged(fewer), last.0, last.1, members[i].0);
    if i < fewer.len() {
        assert(members[members.len() - 1].0 != members[i].0);
        assert(fewer[i] == members[i]);
        assert forall|k: int| i < k < fewer.len() implies (#[trigger] fewer[k]).0
            != fewer[i].0 by {
            assert(fewer[k] == members[k]);
        }
        last_member_put_in_is_found(fewer, i);
    }
}

/// An object that is made of members has each of them under its name; of several with
/// one name, the last.
pub proof fn object_has_the_members_it_is_made_of(
    members: Vec<(String, Json)>,
    r: Json,
    i: int,
)
    requires
        call_ensures(Json::object, (members,), r),
        0 <= i < members@.len(),
        forall|k: int| i < k < members@.len() ==> (#[trigger] members@[k]).0@ != members@[i].0@,
    ensures
        r@ is Object,
        r@.member(members@[i].0@) == Some(members@[i].1@),
        ascending(names(r@->Object_0)),
{
    let all = members@.map_values(|member: (String, Json)| (member.0@, member.1@));
    arranged_members_ascend(all);
    assert(all[i] == (members@[i].0@, members@[i].1@));
    assert forall|k: int| i < k < all.len() implies (#[trigger] all[k]).0 != all[i].0 by {
        assert(all[k] == (members@[k].0@, members@[k].1@));
    }
    last_member_put_in_is_found(all, i);
}

} // verus!
