//! JSON values, as requests and replies carry them.
use crate::digest::{hex_digit, lemma_hex_digit};
use crate::float64::{from_i64, from_u64, is_finite, F64};
use crate::text::str_eq;
use vstd::prelude::*;

verus! {

/// A JSON value. A number is a natural number, a negative integer or a double.
#[derive(Debug)]
pub enum Json {
    Null,
    Bool(bool),
    UInt(u64),
    NegInt(i64),
    Float(F64),
    Str(String),
    Array(Vec<Json>),
    Object(Vec<Member>),
}

/// A member of a JSON object.
#[derive(Debug)]
pub struct Member {
    pub key: String,
    pub value: Json,
}

/// What a JSON value is, with texts as sequences of characters.
#[verifier::ext_equal]
pub enum JsonView {
    Null,
    Bool(bool),
    UInt(u64),
    NegInt(i64),
    Float(F64),
    Str(Seq<char>),
    Array(Seq<JsonView>),
    Object(Seq<(Seq<char>, JsonView)>),
}

impl View for Json {
    type V = JsonView;

    open spec fn view(&self) -> JsonView {
        json_view(*self)
    }
}

/// The view of a JSON value.
pub open spec fn json_view(j: Json) -> JsonView
    decreases j,
{
    match j {
        Json::Null => JsonView::Null,
        Json::Bool(b) => JsonView::Bool(b),
        Json::UInt(n) => JsonView::UInt(n),
        Json::NegInt(n) => JsonView::NegInt(n),
        Json::Float(x) => JsonView::Float(x),
        Json::Str(s) => JsonView::Str(s@),
        Json::Array(items) => JsonView::Array(
            Seq::new(
                items@.len(),
                |i: int|
                    if 0 <= i < items@.len() {
                        json_view(items@[i])
                    } else {
                        JsonView::Null
                    },
            ),
        ),
        Json::Object(members) => JsonView::Object(
            Seq::new(
                members@.len(),
                |i: int|
                    if 0 <= i < members@.len() {
                        (members@[i].key@, json_view(members@[i].value))
                    } else {
                        (Seq::<char>::empty(), JsonView::Null)
                    },
            ),
        ),
    }
}

/// The value of the first member with this key.
pub open spec fn member_value(members: Seq<(Seq<char>, JsonView)>, key: Seq<char>) -> Option<
    JsonView,
>
    decreases members.len(),
{
    if members.len() == 0 {
        None
    } else if members[0].0 == key {
        Some(members[0].1)
    } else {
        member_value(members.drop_first(), key)
    }
}

impl JsonView {
    /// The member with this key, where the value is an object that has one.
    pub open spec fn get(self, key: Seq<char>) -> Option<JsonView> {
        match self {
            JsonView::Object(members) => member_value(members, key),
            _ => None,
        }
    }

    /// The member with this key, or null.
    pub open spec fn at(self, key: Seq<char>) -> JsonView {
        match self.get(key) {
            Some(v) => v,
            None => JsonView::Null,
        }
    }

    pub open spec fn as_str(self) -> Option<Seq<char>> {
        match self {
            JsonView::Str(s) => Some(s),
            _ => None,
        }
    }

    pub open spec fn as_u64(self) -> Option<u64> {
        match self {
            JsonView::UInt(n) => Some(n),
            _ => None,
        }
    }

    pub open spec fn as_bool(self) -> Option<bool> {
        match self {
            JsonView::Bool(b) => Some(b),
            _ => None,
        }
    }

    /// Any number, as the nearest double.
    pub open spec fn as_f64(self) -> Option<F64> {
        match self {
            JsonView::UInt(n) => Some(crate::float64::double_of_int(n as int)),
            JsonView::NegInt(n) => Some(crate::float64::double_of_int(n as int)),
            JsonView::Float(x) => Some(x),
            _ => None,
        }
    }
}

/// A text as a JSON string, or null.
pub open spec fn string_or_null(s: Option<Seq<char>>) -> JsonView {
    match s {
        Some(s) => JsonView::Str(s),
        None => JsonView::Null,
    }
}

/// A double as a JSON number. One that is infinite or not a number has no JSON
/// form and becomes null.
pub open spec fn real_json(x: F64) -> JsonView {
    if x.is_finite() {
        JsonView::Float(x)
    } else {
        JsonView::Null
    }
}

/// The view of an optional text.
pub open spec fn opt_text(s: Option<String>) -> Option<Seq<char>> {
    match s {
        Some(s) => Some(s@),
        None => None,
    }
}

/// The view of an optional borrowed text.
pub open spec fn opt_str(s: Option<&str>) -> Option<Seq<char>> {
    match s {
        Some(s) => Some(s@),
        None => None,
    }
}

/// The view of an optional JSON value.
pub open spec fn opt_json(j: Option<Json>) -> Option<JsonView> {
    match j {
        Some(j) => Some(j@),
        None => None,
    }
}

// ---- JSON strings as text ---------------------------------------------------

/// A character as it stands inside a JSON string: quotation mark, backslash and the
/// control characters are escaped.
pub open spec fn escaped(c: char) -> Seq<char> {
    let n = c as u32;
    if c == '"' || c == '\\' {
        seq!['\\', c]
    } else if n == 8 {
        seq!['\\', 'b']
    } else if n == 9 {
        seq!['\\', 't']
    } else if n == 10 {
        seq!['\\', 'n']
    } else if n == 12 {
        seq!['\\', 'f']
    } else if n == 13 {
        seq!['\\', 'r']
    } else if n < 32 {
        seq!['\\', 'u', '0', '0', hex_digit((n / 16) as nat), hex_digit((n % 16) as nat)]
    } else {
        seq![c]
    }
}

/// A text as it stands inside a JSON string.
pub open spec fn escaped_text(s: Seq<char>) -> Seq<char>
    decreases s.len(),
{
    if s.len() == 0 {
        Seq::empty()
    } else {
        escaped(s[0]) + escaped_text(s.drop_first())
    }
}

/// A text as a JSON string, between quotation marks.
pub open spec fn quoted(s: Seq<char>) -> Seq<char> {
    seq!['"'] + escaped_text(s) + seq!['"']
}

/// Calls `serde_json::to_string` on a text: the text between quotation marks, with a
/// backslash in front of quotation marks and backslashes and with the control
/// characters below thirty-two escaped, by a letter or by four hexadecimal digits.
#[verifier::external_body]
pub(crate) fn quote(s: &str) -> (r: String)
    ensures
        r@ == quoted(s@),
{
    serde_json::to_string(s).unwrap()
}

/// The text inside a JSON string can be read back, and where it ends can be told.
pub proof fn lemma_escaped_text_readable(a: Seq<char>, b: Seq<char>, x: Seq<char>, y: Seq<char>)
    requires
        escaped_text(a) + seq!['"'] + x == escaped_text(b) + seq!['"'] + y,
    ensures
        a == b,
        x == y,
    decreases a.len(),
{
    let left = escaped_text(a) + seq!['"'] + x;
    let right = escaped_text(b) + seq!['"'] + y;
    if a.len() > 0 {
        lemma_escaped(a[0]);
        assert(left[0] == escaped(a[0])[0]);
    } else {
        assert(left[0] == '"');
    }
    if b.len() > 0 {
        lemma_escaped(b[0]);
        assert(right[0] == escaped(b[0])[0]);
    } else {
        assert(right[0] == '"');
    }
    if a.len() == 0 {
        assert(b.len() == 0);
        assert(left.skip(1) =~= x);
        assert(right.skip(1) =~= y);
        assert(a =~= b);
    } else {
        assert(b.len() > 0);
        let p = escaped(a[0]);
        let q = escaped(b[0]);
        let a_rest = escaped_text(a.drop_first()) + seq!['"'] + x;
        let b_rest = escaped_text(b.drop_first()) + seq!['"'] + y;
        assert(left =~= p + a_rest);
        assert(right =~= q + b_rest);
        if p[0] == '\\' {
            assert(left[1] == p[1]);
            assert(right[1] == q[1]);
            if p[1] == 'u' {
                assert(left[4] == p[4] && left[5] == p[5]);
                assert(right[4] == q[4] && right[5] == q[5]);
            }
        }
        lemma_escaped_apart(a[0], b[0]);
        assert(a_rest =~= left.skip(p.len() as int));
        assert(b_rest =~= right.skip(p.len() as int));
        lemma_escaped_text_readable(a.drop_first(), b.drop_first(), x, y);
        assert(a =~= seq![a[0]] + a.drop_first());
        assert(b =~= seq![b[0]] + b.drop_first());
    }
}

/// What an escaped character looks like: itself, or a backslash and more.
proof fn lemma_escaped(c: char)
    ensures
        escaped(c).len() >= 1,
        escaped(c)[0] != '"',
        escaped(c)[0] == '\\' <==> escaped(c).len() >= 2,
        escaped(c).len() == 1 ==> escaped(c)[0] == c,
        escaped(c).len() >= 2 && escaped(c)[1] == 'u' <==> escaped(c).len() == 6,
{
}

/// Different characters are escaped differently, as far as the shorter form goes.
proof fn lemma_escaped_apart(c: char, d: char)
    requires
        escaped(c)[0] == escaped(d)[0],
        escaped(c)[0] == '\\' ==> escaped(c)[1] == escaped(d)[1],
        escaped(c)[0] == '\\' && escaped(c)[1] == 'u' ==> escaped(c)[4] == escaped(d)[4]
            && escaped(c)[5] == escaped(d)[5],
    ensures
        c == d,
{
    lemma_escaped(c);
    lemma_escaped(d);
    if escaped(c).len() == 6 {
        let m = c as u32;
        let n = d as u32;
        lemma_hex_digit((m / 16) as nat);
        lemma_hex_digit((m % 16) as nat);
        lemma_hex_digit((n / 16) as nat);
        lemma_hex_digit((n % 16) as nat);
        assert(m / 16 == n / 16 && m % 16 == n % 16);
    }
}

/// A JSON string can be read back, and where it ends can be told.
pub proof fn law_quoted_text_readable(a: Seq<char>, b: Seq<char>, x: Seq<char>, y: Seq<char>)
    requires
        quoted(a) + x == quoted(b) + y,
    ensures
        a == b,
        x == y,
{
    assert((quoted(a) + x).skip(1) =~= escaped_text(a) + seq!['"'] + x);
    assert((quoted(b) + y).skip(1) =~= escaped_text(b) + seq!['"'] + y);
    lemma_escaped_text_readable(a, b, x, y);
}

impl Json {
    /// The member with this key.
    pub fn get(&self, key: &str) -> (r: Option<&Json>)
        ensures
            match r {
                Some(v) => self@.get(key@) == Some(v@),
                None => self@.get(key@) is None,
            },
    {
        match self {
            Json::Object(members) => {
                let ghost all = json_view(*self)->Object_0;
                let mut i: usize = 0;
                assert(all.skip(0) =~= all);
                while i < members.len()
                    invariant
                        i <= members.len(),
                        all.len() == members@.len(),
                        forall|k: int|
                            0 <= k < members@.len() ==> #[trigger] all[k] == (
                                members@[k].key@,
                                json_view(members@[k].value),
                            ),
                        member_value(all, key@) == member_value(all.skip(i as int), key@),
                        self@ == JsonView::Object(all),
                    decreases members.len() - i,
                {
                    assert(all.skip(i as int)[0] == all[i as int]);
                    if str_eq(members[i].key.as_str(), key) {
                        return Some(&members[i].value);
                    }
                    assert(all.skip(i as int).drop_first() =~= all.skip(i + 1));
                    i = i + 1;
                }
                None
            },
            _ => None,
        }
    }

    pub fn as_str(&self) -> (r: Option<&str>)
        ensures
            opt_str(r) == self@.as_str(),
    {
        match self {
            Json::Str(s) => Some(s.as_str()),
            _ => None,
        }
    }

    pub fn as_u64(&self) -> (r: Option<u64>)
        ensures
            r == self@.as_u64(),
    {
        match self {
            Json::UInt(n) => Some(*n),
            _ => None,
        }
    }

    pub fn as_bool(&self) -> (r: Option<bool>)
        ensures
            r == self@.as_bool(),
    {
        match self {
            Json::Bool(b) => Some(*b),
            _ => None,
        }
    }

    pub fn as_f64(&self) -> (r: Option<F64>)
        ensures
            r == self@.as_f64(),
    {
        match self {
            Json::UInt(n) => Some(from_u64(*n)),
            Json::NegInt(n) => Some(from_i64(*n)),
            Json::Float(x) => Some(*x),
            _ => None,
        }
    }

    /// The text under this key.
    pub fn str_at(&self, key: &str) -> (r: Option<&str>)
        ensures
            opt_str(r) == self@.at(key@).as_str(),
    {
        match self.get(key) {
            Some(v) => v.as_str(),
            None => None,
        }
    }

    /// The natural number under this key.
    pub fn u64_at(&self, key: &str) -> (r: Option<u64>)
        ensures
            r == self@.at(key@).as_u64(),
    {
        match self.get(key) {
            Some(v) => v.as_u64(),
            None => None,
        }
    }

    /// The truth value under this key.
    pub fn bool_at(&self, key: &str) -> (r: Option<bool>)
        ensures
            r == self@.at(key@).as_bool(),
    {
        match self.get(key) {
            Some(v) => v.as_bool(),
            None => None,
        }
    }

    /// The number under this key, as a double.
    pub fn f64_at(&self, key: &str) -> (r: Option<F64>)
        ensures
            r == self@.at(key@).as_f64(),
    {
        match self.get(key) {
            Some(v) => v.as_f64(),
            None => None,
        }
    }

    /// A value of its own with the same view.
    pub fn duplicate(&self) -> (r: Json)
        ensures
            r@ == self@,
        decreases self,
    {
        match self {
            Json::Null => Json::Null,
            Json::Bool(b) => Json::Bool(*b),
            Json::UInt(n) => Json::UInt(*n),
            Json::NegInt(n) => Json::NegInt(*n),
            Json::Float(x) => Json::Float(*x),
            Json::Str(s) => Json::Str(s.clone()),
            Json::Array(items) => {
                let mut out: Vec<Json> = Vec::new();
                let mut i: usize = 0;
                while i < items.len()
                    invariant
                        i <= items.len(),
                        out@.len() == i,
                        *self == Json::Array(*items),
                        forall|k: int| 0 <= k < i ==> json_view(#[trigger] out@[k]) == json_view(items@[k]),
                    decreases items.len() - i,
                {
                    assert(decreases_to!(items@ => items@[i as int]));
                    assert(decreases_to!(*items => items@));
                    assert(decreases_to!(*self => self->Array_0));
                    out.push(items[i].duplicate());
                    i = i + 1;
                }
                let r = Json::Array(out);
                assert(r@->Array_0 =~= self@->Array_0);
                r
            },
            Json::Object(members) => {
                let mut out: Vec<Member> = Vec::new();
                let mut i: usize = 0;
                while i < members.len()
                    invariant
                        i <= members.len(),
                        out@.len() == i,
                        *self == Json::Object(*members),
                        forall|k: int|
                            0 <= k < i ==> (#[trigger] out@[k]).key@ == members@[k].key@
                                && json_view(out@[k].value) == json_view(members@[k].value),
                    decreases members.len() - i,
                {
                    assert(decreases_to!(members@[i as int] => members@[i as int].value));
                    assert(decreases_to!(members@ => members@[i as int]));
                    assert(decreases_to!(*members => members@));
                    assert(decreases_to!(*self => self->Object_0));
                    out.push(
                        Member {
                            key: members[i].key.clone(),
                            value: members[i].value.duplicate(),
                        },
                    );
                    i = i + 1;
                }
                let r = Json::Object(out);
                assert(r@->Object_0 =~= self@->Object_0);
                r
            },
        }
    }
}

/// The members of an object under construction.
pub struct Fields {
    members: Vec<Member>,
}

impl View for Fields {
    type V = Seq<(Seq<char>, JsonView)>;

    closed spec fn view(&self) -> Seq<(Seq<char>, JsonView)> {
        Seq::new(
            self.members@.len(),
            |i: int| (self.members@[i].key@, json_view(self.members@[i].value)),
        )
    }
}

impl Fields {
    pub fn new() -> (r: Fields)
        ensures
            r@ == Seq::<(Seq<char>, JsonView)>::empty(),
    {
        let r = Fields { members: Vec::new() };
        assert(r@ =~= Seq::<(Seq<char>, JsonView)>::empty());
        r
    }

    /// One more member.
    pub fn with(self, key: &str, value: Json) -> (r: Fields)
        ensures
            r@ == self@.push((key@, value@)),
    {
        let mut members = self.members;
        members.push(Member { key: key.to_string(), value });
        let r = Fields { members };
        assert(r@ =~= self@.push((key@, value@)));
        r
    }

    /// The object with these members.
    pub fn object(self) -> (r: Json)
        ensures
            r@ == JsonView::Object(self@),
    {
        let ghost fields = self@;
        let r = Json::Object(self.members);
        assert(r@->Object_0 =~= fields);
        r
    }
}

/// A JSON string.
pub fn text(s: &str) -> (r: Json)
    ensures
        r@ == JsonView::Str(s@),
{
    Json::Str(s.to_string())
}

/// An optional text, borrowed.
pub fn borrow_text(s: &Option<String>) -> (r: Option<&str>)
    ensures
        opt_str(r) == opt_text(*s),
{
    match s {
        Some(s) => Some(s.as_str()),
        None => None,
    }
}

/// A JSON string, or null.
pub fn text_or_null(s: Option<&str>) -> (r: Json)
    ensures
        r@ == string_or_null(opt_str(s)),
{
    match s {
        Some(s) => text(s),
        None => Json::Null,
    }
}

/// A JSON number, or null where the double has no JSON form.
pub fn number(x: F64) -> (r: Json)
    ensures
        r@ == real_json(x),
{
    if is_finite(x) {
        Json::Float(x)
    } else {
        Json::Null
    }
}

} // verus!
