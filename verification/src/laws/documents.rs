//! Reading and making JSON values.
use crate::float64::{double_of_int, F64};
use crate::json::{borrow_text, member_value, number, text, text_or_null};
use crate::json::{Fields, Json, JsonView, Member};
use vstd::prelude::*;

verus! {

proof fn lemma_first_member(members: Seq<(Seq<char>, JsonView)>, key: Seq<char>)
    ensures
        match member_value(members, key) {
            Some(v) => exists|i: int|
                {
                    &&& 0 <= i < members.len()
                    &&& (#[trigger] members[i]).0 == key && members[i].1 == v
                    &&& forall|j: int| 0 <= j < i ==> (#[trigger] members[j]).0 != key
                },
            None => forall|i: int| 0 <= i < members.len() ==> (#[trigger] members[i]).0 != key,
        },
    decreases members.len(),
{
    if members.len() > 0 && members[0].0 != key {
        let rest = members.drop_first();
        lemma_first_member(rest, key);
        match member_value(rest, key) {
            Some(v) => {
                let i = choose|i: int|
                    {
                        &&& 0 <= i < rest.len()
                        &&& (#[trigger] rest[i]).0 == key && rest[i].1 == v
                        &&& forall|j: int| 0 <= j < i ==> (#[trigger] rest[j]).0 != key
                    };
                assert(members[i + 1] == rest[i]);
                assert forall|j: int| 0 <= j < i + 1 implies (#[trigger] members[j]).0 != key by {
                    if j > 0 {
                        assert(members[j] == rest[j - 1]);
                    }
                }
            },
            None => {
                assert forall|i: int| 0 <= i < members.len() implies (#[trigger] members[i]).0
                    != key by {
                    if i > 0 {
                        assert(members[i] == rest[i - 1]);
                    }
                }
            },
        }
    } else if members.len() > 0 {
        assert(members[0].0 == key);
    }
}

/// The member of an object under a key is the first that has the key; there is none
/// only where no member has it. A value of another kind has no members.
pub proof fn law_first_member_counts(members: Vec<Member>, key: &str, r: Option<&Json>)
    requires
        call_ensures(Json::get, (&Json::Object(members), key), r),
    ensures
        match r {
            Some(v) => exists|i: int|
                {
                    &&& 0 <= i < members@.len()
                    &&& (#[trigger] members@[i]).key@ == key@ && members@[i].value@ == v@
                    &&& forall|j: int| 0 <= j < i ==> (#[trigger] members@[j]).key@ != key@
                },
            None => forall|i: int| 0 <= i < members@.len() ==> (#[trigger] members@[i]).key@ != key@,
        },
{
    let j = Json::Object(members);
    let views = j@->Object_0;
    assert(views.len() == members@.len());
    assert forall|i: int| 0 <= i < members@.len() implies #[trigger] views[i] == (
        members@[i].key@,
        members@[i].value@,
    ) by {}
    lemma_first_member(views, key@);
    match r {
        Some(v) => {
            let i = choose|i: int|
                {
                    &&& 0 <= i < views.len()
                    &&& (#[trigger] views[i]).0 == key@ && views[i].1 == v@
                    &&& forall|k: int| 0 <= k < i ==> (#[trigger] views[k]).0 != key@
                };
            assert(members@[i].key@ == key@ && members@[i].value@ == v@);
            assert forall|k: int| 0 <= k < i implies (#[trigger] members@[k]).key@ != key@ by {
                assert(views[k].0 != key@);
            }
        },
        None => {
            assert forall|i: int| 0 <= i < members@.len() implies (#[trigger] members@[i]).key@
                != key@ by {
                assert(views[i].0 != key@);
            }
        },
    }
}

/// Only an object has members.
pub proof fn law_only_objects_have_members(j: &Json, key: &str, r: Option<&Json>)
    requires
        call_ensures(Json::get, (j, key), r),
    ensures
        r is Some ==> *j is Object,
{
}

/// A value is read as what it is, and as nothing else; any number can be read as a
/// double.
pub proof fn law_values_read(
    j: &Json,
    s: Option<&str>,
    n: Option<u64>,
    b: Option<bool>,
    x: Option<F64>,
)
    requires
        call_ensures(Json::as_str, (j,), s),
        call_ensures(Json::as_u64, (j,), n),
        call_ensures(Json::as_bool, (j,), b),
        call_ensures(Json::as_f64, (j,), x),
    ensures
        match *j {
            Json::Str(t) => s matches Some(u) && u@ == t@,
            _ => s is None,
        },
        match *j {
            Json::UInt(m) => n == Some(m) && x == Some(double_of_int(m as int)),
            Json::NegInt(m) => n is None && x == Some(double_of_int(m as int)),
            Json::Float(y) => n is None && x == Some(y),
            _ => n is None && x is None,
        },
        match *j {
            Json::Bool(c) => b == Some(c),
            _ => b is None,
        },
{
}

/// Reading a member is looking it up and reading what is there; nothing where there is
/// none.
pub proof fn law_members_read(
    j: &Json,
    key: &str,
    found: Option<&Json>,
    s: Option<&str>,
    n: Option<u64>,
    b: Option<bool>,
    x: Option<F64>,
)
    requires
        call_ensures(Json::get, (j, key), found),
        call_ensures(Json::str_at, (j, key), s),
        call_ensures(Json::u64_at, (j, key), n),
        call_ensures(Json::bool_at, (j, key), b),
        call_ensures(Json::f64_at, (j, key), x),
    ensures
        match found {
            Some(Json::Str(t)) => s matches Some(u) && u@ == t@,
            _ => s is None,
        },
        match found {
            Some(Json::UInt(m)) => n == Some(*m) && x == Some(double_of_int(*m as int)),
            Some(Json::NegInt(m)) => n is None && x == Some(double_of_int(*m as int)),
            Some(Json::Float(y)) => n is None && x == Some(*y),
            _ => n is None && x is None,
        },
        match found {
            Some(Json::Bool(c)) => b == Some(*c),
            _ => b is None,
        },
{
}

/// A copy of a value is of the same kind and holds the same.
pub proof fn law_copies_alike(j: &Json, r: Json)
    requires
        call_ensures(Json::duplicate, (j,), r),
    ensures
        match *j {
            Json::Null => r is Null,
            Json::Bool(b) => r == Json::Bool(b),
            Json::UInt(n) => r == Json::UInt(n),
            Json::NegInt(n) => r == Json::NegInt(n),
            Json::Float(x) => r == Json::Float(x),
            Json::Str(s) => r matches Json::Str(t) && t@ == s@,
            Json::Array(items) => r matches Json::Array(copies) && copies@.len() == items@.len()
                && forall|i: int| 0 <= i < items@.len() ==> (#[trigger] copies@[i])@ == items@[i]@,
            Json::Object(members) => r matches Json::Object(copies) && copies@.len()
                == members@.len() && forall|i: int|
                0 <= i < members@.len() ==> (#[trigger] copies@[i]).key@ == members@[i].key@
                    && copies@[i].value@ == members@[i].value@,
        },
{
    assert(r@ == j@);
    match (*j, r) {
        (Json::Array(items), Json::Array(copies)) => {
            assert(r@->Array_0.len() == copies@.len());
            assert(j@->Array_0.len() == items@.len());
            assert forall|i: int| 0 <= i < items@.len() implies (#[trigger] copies@[i])@
                == items@[i]@ by {
                assert(r@->Array_0[i] == copies@[i]@);
                assert(j@->Array_0[i] == items@[i]@);
            }
        },
        (Json::Object(members), Json::Object(copies)) => {
            assert(r@->Object_0.len() == copies@.len());
            assert(j@->Object_0.len() == members@.len());
            assert forall|i: int| 0 <= i < members@.len() implies (#[trigger] copies@[i]).key@
                == members@[i].key@ && copies@[i].value@ == members@[i].value@ by {
                assert(r@->Object_0[i] == (copies@[i].key@, copies@[i].value@));
                assert(j@->Object_0[i] == (members@[i].key@, members@[i].value@));
            }
        },
        _ => {},
    }
}

/// An object is made member by member: it starts without any, and each goes behind the
/// others.
pub proof fn law_members_in_order(
    none: Fields,
    some: Fields,
    key: &str,
    value: Json,
    more: Fields,
    r: Json,
)
    requires
        call_ensures(Fields::new, (), none),
        call_ensures(Fields::with, (some, key, value), more),
        call_ensures(Fields::object, (more,), r),
    ensures
        none@.len() == 0,
        r@ matches JsonView::Object(members) && {
            let last = members.len() - 1;
            &&& members.len() == some@.len() + 1
            &&& members[last].0 == key@ && members[last].1 == value@
            &&& forall|i: int| 0 <= i < some@.len() ==> #[trigger] members[i] == some@[i]
        },
{
}

/// Texts and numbers as JSON: a text that is missing is null, and so is a number that
/// JSON has no form for.
pub proof fn law_plain_values(
    s: &str,
    maybe: Option<&str>,
    x: F64,
    j: Json,
    k: Json,
    n: Json,
    owned: &Option<String>,
    lent: Option<&str>,
)
    requires
        call_ensures(text, (s,), j),
        call_ensures(text_or_null, (maybe,), k),
        call_ensures(number, (x,), n),
        call_ensures(borrow_text, (owned,), lent),
    ensures
        j@ == JsonView::Str(s@),
        match maybe {
            Some(t) => k@ == JsonView::Str(t@),
            None => k@ == JsonView::Null,
        },
        x.bits % 0x8000_0000_0000_0000 < 0x7ff0_0000_0000_0000 ==> n@ == JsonView::Float(x),
        x.bits % 0x8000_0000_0000_0000 >= 0x7ff0_0000_0000_0000 ==> n@ == JsonView::Null,
        match *owned {
            Some(t) => lent matches Some(u) && u@ == t@,
            None => lent is None,
        },
{
}

} // verus!
