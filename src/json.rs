//! An untyped JSON value, as handed over by the caller.
use vstd::prelude::*;

verus! {

/// A JSON value. A number keeps its text; an object keeps its members in order.
pub enum JsonValue {
    Null,
    Bool(bool),
    Number(String),
    Str(String),
    Array(Vec<JsonValue>),
    Object(Vec<(String, JsonValue)>),
}

/// The value of the first member of `ms` named `key`.
pub open spec fn member(ms: Seq<(String, JsonValue)>, key: Seq<char>) -> Option<JsonValue>
    decreases ms.len(),
{
    if ms.len() == 0 {
        None
    } else if ms[0].0@ == key {
        Some(ms[0].1)
    } else {
        member(ms.drop_first(), key)
    }
}

/// The members of an object; none for any other value.
pub open spec fn fields(v: JsonValue) -> Seq<(String, JsonValue)> {
    match v {
        JsonValue::Object(ms) => ms@,
        _ => Seq::empty(),
    }
}

/// The items of a list; none for any other value.
pub open spec fn items(v: JsonValue) -> Seq<JsonValue> {
    match v {
        JsonValue::Array(a) => a@,
        _ => Seq::empty(),
    }
}

/// How a value's kind is named in messages.
pub open spec fn kind_text(v: JsonValue) -> Seq<char> {
    match v {
        JsonValue::Null => "null"@,
        JsonValue::Bool(_) => "boolean"@,
        JsonValue::Number(_) => "number"@,
        JsonValue::Str(_) => "string"@,
        JsonValue::Array(_) => "list"@,
        JsonValue::Object(_) => "object"@,
    }
}

/// The first member of `ms` named `key`.
pub fn find_member<'a>(ms: &'a Vec<(String, JsonValue)>, key: &str) -> (r: Option<&'a JsonValue>)
    ensures
        match r {
            Some(v) => member(ms@, key@) == Some(*v),
            None => member(ms@, key@) is None,
        },
{
    let k = String::from_str(key);
    let mut i: usize = 0;
    assert(ms@.subrange(0, ms@.len() as int) =~= ms@);
    while i < ms.len()
        invariant
            0 <= i <= ms.len(),
            k@ == key@,
            member(ms@, key@) == member(ms@.subrange(i as int, ms@.len() as int), key@),
        decreases ms.len() - i,
    {
        assert(ms@.subrange(i as int, ms@.len() as int).drop_first() =~= ms@.subrange(
            i + 1,
            ms@.len() as int,
        ));
        if ms[i].0 == k {
            return Some(&ms[i].1);
        }
        i = i + 1;
    }
    None
}

/// The name of a value's kind, as `kind_text` gives it.
pub fn kind_name(v: &JsonValue) -> (r: &'static str)
    ensures
        r@ == kind_text(*v),
{
    match v {
        JsonValue::Null => "null",
        JsonValue::Bool(_) => "boolean",
        JsonValue::Number(_) => "number",
        JsonValue::Str(_) => "string",
        JsonValue::Array(_) => "list",
        JsonValue::Object(_) => "object",
    }
}

} // verus!
