//! The library's model of a decoded JSON document, and the field readers that
//! the wire schemas are built from.

use vstd::prelude::*;
use vstd::string::StringExecFns;

verus! {

/// A decoded JSON document.
pub enum JsonValue {
    Null,
    Bool(bool),
    /// A number that fits in an `i64`.
    Int(i64),
    /// Any other number, by its decimal text.
    Number(String),
    Str(String),
    Array(Vec<JsonValue>),
    /// The members of an object, in document order.
    Object(Vec<(String, JsonValue)>),
}

/// The first member named `key` among `fields`.
pub open spec fn lookup(fields: Seq<(String, JsonValue)>, key: Seq<char>) -> Option<JsonValue>
    decreases fields.len(),
{
    if fields.len() == 0 {
        None
    } else if fields[0].0@ == key {
        Some(fields[0].1)
    } else {
        lookup(fields.drop_first(), key)
    }
}

/// The member `key` of `v`, when `v` is an object that has one.
pub open spec fn member(v: JsonValue, key: Seq<char>) -> Option<JsonValue> {
    match v {
        JsonValue::Object(fields) => lookup(fields@, key),
        _ => None,
    }
}

/// The text of member `key`, when it is a string.
pub open spec fn text_member(v: JsonValue, key: Seq<char>) -> Option<Seq<char>> {
    match member(v, key) {
        Some(JsonValue::Str(s)) => Some(s@),
        _ => None,
    }
}

/// Member `key` may be left out or be `null`; otherwise it is a string.
pub open spec fn optional_text_ok(v: JsonValue, key: Seq<char>) -> bool {
    match member(v, key) {
        None => true,
        Some(JsonValue::Null) => true,
        Some(JsonValue::Str(_)) => true,
        _ => false,
    }
}

/// The integer value of member `key`, when it is a number that fits in an `i64`.
pub open spec fn int_member(v: JsonValue, key: Seq<char>) -> Option<i64> {
    match member(v, key) {
        Some(JsonValue::Int(n)) => Some(n),
        _ => None,
    }
}

pub open spec fn is_text(v: JsonValue) -> bool {
    v is Str
}

pub open spec fn text_of(v: JsonValue) -> Seq<char> {
    match v {
        JsonValue::Str(s) => s@,
        _ => Seq::empty(),
    }
}

/// The texts of member `key`, when it is an array of strings.
pub open spec fn text_list_member(v: JsonValue, key: Seq<char>) -> Option<Seq<Seq<char>>> {
    match member(v, key) {
        Some(JsonValue::Array(items)) => if forall|i: int| 0 <= i < items@.len() ==> is_text(#[trigger] items@[i]) {
            Some(items@.map_values(|x: JsonValue| text_of(x)))
        } else {
            None
        },
        _ => None,
    }
}

pub open spec fn opt_view(o: Option<String>) -> Option<Seq<char>> {
    match o {
        Some(s) => Some(s@),
        None => None,
    }
}

proof fn lemma_lookup_skip(fields: Seq<(String, JsonValue)>, i: int, key: Seq<char>)
    requires
        0 <= i < fields.len(),
        fields[i].0@ != key,
    ensures
        lookup(fields.subrange(i, fields.len() as int), key) == lookup(
            fields.subrange(i + 1, fields.len() as int),
            key,
        ),
{
    let s = fields.subrange(i, fields.len() as int);
    assert(s.drop_first() =~= fields.subrange(i + 1, fields.len() as int));
}

/// Finds member `key` of `v`.
pub fn get_member<'a>(v: &'a JsonValue, key: &str) -> (r: Option<&'a JsonValue>)
    ensures
        match r {
            Some(x) => member(*v, key@) == Some(*x),
            None => member(*v, key@) is None,
        },
{
    match v {
        JsonValue::Object(fields) => {
            let k = String::from_str(key);
            let mut i: usize = 0;
            assert(fields@.subrange(0, fields@.len() as int) =~= fields@);
            while i < fields.len()
                invariant
                    i <= fields@.len(),
                    k@ == key@,
                    member(*v, key@) == lookup(fields@, key@),
                    lookup(fields@, key@) == lookup(fields@.subrange(i as int, fields@.len() as int), key@),
                decreases fields@.len() - i,
            {
                if fields[i].0 == k {
                    let ghost s = fields@.subrange(i as int, fields@.len() as int);
                    assert(s.len() > 0 && s[0] == fields@[i as int]);
                    assert(fields@[i as int].0@ == k@);
                    assert(s[0].0@ == key@);
                    assert(lookup(s, key@) == Some(s[0].1));
                    return Some(&fields[i].1);
                }
                proof {
                    lemma_lookup_skip(fields@, i as int, key@);
                }
                i = i + 1;
            }
            assert(fields@.subrange(i as int, fields@.len() as int).len() == 0);
            None
        },
        _ => None,
    }
}

/// Reads member `key` of `v` as a required string.
pub fn text_field(v: &JsonValue, key: &str) -> (r: Option<String>)
    ensures
        opt_view(r) == text_member(*v, key@),
{
    match get_member(v, key) {
        Some(JsonValue::Str(s)) => Some(s.clone()),
        _ => None,
    }
}

/// Reads member `key` of `v` as an optional string: `Err` when it is present
/// and neither `null` nor a string.
pub fn optional_text_field(v: &JsonValue, key: &str) -> (r: Result<Option<String>, ()>)
    ensures
        r is Ok <==> optional_text_ok(*v, key@),
        r matches Ok(o) ==> opt_view(o) == text_member(*v, key@),
{
    match get_member(v, key) {
        None => Ok(None),
        Some(JsonValue::Null) => Ok(None),
        Some(JsonValue::Str(s)) => Ok(Some(s.clone())),
        _ => Err(()),
    }
}

/// Reads member `key` of `v` as a required integer.
pub fn int_field(v: &JsonValue, key: &str) -> (r: Option<i64>)
    ensures
        r == int_member(*v, key@),
{
    match get_member(v, key) {
        Some(JsonValue::Int(n)) => Some(*n),
        _ => None,
    }
}

/// Reads member `key` of `v` as a required array of strings.
pub fn text_list_field(v: &JsonValue, key: &str) -> (r: Option<Vec<String>>)
    ensures
        match r {
            Some(l) => text_list_member(*v, key@) == Some(l@.map_values(|s: String| s@)),
            None => text_list_member(*v, key@) is None,
        },
{
    match get_member(v, key) {
        Some(JsonValue::Array(items)) => {
            let mut out: Vec<String> = Vec::new();
            let mut i: usize = 0;
            while i < items.len()
                invariant
                    i <= items@.len(),
                    out@.len() == i,
                    member(*v, key@) == Some(JsonValue::Array(*items)),
                    forall|j: int| 0 <= j < i ==> is_text(#[trigger] items@[j]),
                    forall|j: int| 0 <= j < i ==> #[trigger] out@[j]@ == text_of(items@[j]),
                decreases items@.len() - i,
            {
                match &items[i] {
                    JsonValue::Str(s) => {
                        out.push(s.clone());
                    },
                    _ => {
                        assert(!is_text(items@[i as int]));
                        return None;
                    },
                }
                i = i + 1;
            }
            assert(out@.map_values(|s: String| s@) =~= items@.map_values(|x: JsonValue| text_of(x)));
            Some(out)
        },
        _ => None,
    }
}

} // verus!
