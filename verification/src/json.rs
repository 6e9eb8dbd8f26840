//! JSON values as `serde_json` represents them, and what this crate reads
//! from them.
//!
//! A `serde_json::Value` is opaque to the verifier. What the crate reads
//! from one is named here, and each accessor is taken to return what its
//! name says; nothing else is assumed about JSON values.

use serde_json::Value;
use vstd::prelude::*;

verus! {

/// `serde_json::Value`, carried through verified code as an opaque value.
#[verifier::external_type_specification]
#[verifier::external_body]
pub struct ExJsonValue(serde_json::Value);

/// The member `key` of a JSON object; `None` for a value that is no object
/// or has no such member.
pub uninterp spec fn json_member(value: Value, key: Seq<char>) -> Option<Value>;

/// The integer that a JSON number holds, if it is an integer that fits
/// `i64`; `None` for any other value.
pub uninterp spec fn json_i64(value: Value) -> Option<i64>;

/// The text of a JSON string; `None` for any other value.
pub uninterp spec fn json_text(value: Value) -> Option<Seq<char>>;

/// The elements of a JSON array; `None` for any other value.
pub uninterp spec fn json_items(value: Value) -> Option<Seq<Value>>;

/// The truth value of a JSON boolean; `None` for any other value.
pub uninterp spec fn json_bool(value: Value) -> Option<bool>;

/// `Value::get` with a string key: a reference to the member of that name
/// if the value is an object that has one, and `None` otherwise.
#[verifier::external_body]
pub(crate) fn member<'a>(value: &'a Value, key: &str) -> (r: Option<&'a Value>)
    ensures
        match r {
            Some(found) => json_member(*value, key@) == Some(*found),
            None => json_member(*value, key@) is None,
        },
{
    value.get(key)
}

/// `Value::clone`: a copy that is the same JSON value.
pub assume_specification[ <Value as Clone>::clone ](value: &Value) -> (copy: Value)
    ensures
        copy == *value,
;

/// `Value::as_i64`: the number as `i64` if the value is an integer in
/// range, and `None` otherwise.
pub assume_specification[ Value::as_i64 ](value: &Value) -> (r: Option<i64>)
    ensures
        r == json_i64(*value),
;

/// `Value::as_str`: the string slice if the value is a string, and `None`
/// otherwise.
pub assume_specification<'a>[ Value::as_str ](value: &'a Value) -> (r: Option<&'a str>)
    ensures
        match r {
            Some(text) => json_text(*value) == Some(text@),
            None => json_text(*value) is None,
        },
;

/// `Value::as_array`: the vector of elements if the value is an array, and
/// `None` otherwise.
pub assume_specification<'a>[ Value::as_array ](value: &'a Value) -> (r: Option<&'a Vec<Value>>)
    ensures
        match r {
            Some(items) => json_items(*value) == Some(items@),
            None => json_items(*value) is None,
        },
;

/// `Value::as_bool`: the boolean if the value is one, and `None` otherwise.
pub assume_specification[ Value::as_bool ](value: &Value) -> (r: Option<bool>)
    ensures
        r == json_bool(*value),
;

/// Whether a text is JSON, and the value it stands for: what parsing the
/// text gives, or `None` where it is not valid JSON.
pub uninterp spec fn json_parsed(text: Seq<char>) -> Option<Value>;

/// `serde_json::Error`, carried through verified code as an opaque value.
#[verifier::external_type_specification]
#[verifier::external_body]
pub struct ExJsonError(serde_json::Error);

/// What `value` holds under `key`, read as text.
pub open spec fn text_field(value: Value, key: Seq<char>) -> Option<Seq<char>> {
    match json_member(value, key) {
        Some(found) => json_text(found),
        None => None,
    }
}

/// `value` has no member but under one of `keys`.
pub open spec fn members_among(value: Value, keys: Seq<Seq<char>>) -> bool {
    forall|key: Seq<char>| #[trigger] json_member(value, key) is Some ==> keys.contains(key)
}

/// The texts of a list of JSON values.
pub open spec fn texts_of(items: Seq<Value>) -> Seq<Option<Seq<char>>> {
    Seq::new(items.len(), |i: int| json_text(items[i]))
}

/// The value that the entries give to `key`: that of the first entry with
/// this key among the first `upto`.
pub open spec fn entry_for(entries: Seq<(String, Value)>, key: Seq<char>, upto: int) -> Option<
    Value,
>
    decreases upto,
{
    if upto <= 0 {
        None
    } else {
        match entry_for(entries, key, upto - 1) {
            Some(found) => Some(found),
            None => if entries[upto - 1].0@ == key {
                Some(entries[upto - 1].1)
            } else {
                None
            },
        }
    }
}

/// A key that the entries give a value to is the key of one of them.
pub proof fn lemma_entry_has_key(entries: Seq<(String, Value)>, key: Seq<char>, upto: int)
    requires
        0 <= upto <= entries.len(),
        entry_for(entries, key, upto) is Some,
    ensures
        exists|i: int| 0 <= i < upto && (#[trigger] entries[i]).0@ == key,
    decreases upto,
{
    if entry_for(entries, key, upto - 1) is Some {
        lemma_entry_has_key(entries, key, upto - 1);
    } else {
        assert(entries[upto - 1].0@ == key);
    }
}

/// An object whose members are the entries has no member but under their
/// keys.
pub proof fn lemma_members_among_keys(
    value: Value,
    entries: Seq<(String, Value)>,
    keys: Seq<Seq<char>>,
)
    requires
        forall|key: Seq<char>|
            #[trigger] json_member(value, key) == entry_for(entries, key, entries.len() as int),
        keys.len() == entries.len(),
        forall|i: int| 0 <= i < entries.len() ==> #[trigger] keys[i] == entries[i].0@,
    ensures
        members_among(value, keys),
{
    assert forall|key: Seq<char>| #[trigger] json_member(value, key) is Some implies keys.contains(
        key,
    ) by {
        lemma_entry_has_key(entries, key, entries.len() as int);
        let i = choose|i: int| 0 <= i < entries.len() && (#[trigger] entries[i]).0@ == key;
        assert(keys[i] == key);
    }
}

/// No two entries have the same key.
pub open spec fn keys_differ(entries: Seq<(String, Value)>) -> bool {
    forall|i: int, j: int| 0 <= i < j < entries.len() ==> entries[i].0@ != entries[j].0@
}

/// `serde_json::from_str` at type `Value`: the value that the text stands
/// for, or an error where the text is not valid JSON.
#[verifier::external_body]
pub(crate) fn parse_value(text: &str) -> (r: Result<Value, serde_json::Error>)
    ensures
        match r {
            Ok(value) => json_parsed(text@) == Some(value),
            Err(_) => json_parsed(text@) is None,
        },
{
    serde_json::from_str::<Value>(text)
}

/// `Value::String`: the JSON string with this text.
#[verifier::external_body]
pub(crate) fn string_value(text: String) -> (r: Value)
    ensures
        json_text(r) == Some(text@),
{
    Value::String(text)
}

/// `Value::Bool`: the JSON boolean with this truth value.
#[verifier::external_body]
pub(crate) fn bool_value(flag: bool) -> (r: Value)
    ensures
        json_bool(r) == Some(flag),
{
    Value::Bool(flag)
}

/// `Value::Array`: the JSON array of these elements.
#[verifier::external_body]
pub(crate) fn array_value(items: Vec<Value>) -> (r: Value)
    ensures
        json_items(r) == Some(items@),
{
    Value::Array(items)
}

/// `Value::Object` over `Map::from_iter`: the JSON object whose members are
/// these entries, and no others.
#[verifier::external_body]
pub(crate) fn object_value(entries: Vec<(String, Value)>) -> (r: Value)
    requires
        keys_differ(entries@),
    ensures
        forall|key: Seq<char>|
            #[trigger] json_member(r, key) == entry_for(entries@, key, entries@.len() as int),
{
    Value::Object(entries.into_iter().collect())
}

} // verus!
