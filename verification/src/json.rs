//! JSON values of the reports, built and read through `serde_json`.
//!
//! `serde_json::Value` is opaque here: each constructor and accessor below
//! wraps one `serde_json` function, and what it returns is given a name.

use vstd::prelude::*;

use crate::text::opt_view;

verus! {

#[verifier::external_type_specification]
#[verifier::external_body]
pub struct ExJsonValue(serde_json::Value);

/// `Value::from(String)`: a JSON string.
pub uninterp spec fn json_string_value(s: Seq<char>) -> serde_json::Value;

/// `Value::from(u64)`: a JSON number.
pub uninterp spec fn json_number_value(n: u64) -> serde_json::Value;

/// `Value::from(bool)`: a JSON boolean.
pub uninterp spec fn json_bool_value(b: bool) -> serde_json::Value;

/// `Value::from(Option<String>)`: `null`, or a JSON string.
pub uninterp spec fn json_opt_string_value(o: Option<Seq<char>>) -> serde_json::Value;

/// `Value::from(Vec<Value>)`: a JSON array.
pub uninterp spec fn json_array_value(items: Seq<serde_json::Value>) -> serde_json::Value;

/// `Value::from_iter` over key/value pairs: a JSON object.
pub uninterp spec fn json_object_value(entries: Seq<(Seq<char>, serde_json::Value)>) -> serde_json::Value;

/// `Value::get(key)`: the member of an object under `key`.
pub uninterp spec fn json_member_value(v: serde_json::Value, key: Seq<char>) -> Option<serde_json::Value>;

/// `Value::as_str`: the text of a JSON string.
pub uninterp spec fn json_text_value(v: serde_json::Value) -> Option<Seq<char>>;

/// `Value::as_array`: the items of a JSON array.
pub uninterp spec fn json_items_value(v: serde_json::Value) -> Option<Seq<serde_json::Value>>;

/// `Value::as_u64`: a JSON number that is a `u64`.
pub uninterp spec fn json_u64_value(v: serde_json::Value) -> Option<u64>;

/// `serde_json::to_string_pretty`: a value as indented JSON text.
pub uninterp spec fn pretty_json_text(v: serde_json::Value) -> Seq<char>;

/// `serde_json::from_slice::<Value>`: a JSON document read from bytes.
pub uninterp spec fn parsed_json_value(bytes: Seq<u8>) -> Option<serde_json::Value>;

/// `serde_json::from_slice::<Vec<Value>>`: a JSON array document read from bytes.
pub uninterp spec fn parsed_json_list(bytes: Seq<u8>) -> Option<Seq<serde_json::Value>>;

/// The views of the keys of an entry list.
pub open spec fn entry_views(entries: Seq<(String, serde_json::Value)>) -> Seq<(Seq<char>, serde_json::Value)> {
    entries.map_values(|e: (String, serde_json::Value)| (e.0@, e.1))
}

/// No key occurs twice in an entry list.
pub open spec fn keys_distinct(entries: Seq<(Seq<char>, serde_json::Value)>) -> bool {
    forall|i: int, j: int|
        0 <= i < entries.len() && 0 <= j < entries.len() && i != j ==> entries[i].0 != entries[j].0
}

/// The value stored under `key` in an entry list whose keys are distinct.
pub open spec fn entry_lookup(entries: Seq<(Seq<char>, serde_json::Value)>, key: Seq<char>) -> Option<serde_json::Value> {
    if exists|i: int| 0 <= i < entries.len() && entries[i].0 == key {
        Some(entries[choose|i: int| 0 <= i < entries.len() && entries[i].0 == key].1)
    } else {
        None
    }
}

/// In an entry list with distinct keys, looking up the key of an entry finds
/// that entry's value.
pub proof fn lemma_lookup_at(entries: Seq<(Seq<char>, serde_json::Value)>, i: int)
    requires
        keys_distinct(entries),
        0 <= i < entries.len(),
    ensures
        entry_lookup(entries, entries[i].0) == Some(entries[i].1),
{
    let key = entries[i].0;
    assert(0 <= i < entries.len() && entries[i].0 == key);
    let j = choose|j: int| 0 <= j < entries.len() && entries[j].0 == key;
    assert(j == i);
}

/// In an entry list with distinct keys, looking up the key of any entry
/// finds that entry's value.
pub proof fn lemma_lookups(entries: Seq<(Seq<char>, serde_json::Value)>)
    requires
        keys_distinct(entries),
    ensures
        forall|i: int| 0 <= i < entries.len() ==> entry_lookup(entries, #[trigger] entries[i].0) == Some(entries[i].1),
{
    assert forall|i: int| 0 <= i < entries.len() implies entry_lookup(entries, #[trigger] entries[i].0) == Some(entries[i].1) by {
        lemma_lookup_at(entries, i);
    }
}

/// In any entry list, a key that no entry has finds nothing.
pub proof fn lemma_lookup_absent(entries: Seq<(Seq<char>, serde_json::Value)>, key: Seq<char>)
    requires
        forall|i: int| 0 <= i < entries.len() ==> entries[i].0 != key,
    ensures
        entry_lookup(entries, key) is None,
{
}

/// The option of a list of values, by its view.
pub open spec fn opt_items_view(o: Option<Vec<serde_json::Value>>) -> Option<Seq<serde_json::Value>> {
    match o {
        Some(v) => Some(v@),
        None => None,
    }
}

/// Calls `serde_json::Value::from(String)`, which gives `Value::String`.
#[verifier::external_body]
pub(crate) fn json_string(s: String) -> (v: serde_json::Value)
    ensures
        v == json_string_value(s@),
{
    serde_json::Value::from(s)
}

/// Calls `serde_json::Value::from(u64)`, which gives `Value::Number`.
#[verifier::external_body]
pub(crate) fn json_number(n: u64) -> (v: serde_json::Value)
    ensures
        v == json_number_value(n),
{
    serde_json::Value::from(n)
}

/// Calls `serde_json::Value::from(bool)`, which gives `Value::Bool`.
#[verifier::external_body]
pub(crate) fn json_bool(b: bool) -> (v: serde_json::Value)
    ensures
        v == json_bool_value(b),
{
    serde_json::Value::from(b)
}

/// Calls `serde_json::Value::from(Option<String>)`: `Value::Null` for `None`,
/// and for `Some(s)` the value that `Value::from(s)` gives.
#[verifier::external_body]
pub(crate) fn json_opt_string(o: Option<String>) -> (v: serde_json::Value)
    ensures
        v == json_opt_string_value(opt_view(o)),
        o is Some ==> v == json_string_value(o->0@),
{
    serde_json::Value::from(o)
}

/// Calls `serde_json::Value::from(Option<Value>)`: `Value::Null` for `None`
/// (the same value as for an absent string), the value itself for `Some`.
#[verifier::external_body]
pub(crate) fn json_or_null(o: Option<serde_json::Value>) -> (v: serde_json::Value)
    ensures
        o is Some ==> v == o->0,
        o is None ==> v == json_opt_string_value(None),
{
    serde_json::Value::from(o)
}

/// Calls `serde_json::Value::from(Vec<Value>)`, which gives `Value::Array`.
#[verifier::external_body]
pub(crate) fn json_array(items: Vec<serde_json::Value>) -> (v: serde_json::Value)
    ensures
        v == json_array_value(items@),
{
    serde_json::Value::from(items)
}

/// Calls `serde_json::Value::from_iter` on key/value pairs, which gives
/// `Value::Object`.
#[verifier::external_body]
pub(crate) fn json_object(entries: Vec<(String, serde_json::Value)>) -> (v: serde_json::Value)
    ensures
        v == json_object_value(entry_views(entries@)),
{
    <serde_json::Value as std::iter::FromIterator<(String, serde_json::Value)>>::from_iter(entries)
}

/// Calls `<serde_json::Value as Clone>::clone` (derived): an equal value.
#[verifier::external_body]
pub(crate) fn json_clone(v: &serde_json::Value) -> (r: serde_json::Value)
    ensures
        r == *v,
{
    v.clone()
}

/// Calls `serde_json::Value::get` with a key and clones the member. On an
/// object built from pairs with distinct keys it finds the pair's value, and
/// nothing where no pair has the key; on a string, number, boolean, `null`
/// or array it finds nothing.
#[verifier::external_body]
pub(crate) fn json_member(v: &serde_json::Value, key: &str) -> (r: Option<serde_json::Value>)
    ensures
        r == json_member_value(*v, key@),
        forall|entries: Seq<(Seq<char>, serde_json::Value)>|
            *v == json_object_value(entries) && keys_distinct(entries)
                ==> r == entry_lookup(entries, key@),
        forall|s: Seq<char>| *v == json_string_value(s) ==> r is None,
        forall|o: Option<Seq<char>>| *v == json_opt_string_value(o) ==> r is None,
        forall|n: u64| *v == json_number_value(n) ==> r is None,
        forall|b: bool| *v == json_bool_value(b) ==> r is None,
        forall|items: Seq<serde_json::Value>| *v == json_array_value(items) ==> r is None,
{
    v.get(key).cloned()
}

/// Calls `serde_json::Value::as_str`: the text of a JSON string, nothing
/// for any other value.
#[verifier::external_body]
pub(crate) fn json_text(v: &serde_json::Value) -> (r: Option<String>)
    ensures
        opt_view(r) == json_text_value(*v),
        forall|s: Seq<char>| *v == json_string_value(s) ==> opt_view(r) == Some(s),
        *v == json_opt_string_value(None) ==> r is None,
        forall|n: u64| *v == json_number_value(n) ==> r is None,
        forall|b: bool| *v == json_bool_value(b) ==> r is None,
        forall|items: Seq<serde_json::Value>| *v == json_array_value(items) ==> r is None,
        forall|entries: Seq<(Seq<char>, serde_json::Value)>| *v == json_object_value(entries) ==> r is None,
{
    v.as_str().map(|s| s.to_string())
}

/// Calls `serde_json::Value::as_array` and clones the items.
#[verifier::external_body]
pub(crate) fn json_items(v: &serde_json::Value) -> (r: Option<Vec<serde_json::Value>>)
    ensures
        opt_items_view(r) == json_items_value(*v),
        forall|items: Seq<serde_json::Value>|
            *v == json_array_value(items) ==> opt_items_view(r) == Some(items),
{
    v.as_array().cloned()
}

/// Calls `serde_json::Value::as_u64`.
#[verifier::external_body]
pub(crate) fn json_u64(v: &serde_json::Value) -> (r: Option<u64>)
    ensures
        r == json_u64_value(*v),
        forall|n: u64| *v == json_number_value(n) ==> r == Some(n),
{
    v.as_u64()
}

/// Calls `serde_json::from_slice::<Value>`; an error becomes nothing.
#[verifier::external_body]
pub(crate) fn parse_json(bytes: &[u8]) -> (r: Option<serde_json::Value>)
    ensures
        r == parsed_json_value(bytes@),
{
    serde_json::from_slice::<serde_json::Value>(bytes).ok()
}

/// Calls `serde_json::from_slice::<Vec<Value>>`; an error becomes nothing.
#[verifier::external_body]
pub(crate) fn parse_json_list(bytes: &[u8]) -> (r: Option<Vec<serde_json::Value>>)
    ensures
        opt_items_view(r) == parsed_json_list(bytes@),
{
    serde_json::from_slice::<Vec<serde_json::Value>>(bytes).ok()
}

/// Calls `serde_json::to_string_pretty`. It fails only where a value's
/// `Serialize` fails or a map has keys that are not strings; a `Value` has
/// neither (its objects are keyed by `String`, and its `Serialize` passes on
/// only the writer's errors, which a `Vec` never gives), so the text is always
/// there.
#[verifier::external_body]
pub(crate) fn pretty_json(v: &serde_json::Value) -> (r: Option<String>)
    ensures
        opt_view(r) == Some(pretty_json_text(*v)),
{
    serde_json::to_string_pretty(v).ok()
}

} // verus!
