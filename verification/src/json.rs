//! JSON values are `serde_json`'s own.  The library mostly carries them
//! through requests, responses and errors without looking inside; where it
//! reads or builds a JSON object (the parameters of `initialize`) it does so
//! through the wrappers below, whose contracts speak of the names
//! `json_member`, `json_object_entries`, `json_string` and `json_is_null`.
use vstd::prelude::*;

verus! {

/// `serde_json::Value`, held opaquely.
#[verifier::external_type_specification]
#[verifier::external_body]
pub struct ExJsonValue(serde_json::Value);

/// `serde_json::Map`, held opaquely.
#[verifier::external_type_specification]
#[verifier::external_body]
#[verifier::reject_recursive_types(K)]
#[verifier::reject_recursive_types(V)]
pub struct ExJsonMap<K, V>(serde_json::Map<K, V>);

/// The map of a JSON object's members.
pub type JsonObject = serde_json::Map<String, serde_json::Value>;

/// The entries of a JSON object map, by key.
pub uninterp spec fn json_object_entries(m: JsonObject) -> Map<
    Seq<char>,
    serde_json::Value,
>;

/// What `serde_json::Value::get` with a string key returns: the member of an
/// object under that key, if the value is an object that has one.
pub uninterp spec fn json_member(v: serde_json::Value, key: Seq<char>) -> Option<serde_json::Value>;

/// The JSON string value `serde_json::Value::String` made of these characters.
pub uninterp spec fn json_string(s: Seq<char>) -> serde_json::Value;

/// What `serde_json::Value::is_null` says of a value: whether it is JSON null.
pub uninterp spec fn json_is_null(v: serde_json::Value) -> bool;

/// The entry of `entries` under `key`, if there is one.
pub open spec fn entry(entries: Map<Seq<char>, serde_json::Value>, key: Seq<char>) -> Option<
    serde_json::Value,
> {
    if entries.contains_key(key) {
        Some(entries[key])
    } else {
        None
    }
}

/// Whether `v` has no member under any key, as JSON null (and any
/// non-object) has none.
pub open spec fn has_no_members(v: serde_json::Value) -> bool {
    forall|k: Seq<char>| #[trigger] json_member(v, k) is None
}

/// `serde_json::Map::new`: an empty object map.
#[verifier::external_body]
pub(crate) fn new_object_map() -> (r: JsonObject)
    ensures
        json_object_entries(r) =~= Map::empty(),
{
    serde_json::Map::new()
}

/// `serde_json::Map::insert`: sets the entry under `key` to `value`,
/// replacing any entry that was there.
#[verifier::external_body]
pub(crate) fn insert_member(
    m: &mut JsonObject,
    key: String,
    value: serde_json::Value,
)
    ensures
        json_object_entries(*final(m)) == json_object_entries(*old(m)).insert(key@, value),
{
    m.insert(key, value);
}

/// `serde_json::Value::Object`: the object value of a map; its members are
/// the map's entries.
#[verifier::external_body]
pub(crate) fn object_value(m: JsonObject) -> (r: serde_json::Value)
    ensures
        forall|k: Seq<char>| #[trigger] json_member(r, k) == entry(json_object_entries(m), k),
        !json_is_null(r),
{
    serde_json::Value::Object(m)
}

/// `serde_json::Value::get` with a string key, the member returned as an
/// owned copy.
#[verifier::external_body]
pub(crate) fn member(v: &serde_json::Value, key: &str) -> (r: Option<serde_json::Value>)
    ensures
        r == json_member(*v, key@),
{
    v.get(key).cloned()
}

/// `serde_json::Value::String`: the JSON string of these characters.
#[verifier::external_body]
pub(crate) fn string_value(s: String) -> (r: serde_json::Value)
    ensures
        r == json_string(s@),
{
    serde_json::Value::String(s)
}

/// `serde_json::Value::Null`: the one JSON null, which has no members.
#[verifier::external_body]
pub(crate) fn null_value() -> (r: serde_json::Value)
    ensures
        json_is_null(r),
        forall|v: serde_json::Value| #[trigger] json_is_null(v) ==> v == r,
        has_no_members(r),
{
    serde_json::Value::Null
}

/// The member of `v` under `key`, or null when there is none.
pub(crate) fn member_or_null(v: &serde_json::Value, key: &str) -> (r: serde_json::Value)
    ensures
        json_member(*v, key@) matches Some(x) ==> r == x,
        json_member(*v, key@) is None ==> json_is_null(r),
{
    match member(v, key) {
        Some(x) => x,
        None => null_value(),
    }
}

/// An empty JSON object.
pub(crate) fn empty_object() -> (r: serde_json::Value)
    ensures
        has_no_members(r),
        !json_is_null(r),
{
    let r = object_value(new_object_map());
    assert forall|k: Seq<char>| #[trigger] json_member(r, k) is None by {
        assert(!Map::<Seq<char>, serde_json::Value>::empty().contains_key(k));
    }
    r
}

} // verus!
