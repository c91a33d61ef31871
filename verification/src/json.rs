//! The JSON object that carries a partial update, as `serde_json` holds it.
//!
//! Nothing in this file is proved: it says what the crate takes on trust
//! about `serde_json::Map`.

use vstd::prelude::*;

verus! {

/// `serde_json::Value`, carried as it is: nothing is read of one here.
#[verifier::external_type_specification]
#[verifier::external_body]
pub struct ExJsonValue(serde_json::Value);

/// `serde_json::Map`, known here only by its `members`.
#[verifier::external_type_specification]
#[verifier::external_body]
#[verifier::reject_recursive_types(K)]
#[verifier::reject_recursive_types(V)]
pub struct ExJsonMap<K, V>(serde_json::Map<K, V>);

/// The members of a JSON object: each key with the text of its value where
/// that value is a JSON string, and with `None` where it is anything else.
pub uninterp spec fn members(object: serde_json::Map<String, serde_json::Value>) -> Map<Seq<char>, Option<Seq<char>>>;

/// The members of an object that has none.
pub open spec fn no_members() -> Map<Seq<char>, Option<Seq<char>>> {
    Map::empty()
}

/// `serde_json::Map::new`: the object it returns has no members.
#[verifier::external_body]
pub(crate) fn new_object() -> (object: serde_json::Map<String, serde_json::Value>)
    ensures
        members(object) == no_members(),
{
    serde_json::Map::new()
}

/// `serde_json::Map::insert`, with a JSON string as the value: afterwards
/// the object holds `text` under `key`, in place of what it held there
/// before, and its other members are as they were.
#[verifier::external_body]
pub(crate) fn insert_text(
    object: &mut serde_json::Map<String, serde_json::Value>,
    key: String,
    text: String,
)
    ensures
        members(*final(object)) == members(*old(object)).insert(key@, Some(text@)),
{
    object.insert(key, serde_json::Value::String(text));
}

/// `serde_json::Map::is_empty`: whether the object has no members.
#[verifier::external_body]
pub(crate) fn object_is_empty(object: &serde_json::Map<String, serde_json::Value>) -> (empty:
    bool)
    ensures
        empty == (members(*object) == no_members()),
{
    object.is_empty()
}

} // verus!
