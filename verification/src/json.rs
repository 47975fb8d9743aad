//! What this library takes on trust from `serde_json`.
//!
//! A JSON value is opaque to the verifier. The contracts speak of it
//! through what can be read from it: the text or the number it holds and
//! the members it has. Nothing here is proved; each contract says what the
//! source of `serde_json` shows.

use vstd::prelude::*;

verus! {

/// `serde_json::Value`, a JSON value of any kind.
#[verifier::external_type_specification]
#[verifier::external_body]
pub struct ExJsonValue(serde_json::Value);

/// `serde_json::Error`, the reason a text could not be read or written.
#[verifier::external_type_specification]
#[verifier::external_body]
pub struct ExJsonError(serde_json::Error);

/// `serde_json::Map`, the members of a JSON object.
#[verifier::external_type_specification]
#[verifier::external_body]
#[verifier::reject_recursive_types(K)]
#[verifier::reject_recursive_types(V)]
pub struct ExJsonMap<K, V>(serde_json::Map<K, V>);

/// The value that `serde_json::from_str` reads from a text, if the text
/// is well-formed JSON.
pub uninterp spec fn json_parsed(text: Seq<char>) -> Option<serde_json::Value>;

/// The member of a JSON object under a key, as `Value::get` finds it.
/// A value that is no object has no members.
pub uninterp spec fn json_member(value: serde_json::Value, key: Seq<char>) -> Option<
    serde_json::Value,
>;

/// The text of a JSON string, as `Value::as_str` reads it. A value of
/// another kind has none.
pub uninterp spec fn json_str(value: serde_json::Value) -> Option<Seq<char>>;

/// The number that a JSON value holds, as `Value::as_u64` reads it: the
/// value of a number without sign, fraction or exponent that fits in 64
/// bits. Any other value has none.
pub uninterp spec fn json_u64(value: serde_json::Value) -> Option<u64>;

/// The text that `serde_json::to_string_pretty` writes for a JSON value,
/// if it writes one.
pub uninterp spec fn json_text(value: serde_json::Value) -> Option<Seq<char>>;

/// The members that a map holds: the value under each key.
pub uninterp spec fn json_entries(object: serde_json::Map<String, serde_json::Value>) -> Map<
    Seq<char>,
    serde_json::Value,
>;

/// `Value::as_str` returns the text of `Value::String`, and `None` for
/// every other variant.
pub assume_specification<'a>[ serde_json::Value::as_str ](value: &'a serde_json::Value) -> (text:
    Option<&'a str>)
    ensures
        text is Some <==> json_str(*value) is Some,
        text is Some ==> json_str(*value) == Some(text.unwrap()@),
;

/// `Value::as_u64` returns the number of `Value::Number` where it is held
/// as an unsigned integer, and `None` for everything else.
pub assume_specification[ serde_json::Value::as_u64 ](value: &serde_json::Value) -> (number:
    Option<u64>)
    ensures
        number == json_u64(*value),
;

/// `Value::from` on a string makes `Value::String` of it, from which
/// `as_str` reads the same text.
pub assume_specification[ <serde_json::Value as From<String>>::from ](text: String) -> (value:
    serde_json::Value)
    ensures
        json_str(value) == Some(text@),
;

/// `Value::from` on a `u64` makes `Value::Number` of it, held as an
/// unsigned integer, from which `as_u64` reads the same number.
pub assume_specification[ <serde_json::Value as From<u64>>::from ](number: u64) -> (value:
    serde_json::Value)
    ensures
        json_u64(value) == Some(number),
;

/// `Value::from` on a map makes `Value::Object` of it, in which `get`
/// finds under each key of the map the value that the map holds.
pub assume_specification[ <serde_json::Value as From<
    serde_json::Map<String, serde_json::Value>,
>>::from ](object: serde_json::Map<String, serde_json::Value>) -> (value: serde_json::Value)
    ensures
        forall|key: Seq<char>|
            json_entries(object).contains_key(key) ==> #[trigger] json_member(value, key) == Some(
                json_entries(object)[key],
            ),
;

/// `Map::new` makes a map without members.
pub assume_specification[ serde_json::Map::<String, serde_json::Value>::new ]() -> (object:
    serde_json::Map<String, serde_json::Value>)
    ensures
        json_entries(object) =~= Map::empty(),
;

/// `Map::insert` puts the value under the key, in place of what the key
/// had before, and leaves the other members as they were.
pub assume_specification[ serde_json::Map::<String, serde_json::Value>::insert ](
    object: &mut serde_json::Map<String, serde_json::Value>,
    k: String,
    v: serde_json::Value,
) -> (previous: Option<serde_json::Value>)
    ensures
        json_entries(*final(object)) == json_entries(*old(object)).insert(k@, v),
;

/// Calls `serde_json::from_str` for a `Value`. What it reads depends on
/// the text alone; it fails on a text that is not one JSON value.
#[verifier::external_body]
pub(crate) fn json_parse(text: &str) -> (parsed: Result<serde_json::Value, serde_json::Error>)
    ensures
        parsed is Ok <==> json_parsed(text@) is Some,
        parsed is Ok ==> json_parsed(text@) == Some(parsed.unwrap()),
{
    serde_json::from_str::<serde_json::Value>(text)
}

/// Calls `Value::get` with a string key: the member of an object under
/// that key, `None` where the value is no object or has no such member.
#[verifier::external_body]
pub(crate) fn json_get<'a>(value: &'a serde_json::Value, key: &str) -> (member: Option<
    &'a serde_json::Value,
>)
    ensures
        member is Some <==> json_member(*value, key@) is Some,
        member is Some ==> json_member(*value, key@) == Some(*member.unwrap()),
{
    value.get(key)
}

/// Calls `serde_json::to_string_pretty` on a `Value`. What it writes
/// depends on the value alone. Nothing more is claimed of the text.
#[verifier::external_body]
pub(crate) fn json_render(value: &serde_json::Value) -> (text: Result<String, serde_json::Error>)
    ensures
        text is Ok <==> json_text(*value) is Some,
        text is Ok ==> json_text(*value) == Some(text.unwrap()@),
{
    serde_json::to_string_pretty(value)
}

} // verus!
