//! Field lookup in JSON documents. The parsing is serde_json's; nothing in
//! this module is proved, and the rest of the library knows of a document only
//! what the names below stand for.

use vstd::prelude::*;

verus! {

/// The string that serde_json finds under `key` in the JSON document
/// `document`: `Some` exactly when the text parses as JSON, the parsed value
/// is an object with a member `key`, and that member is a string.
pub uninterp spec fn json_text_field(document: Seq<char>, key: Seq<char>) -> Option<Seq<char>>;

/// The unsigned integer that serde_json finds under `key` in the JSON
/// document `document`: `Some` exactly when the text parses as JSON, the
/// parsed value is an object with a member `key`, and that member is a number
/// that serde_json represents as a `u64`.
pub uninterp spec fn json_number_field(document: Seq<char>, key: Seq<char>) -> Option<u64>;

/// The unsigned integer that serde_json finds under `key` in the member
/// `outer` of the JSON document `document`: `Some` exactly when the text
/// parses as JSON, the parsed value is an object whose member `outer` is an
/// object with a member `key`, and that member is a number that serde_json
/// represents as a `u64`.
pub uninterp spec fn json_nested_number_field(
    document: Seq<char>,
    outer: Seq<char>,
    key: Seq<char>,
) -> Option<u64>;

/// Parses `document` with `serde_json::from_str` into a `serde_json::Value`,
/// indexes it with `key` and reads the member with `Value::as_str`. A text
/// that does not parse gives `None`, as does a missing member or one that is
/// no string. The contract only names the result: it is a function of the two
/// texts.
#[verifier::external_body]
pub(crate) fn text_field(document: &str, key: &str) -> (found: Option<String>)
    ensures
        match found {
            Some(text) => json_text_field(document@, key@) == Some(text@),
            None => json_text_field(document@, key@) is None,
        },
{
    match serde_json::from_str::<serde_json::Value>(document) {
        Ok(value) => value[key].as_str().map(|text| text.to_string()),
        Err(_) => None,
    }
}

/// Parses `document` with `serde_json::from_str` into a `serde_json::Value`,
/// indexes it with `key` and reads the member with `Value::as_u64`. A text
/// that does not parse gives `None`, as does a missing member or one that is
/// no unsigned integer. The contract only names the result: it is a function
/// of the two texts.
#[verifier::external_body]
pub(crate) fn number_field(document: &str, key: &str) -> (found: Option<u64>)
    ensures
        found == json_number_field(document@, key@),
{
    match serde_json::from_str::<serde_json::Value>(document) {
        Ok(value) => value[key].as_u64(),
        Err(_) => None,
    }
}

/// Parses `document` with `serde_json::from_str` into a `serde_json::Value`,
/// indexes it with `outer` and then with `key`, and reads the member with
/// `Value::as_u64`. A text that does not parse gives `None`, as does a missing
/// member at either level or one that is no unsigned integer. The contract
/// only names the result: it is a function of the three texts.
#[verifier::external_body]
pub(crate) fn nested_number_field(document: &str, outer: &str, key: &str) -> (found: Option<u64>)
    ensures
        found == json_nested_number_field(document@, outer@, key@),
{
    match serde_json::from_str::<serde_json::Value>(document) {
        Ok(value) => value[outer][key].as_u64(),
        Err(_) => None,
    }
}

} // verus!
