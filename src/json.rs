//! The JSON encoding of stored argument lists and environments, and of alert
//! payloads, through serde_json.

use vstd::prelude::*;
use crate::string_map::{entries_view, names_distinct};

verus! {

#[verifier::external_type_specification]
#[verifier::external_body]
pub struct ExJsonError(serde_json::Error);

#[verifier::external_type_specification]
#[verifier::external_body]
pub struct ExJsonValue(serde_json::Value);

/// The strings of a JSON array of strings, or `None` where the text is not one.
pub uninterp spec fn parsed_string_list(s: Seq<char>) -> Option<Seq<Seq<char>>>;

/// The entries of a JSON object whose values are all strings, or `None`
/// where the text is not one.
pub uninterp spec fn parsed_string_map(s: Seq<char>) -> Option<Seq<(Seq<char>, Seq<char>)>>;

/// Whether the text is one well-formed JSON document.
pub uninterp spec fn is_json_document(s: Seq<char>) -> bool;

/// The JSON text of an array of strings.
pub uninterp spec fn string_list_json(v: Seq<Seq<char>>) -> Seq<char>;

/// The JSON text of an object with string values, given its entries.
pub uninterp spec fn string_map_json(m: Seq<(Seq<char>, Seq<char>)>) -> Seq<char>;

/// The characters of each string of a list.
pub open spec fn strings_view(v: Seq<String>) -> Seq<Seq<char>> {
    v.map_values(|x: String| x@)
}

/// Relies on `serde_json::from_str::<Vec<String>>`: it accepts exactly the
/// JSON arrays of strings and gives their items in order.
#[verifier::external_body]
pub(crate) fn parse_string_list(s: &str) -> (r: Result<Vec<String>, serde_json::Error>)
    ensures
        match r {
            Ok(v) => parsed_string_list(s@) == Some(strings_view(v@)),
            Err(_) => parsed_string_list(s@) is None,
        },
{
    serde_json::from_str::<Vec<String>>(s)
}

/// Relies on `serde_json::from_str` into a `BTreeMap<String, String>`: it
/// accepts exactly the JSON objects with string values; the map holds each
/// name once and hands its entries out in order of name.
#[verifier::external_body]
pub(crate) fn parse_string_map(s: &str) -> (r: Result<Vec<(String, String)>, serde_json::Error>)
    ensures
        match r {
            Ok(v) => parsed_string_map(s@) == Some(entries_view(v@)) && names_distinct(
                entries_view(v@),
            ),
            Err(_) => parsed_string_map(s@) is None,
        },
{
    match serde_json::from_str::<std::collections::BTreeMap<String, String>>(s) {
        Ok(m) => Ok(m.into_iter().collect()),
        Err(e) => Err(e),
    }
}

/// Relies on `serde_json::from_str::<serde_json::Value>`: it succeeds exactly
/// on one well-formed JSON document.
#[verifier::external_body]
pub(crate) fn parse_value(s: &str) -> (r: Result<serde_json::Value, serde_json::Error>)
    ensures
        r is Ok <==> is_json_document(s@),
{
    serde_json::from_str::<serde_json::Value>(s)
}

/// Relies on `serde_json::to_string` of a `Vec<String>`: the JSON array of
/// those strings. It fails only where a `Serialize` impl fails or a map has
/// keys that are not strings, neither of which a list of strings has.
#[verifier::external_body]
pub(crate) fn string_list_to_json(v: &Vec<String>) -> (r: Result<String, serde_json::Error>)
    ensures
        r is Ok,
        r is Ok ==> r->Ok_0@ == string_list_json(strings_view(v@)),
{
    serde_json::to_string(v)
}

/// Relies on `serde_json::to_string` of a `BTreeMap<&String, &String>` built
/// from the entries: the JSON object of those entries. It fails only where a
/// `Serialize` impl fails or a map has keys that are not strings, neither of
/// which a map from strings to strings has.
#[verifier::external_body]
pub(crate) fn string_map_to_json(entries: &Vec<(String, String)>) -> (r: Result<String, serde_json::Error>)
    ensures
        r is Ok,
        r is Ok ==> r->Ok_0@ == string_map_json(entries_view(entries@)),
{
    let m: std::collections::BTreeMap<&String, &String> = entries.iter().map(|e| (&e.0, &e.1)).collect();
    serde_json::to_string(&m)
}

/// Relies on the `Display` impl of `serde_json::Error` for its message.
#[verifier::external_body]
pub(crate) fn error_message(e: &serde_json::Error) -> (r: String) {
    e.to_string()
}

} // verus!
