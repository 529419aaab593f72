//! The boundary to `serde_json`: what the parser and the printer are asked,
//! and what is taken on trust about their answers.
//!
//! Everything JSON-lexical (where a value ends, what a string literal
//! denotes, how a string is escaped) is `serde_json`'s work. The functions
//! here hand it text and receive text and integers; the rest of the crate is
//! checked against the contracts stated in this file.

use serde::de::IgnoredAny;
use serde_json::value::RawValue;
use std::collections::BTreeMap;
use vstd::prelude::*;

verus! {

/// The error type of `serde_json`, carried but never inspected.
#[verifier::external_type_specification]
#[verifier::external_body]
pub struct ExJsonError(serde_json::Error);

/// One member of a JSON object as it is split off: its key, unescaped, and
/// the text of its value exactly as it stood in the input.
pub struct RawMember {
    pub name: String,
    pub raw: String,
}

/// Whether `serde_json::from_str` accepts `text` as one JSON value of any
/// kind, read as `serde::de::IgnoredAny`.
pub uninterp spec fn json_valid(text: Seq<char>) -> bool;

/// Whether `serde_json::from_str` accepts `text` as a number, read as
/// `serde_json::Number`.
pub uninterp spec fn json_number(text: Seq<char>) -> bool;

/// Whether `serde_json::from_str` accepts `text` as `null`, read as `()`.
pub uninterp spec fn json_null(text: Seq<char>) -> bool;

/// The string that `serde_json::from_str` reads from `text` as a `String`,
/// or `None` where it reports an error.
pub uninterp spec fn json_string(text: Seq<char>) -> Option<Seq<char>>;

/// The integer that `serde_json::from_str` reads from `text` as a `u64`, or
/// `None` where it reports an error.
pub uninterp spec fn json_unsigned(text: Seq<char>) -> Option<u64>;

/// The integer that `serde_json::from_str` reads from `text` as an `i64`, or
/// `None` where it reports an error.
pub uninterp spec fn json_signed(text: Seq<char>) -> Option<i64>;

/// The texts of the elements of the JSON array `text`, in order, as
/// `serde_json::from_str` delimits them when it reads a
/// `Vec<Box<RawValue>>`; `None` where it does not read `text` as an array.
pub uninterp spec fn json_items(text: Seq<char>) -> Option<Seq<Seq<char>>>;

/// The members of the JSON object `text`, each a key and the text of its
/// value, as they come out of the `BTreeMap<String, Box<RawValue>>` that
/// `serde_json::from_str` reads; `None` where it does not read `text` as an
/// object.
pub uninterp spec fn json_members(text: Seq<char>) -> Option<Seq<(Seq<char>, Seq<char>)>>;

/// The JSON string literal that `serde_json::to_string` prints for `s`, or
/// `None` where it reports an error.
pub uninterp spec fn json_quoted(s: Seq<char>) -> Option<Seq<char>>;

/// The views of a list of strings.
pub open spec fn texts(items: Seq<String>) -> Seq<Seq<char>> {
    items.map_values(|s: String| s@)
}

/// The keys and texts of a list of members.
pub open spec fn raw_members(members: Seq<RawMember>) -> Seq<(Seq<char>, Seq<char>)> {
    members.map_values(|m: RawMember| (m.name@, m.raw@))
}

/// Checks that `text` is one well-formed JSON value.
///
/// Calls `serde_json::from_str` at `serde::de::IgnoredAny`, which walks the
/// value without building it. The contract only names the answer.
#[verifier::external_body]
pub(crate) fn is_json(text: &str) -> (ok: bool)
    ensures
        ok == json_valid(text@),
{
    serde_json::from_str::<IgnoredAny>(text).is_ok()
}

/// Checks that `text` is a JSON number.
///
/// Calls `serde_json::from_str` at `serde_json::Number`. The contract only
/// names the answer.
#[verifier::external_body]
pub(crate) fn is_number(text: &str) -> (ok: bool)
    ensures
        ok == json_number(text@),
{
    serde_json::from_str::<serde_json::Number>(text).is_ok()
}

/// Checks that `text` is `null`.
///
/// Calls `serde_json::from_str` at `()`, which reads `null` and nothing
/// else. The contract only names the answer.
#[verifier::external_body]
pub(crate) fn is_null(text: &str) -> (ok: bool)
    ensures
        ok == json_null(text@),
{
    serde_json::from_str::<()>(text).is_ok()
}

/// Reads `text` as a JSON string literal.
///
/// Calls `serde_json::from_str` at `String`. The contract names the string
/// read and says that an error comes back exactly where there is none.
#[verifier::external_body]
pub(crate) fn read_string(text: &str) -> (result: Result<String, serde_json::Error>)
    ensures
        match result {
            Ok(s) => json_string(text@) == Some(s@),
            Err(_) => json_string(text@) is None,
        },
{
    serde_json::from_str::<String>(text)
}

/// Reads `text` as an unsigned integer.
///
/// Calls `serde_json::from_str` at `u64`. The contract names the integer
/// read and says that an error comes back exactly where there is none.
#[verifier::external_body]
pub(crate) fn read_unsigned(text: &str) -> (result: Result<u64, serde_json::Error>)
    ensures
        match result {
            Ok(n) => json_unsigned(text@) == Some(n),
            Err(_) => json_unsigned(text@) is None,
        },
{
    serde_json::from_str::<u64>(text)
}

/// Reads `text` as a signed integer.
///
/// Calls `serde_json::from_str` at `i64`. The contract names the integer
/// read and says that an error comes back exactly where there is none.
#[verifier::external_body]
pub(crate) fn read_signed(text: &str) -> (result: Result<i64, serde_json::Error>)
    ensures
        match result {
            Ok(n) => json_signed(text@) == Some(n),
            Err(_) => json_signed(text@) is None,
        },
{
    serde_json::from_str::<i64>(text)
}

/// Splits the JSON array `text` into the texts of its elements.
///
/// Calls `serde_json::from_str` at `Vec<Box<RawValue>>` and copies out each
/// element's text. The contract names the list and adds what `RawValue`
/// documents of itself: each element is a range of the input that
/// encompasses a single valid JSON value.
#[verifier::external_body]
pub(crate) fn read_items(text: &str) -> (result: Result<Vec<String>, serde_json::Error>)
    ensures
        match result {
            Ok(items) => {
                &&& json_items(text@) == Some(texts(items@))
                &&& forall|i: int| 0 <= i < items.len() ==> json_valid((#[trigger] items[i])@)
            },
            Err(_) => json_items(text@) is None,
        },
{
    let cells: Vec<Box<RawValue>> = serde_json::from_str(text)?;
    Ok(cells.into_iter().map(|cell| String::from(cell.get())).collect())
}

/// Splits the JSON object `text` into its members.
///
/// Calls `serde_json::from_str` at `BTreeMap<String, Box<RawValue>>` and
/// copies out each entry in the map's order. The contract names the list
/// and adds what `RawValue` documents of itself: each value is a range of
/// the input that encompasses a single valid JSON value.
#[verifier::external_body]
pub(crate) fn read_members(text: &str) -> (result: Result<Vec<RawMember>, serde_json::Error>)
    ensures
        match result {
            Ok(members) => {
                &&& json_members(text@) == Some(raw_members(members@))
                &&& forall|i: int|
                    0 <= i < members.len() ==> json_valid((#[trigger] members[i]).raw@)
            },
            Err(_) => json_members(text@) is None,
        },
{
    let map: BTreeMap<String, Box<RawValue>> = serde_json::from_str(text)?;
    Ok(
        map.into_iter()
            .map(|(name, raw)| RawMember { name, raw: String::from(raw.get()) })
            .collect(),
    )
}

/// Prints `s` as a JSON string literal.
///
/// Calls `serde_json::to_string` at `str`. The contract names the literal
/// and says that an error comes back exactly where there is none.
#[verifier::external_body]
pub(crate) fn write_string(s: &str) -> (result: Result<String, serde_json::Error>)
    ensures
        match result {
            Ok(quoted) => json_quoted(s@) == Some(quoted@),
            Err(_) => json_quoted(s@) is None,
        },
{
    serde_json::to_string(s)
}

} // verus!
