//! Trusted bindings to the JSON parser used for the metrics payloads.
//!
//! Every call site guards its text with the payload grammar first
//! (`crate::grammar`): the outside parser is only relied on for text it
//! demonstrably returns on, since on malformed text — a truncated
//! object or array, an incomplete literal, a non-ASCII separator — it
//! can abort instead of erring.  Within the grammar each extraction is
//! a pure function of the input text, so its result is given a name
//! that the verified parsers' contracts speak of.  Nothing here
//! inspects JSON itself; the parsing crate does.
use vstd::prelude::*;

use crate::grammar::wf_json_bytes;
use vstd::string::StringSliceAdditionalSpecFns;

verus! {

/// The integer at `key` of the top-level JSON object in `text`, when
/// the text holds such an object with such a field.  The trusted items
/// relate this name to the parser only for grammar-passing texts, whose
/// numbers have at most nine digits: the value fits 32 bits, so the
/// parser's machine-sized integer type reads it the same on every
/// target.
pub uninterp spec fn json_int_field(text: Seq<char>, key: Seq<char>) -> Option<i64>;

/// The number of elements of the top-level JSON array in `text`.
pub uninterp spec fn json_array_len(text: Seq<char>) -> Option<usize>;

/// The string at `key` of element `idx` of the top-level JSON array.
pub uninterp spec fn json_elem_str_field(text: Seq<char>, idx: int, key: Seq<char>) -> Option<
    Seq<char>,
>;

/// The integer at `key` of element `idx` of the top-level JSON array,
/// under the same nine-digit bound as `json_int_field`.
pub uninterp spec fn json_elem_int_field(text: Seq<char>, idx: int, key: Seq<char>) -> Option<i64>;

/// Relies on microjson's `JSONValue::load`, `JSONValue::get_key_value`
/// and `JSONValue::read_integer`: the integer field of the top-level
/// object, a function of the text and the key alone.  The grammar bound
/// in `requires` keeps to inputs the parser returns on.
#[verifier::external_body]
pub(crate) fn read_int_field(text: &str, key: &str) -> (r: Option<i64>)
    requires
        wf_json_bytes(text.spec_bytes()),
    ensures
        r == json_int_field(text@, key@),
{
    let value = microjson::JSONValue::load(text);
    match value.get_key_value(key) {
        Ok(field) => match field.read_integer() {
            Ok(i) => Some(i as i64),
            Err(_) => None,
        },
        Err(_) => None,
    }
}

/// Relies on microjson's `JSONValue::load` and `JSONValue::iter_array`:
/// how many elements the top-level array holds, a function of the text
/// alone.  The grammar bound in `requires` keeps to inputs the parser
/// returns on.
#[verifier::external_body]
pub(crate) fn read_array_len(text: &str) -> (r: Option<usize>)
    requires
        wf_json_bytes(text.spec_bytes()),
    ensures
        r == json_array_len(text@),
{
    let value = microjson::JSONValue::load(text);
    match value.iter_array() {
        Ok(iter) => Some(iter.count()),
        Err(_) => None,
    }
}

/// Relies on microjson's `JSONValue::load`, `JSONValue::iter_array`,
/// `JSONValue::get_key_value` and `JSONValue::read_string`: the string
/// field of one array element, a function of text, index and key alone.
/// The grammar bound in `requires` keeps to inputs the parser returns
/// on.
#[verifier::external_body]
pub(crate) fn read_elem_str_field(text: &str, idx: usize, key: &str) -> (r: Option<String>)
    requires
        wf_json_bytes(text.spec_bytes()),
    ensures
        match r {
            Some(s) => json_elem_str_field(text@, idx as int, key@) == Some(s@),
            None => json_elem_str_field(text@, idx as int, key@) is None,
        },
{
    let value = microjson::JSONValue::load(text);
    let mut iter = match value.iter_array() {
        Ok(iter) => iter,
        Err(_) => return None,
    };
    let elem = match iter.nth(idx) {
        Some(elem) => elem,
        None => return None,
    };
    match elem.get_key_value(key) {
        Ok(field) => field.read_string().ok().map(|s| s.to_owned()),
        Err(_) => None,
    }
}

/// Relies on microjson's `JSONValue::load`, `JSONValue::iter_array`,
/// `JSONValue::get_key_value` and `JSONValue::read_integer`: the
/// integer field of one array element, a function of text, index and
/// key alone.  The grammar bound in `requires` keeps to inputs the
/// parser returns on.
#[verifier::external_body]
pub(crate) fn read_elem_int_field(text: &str, idx: usize, key: &str) -> (r: Option<i64>)
    requires
        wf_json_bytes(text.spec_bytes()),
    ensures
        r == json_elem_int_field(text@, idx as int, key@),
{
    let value = microjson::JSONValue::load(text);
    let mut iter = match value.iter_array() {
        Ok(iter) => iter,
        Err(_) => return None,
    };
    let elem = match iter.nth(idx) {
        Some(elem) => elem,
        None => return None,
    };
    match elem.get_key_value(key) {
        Ok(field) => field.read_integer().ok().map(|i| i as i64),
        Err(_) => None,
    }
}

} // verus!
