//! Well-formedness of the JSON payload texts.
//!
//! The metrics parsers hand payload text to an outside JSON crate, whose
//! behaviour this library can only rely on for text the crate is known
//! to return on.  Nothing is handed over before it passes this check.
//! The grammar is a deliberately strict JSON subset: ASCII only; strings
//! of printable characters without escape sequences; integer numbers of
//! at most nine digits (so the value fits 32 bits and parses the same on
//! every target); complete `true`/`false`/`null` literals; objects and
//! arrays closed by their bracket, with a separator after every member;
//! nothing but whitespace after the top-level value.  Text outside this
//! subset is simply not a payload the library accepts.
//!
//! The check is a recursive-descent walk.  Each step spends one unit of
//! a budget that is ample for any text under the size bound; the walk
//! mirrors its specification branch for branch.
use vstd::prelude::*;

use vstd::string::StringSliceAdditionalSpecFns;

verus! {

/// `"`
pub const QUOTE: u8 = 34;

/// `\`
pub const BACKSLASH: u8 = 92;

/// `{`
pub const LBRACE: u8 = 123;

/// `}`
pub const RBRACE: u8 = 125;

/// `[`
pub const LBRACKET: u8 = 91;

/// `]`
pub const RBRACKET: u8 = 93;

/// `,`
pub const COMMA: u8 = 44;

/// `:`
pub const COLON: u8 = 58;

/// `-`
pub const MINUS: u8 = 45;

/// Largest digit count of an accepted number: nine digits keep every
/// value below a billion, within 32 bits on any target.
pub const NUMBER_MAX_DIGITS: u8 = 9;

/// Texts at least this long are rejected outright; the bound keeps the
/// step budget within a machine word.
pub const TEXT_MAX_LEN: usize = 0x1000_0000;

/// The accepted whitespace bytes: space, tab, line feed, carriage return.
pub open spec fn is_ws_byte(c: u8) -> bool {
    c == 32 || c == 9 || c == 10 || c == 13
}

/// An ASCII decimal digit.
pub open spec fn is_digit_byte(c: u8) -> bool {
    48 <= c <= 57
}

/// A byte accepted inside a string: printable ASCII, no quote, no
/// backslash (escape sequences are outside the subset).
pub open spec fn is_string_byte(c: u8) -> bool {
    32 <= c <= 126 && c != QUOTE && c != BACKSLASH
}

/// Rest of a string after its opening quote: the position just past the
/// closing quote, or `None` if the string is unterminated or holds a
/// byte outside the subset.
pub open spec fn wf_string_tail(b: Seq<u8>, pos: int) -> Option<int>
    decreases b.len() - pos,
{
    if pos < 0 || pos >= b.len() {
        None
    } else if b[pos] == QUOTE {
        Some(pos + 1)
    } else if is_string_byte(b[pos]) {
        wf_string_tail(b, pos + 1)
    } else {
        None
    }
}

/// Rest of a number after its first digit: the position of the first
/// non-digit, or `None` once more than `left` further digits appear.
pub open spec fn wf_number_tail(b: Seq<u8>, pos: int, left: nat) -> Option<int>
    decreases left,
{
    if pos < 0 {
        None
    } else if pos >= b.len() || !is_digit_byte(b[pos]) {
        Some(pos)
    } else if left == 0 {
        None
    } else {
        wf_number_tail(b, pos + 1, (left - 1) as nat)
    }
}

/// A whole value starting at `pos` (leading whitespace allowed): the
/// position just past it.  Each recursive step spends one unit of
/// `fuel`.
pub open spec fn wf_value(b: Seq<u8>, pos: int, fuel: nat) -> Option<int>
    decreases fuel,
{
    if fuel == 0 || pos < 0 || pos >= b.len() {
        None
    } else {
        let c = b[pos];
        if is_ws_byte(c) {
            wf_value(b, pos + 1, (fuel - 1) as nat)
        } else if c == LBRACE {
            wf_members(b, pos + 1, (fuel - 1) as nat)
        } else if c == LBRACKET {
            wf_elements(b, pos + 1, (fuel - 1) as nat)
        } else if c == QUOTE {
            wf_string_tail(b, pos + 1)
        } else if c == MINUS {
            if pos + 1 < b.len() && is_digit_byte(b[pos + 1]) {
                wf_number_tail(b, pos + 2, (NUMBER_MAX_DIGITS - 1) as nat)
            } else {
                None
            }
        } else if is_digit_byte(c) {
            wf_number_tail(b, pos + 1, (NUMBER_MAX_DIGITS - 1) as nat)
        } else if c == 116 {  // true
            if pos + 4 <= b.len() && b[pos + 1] == 114 && b[pos + 2] == 117 && b[pos + 3] == 101 {
                Some(pos + 4)
            } else {
                None
            }
        } else if c == 102 {  // false
            if pos + 5 <= b.len() && b[pos + 1] == 97 && b[pos + 2] == 108 && b[pos + 3] == 115
                && b[pos + 4] == 101 {
                Some(pos + 5)
            } else {
                None
            }
        } else if c == 110 {  // null
            if pos + 4 <= b.len() && b[pos + 1] == 117 && b[pos + 2] == 108 && b[pos + 3] == 108 {
                Some(pos + 4)
            } else {
                None
            }
        } else {
            None
        }
    }
}

/// Inside an object, before a key or the closing brace.
pub open spec fn wf_members(b: Seq<u8>, pos: int, fuel: nat) -> Option<int>
    decreases fuel,
{
    if fuel == 0 || pos < 0 || pos >= b.len() {
        None
    } else {
        let c = b[pos];
        if is_ws_byte(c) {
            wf_members(b, pos + 1, (fuel - 1) as nat)
        } else if c == RBRACE {
            Some(pos + 1)
        } else if c == QUOTE {
            match wf_string_tail(b, pos + 1) {
                Some(k) => wf_colon(b, k, (fuel - 1) as nat),
                None => None,
            }
        } else {
            None
        }
    }
}

/// Between a key and its value: the colon, then the value, then the
/// member separator.
pub open spec fn wf_colon(b: Seq<u8>, pos: int, fuel: nat) -> Option<int>
    decreases fuel,
{
    if fuel == 0 || pos < 0 || pos >= b.len() {
        None
    } else {
        let c = b[pos];
        if is_ws_byte(c) {
            wf_colon(b, pos + 1, (fuel - 1) as nat)
        } else if c == COLON {
            match wf_value(b, pos + 1, (fuel - 1) as nat) {
                Some(v) => wf_after_member(b, v, (fuel - 1) as nat),
                None => None,
            }
        } else {
            None
        }
    }
}

/// After a member's value: a comma before the next key, or the closing
/// brace.
pub open spec fn wf_after_member(b: Seq<u8>, pos: int, fuel: nat) -> Option<int>
    decreases fuel,
{
    if fuel == 0 || pos < 0 || pos >= b.len() {
        None
    } else {
        let c = b[pos];
        if is_ws_byte(c) {
            wf_after_member(b, pos + 1, (fuel - 1) as nat)
        } else if c == COMMA {
            wf_members(b, pos + 1, (fuel - 1) as nat)
        } else if c == RBRACE {
            Some(pos + 1)
        } else {
            None
        }
    }
}

/// Inside an array, before an element or the closing bracket.
pub open spec fn wf_elements(b: Seq<u8>, pos: int, fuel: nat) -> Option<int>
    decreases fuel,
{
    if fuel == 0 || pos < 0 || pos >= b.len() {
        None
    } else {
        let c = b[pos];
        if is_ws_byte(c) {
            wf_elements(b, pos + 1, (fuel - 1) as nat)
        } else if c == RBRACKET {
            Some(pos + 1)
        } else {
            match wf_value(b, pos, (fuel - 1) as nat) {
                Some(v) => wf_after_element(b, v, (fuel - 1) as nat),
                None => None,
            }
        }
    }
}

/// After an array element: a comma before the next element, or the
/// closing bracket.
pub open spec fn wf_after_element(b: Seq<u8>, pos: int, fuel: nat) -> Option<int>
    decreases fuel,
{
    if fuel == 0 || pos < 0 || pos >= b.len() {
        None
    } else {
        let c = b[pos];
        if is_ws_byte(c) {
            wf_after_element(b, pos + 1, (fuel - 1) as nat)
        } else if c == COMMA {
            wf_elements(b, pos + 1, (fuel - 1) as nat)
        } else if c == RBRACKET {
            Some(pos + 1)
        } else {
            None
        }
    }
}

/// Nothing but whitespace from `pos` to the end.
pub open spec fn only_ws_after(b: Seq<u8>, pos: int) -> bool
    decreases b.len() - pos,
{
    if pos >= b.len() {
        true
    } else if pos < 0 {
        false
    } else if is_ws_byte(b[pos]) {
        only_ws_after(b, pos + 1)
    } else {
        false
    }
}

/// The whole text is one value of the subset, with nothing but
/// whitespace after it.
pub open spec fn wf_json_bytes(b: Seq<u8>) -> bool {
    &&& b.len() < TEXT_MAX_LEN
    &&& match wf_value(b, 0, (4 * b.len() + 8) as nat) {
        Some(end) => only_ws_after(b, end),
        None => false,
    }
}

/// Exec twin of `wf_string_tail`.
fn check_string_tail(b: &Vec<u8>, pos: usize) -> (r: Option<usize>)
    ensures
        match r {
            Some(e) => wf_string_tail(b@, pos as int) == Some(e as int),
            None => wf_string_tail(b@, pos as int) is None,
        },
    decreases b@.len() - pos,
{
    let blen = b.len();
    if pos >= blen {
        return None;
    }
    let c = b[pos];
    if c == QUOTE {
        Some(pos + 1)
    } else if 32 <= c && c <= 126 && c != QUOTE && c != BACKSLASH {
        check_string_tail(b, pos + 1)
    } else {
        None
    }
}

/// Exec twin of `wf_number_tail`.
fn check_number_tail(b: &Vec<u8>, pos: usize, left: u8) -> (r: Option<usize>)
    ensures
        match r {
            Some(e) => wf_number_tail(b@, pos as int, left as nat) == Some(e as int),
            None => wf_number_tail(b@, pos as int, left as nat) is None,
        },
    decreases left,
{
    let blen = b.len();
    if pos >= blen || !(48 <= b[pos] && b[pos] <= 57) {
        return Some(pos);
    }
    if left == 0 {
        return None;
    }
    check_number_tail(b, pos + 1, left - 1)
}

/// Exec twin of `wf_value`.
fn check_value(b: &Vec<u8>, pos: usize, fuel: u64) -> (r: Option<usize>)
    ensures
        match r {
            Some(e) => wf_value(b@, pos as int, fuel as nat) == Some(e as int),
            None => wf_value(b@, pos as int, fuel as nat) is None,
        },
    decreases fuel,
{
    if fuel == 0 {
        return None;
    }
    let blen = b.len();
    if pos >= blen {
        return None;
    }
    let c = b[pos];
    if c == 32 || c == 9 || c == 10 || c == 13 {
        check_value(b, pos + 1, fuel - 1)
    } else if c == LBRACE {
        check_members(b, pos + 1, fuel - 1)
    } else if c == LBRACKET {
        check_elements(b, pos + 1, fuel - 1)
    } else if c == QUOTE {
        check_string_tail(b, pos + 1)
    } else if c == MINUS {
        if blen - pos > 1 && 48 <= b[pos + 1] && b[pos + 1] <= 57 {
            check_number_tail(b, pos + 2, NUMBER_MAX_DIGITS - 1)
        } else {
            None
        }
    } else if 48 <= c && c <= 57 {
        check_number_tail(b, pos + 1, NUMBER_MAX_DIGITS - 1)
    } else if c == 116 {
        if blen - pos >= 4 && b[pos + 1] == 114 && b[pos + 2] == 117 && b[pos + 3] == 101 {
            Some(pos + 4)
        } else {
            None
        }
    } else if c == 102 {
        if blen - pos >= 5 && b[pos + 1] == 97 && b[pos + 2] == 108 && b[pos + 3] == 115 && b[pos
            + 4] == 101 {
            Some(pos + 5)
        } else {
            None
        }
    } else if c == 110 {
        if blen - pos >= 4 && b[pos + 1] == 117 && b[pos + 2] == 108 && b[pos + 3] == 108 {
            Some(pos + 4)
        } else {
            None
        }
    } else {
        None
    }
}

/// Exec twin of `wf_members`.
fn check_members(b: &Vec<u8>, pos: usize, fuel: u64) -> (r: Option<usize>)
    ensures
        match r {
            Some(e) => wf_members(b@, pos as int, fuel as nat) == Some(e as int),
            None => wf_members(b@, pos as int, fuel as nat) is None,
        },
    decreases fuel,
{
    if fuel == 0 {
        return None;
    }
    let blen = b.len();
    if pos >= blen {
        return None;
    }
    let c = b[pos];
    if c == 32 || c == 9 || c == 10 || c == 13 {
        check_members(b, pos + 1, fuel - 1)
    } else if c == RBRACE {
        Some(pos + 1)
    } else if c == QUOTE {
        match check_string_tail(b, pos + 1) {
            Some(k) => check_colon(b, k, fuel - 1),
            None => None,
        }
    } else {
        None
    }
}

/// Exec twin of `wf_colon`.
fn check_colon(b: &Vec<u8>, pos: usize, fuel: u64) -> (r: Option<usize>)
    ensures
        match r {
            Some(e) => wf_colon(b@, pos as int, fuel as nat) == Some(e as int),
            None => wf_colon(b@, pos as int, fuel as nat) is None,
        },
    decreases fuel,
{
    if fuel == 0 {
        return None;
    }
    let blen = b.len();
    if pos >= blen {
        return None;
    }
    let c = b[pos];
    if c == 32 || c == 9 || c == 10 || c == 13 {
        check_colon(b, pos + 1, fuel - 1)
    } else if c == COLON {
        match check_value(b, pos + 1, fuel - 1) {
            Some(v) => check_after_member(b, v, fuel - 1),
            None => None,
        }
    } else {
        None
    }
}

/// Exec twin of `wf_after_member`.
fn check_after_member(b: &Vec<u8>, pos: usize, fuel: u64) -> (r: Option<usize>)
    ensures
        match r {
            Some(e) => wf_after_member(b@, pos as int, fuel as nat) == Some(e as int),
            None => wf_after_member(b@, pos as int, fuel as nat) is None,
        },
    decreases fuel,
{
    if fuel == 0 {
        return None;
    }
    let blen = b.len();
    if pos >= blen {
        return None;
    }
    let c = b[pos];
    if c == 32 || c == 9 || c == 10 || c == 13 {
        check_after_member(b, pos + 1, fuel - 1)
    } else if c == COMMA {
        check_members(b, pos + 1, fuel - 1)
    } else if c == RBRACE {
        Some(pos + 1)
    } else {
        None
    }
}

/// Exec twin of `wf_elements`.
fn check_elements(b: &Vec<u8>, pos: usize, fuel: u64) -> (r: Option<usize>)
    ensures
        match r {
            Some(e) => wf_elements(b@, pos as int, fuel as nat) == Some(e as int),
            None => wf_elements(b@, pos as int, fuel as nat) is None,
        },
    decreases fuel,
{
    if fuel == 0 {
        return None;
    }
    let blen = b.len();
    if pos >= blen {
        return None;
    }
    let c = b[pos];
    if c == 32 || c == 9 || c == 10 || c == 13 {
        check_elements(b, pos + 1, fuel - 1)
    } else if c == RBRACKET {
        Some(pos + 1)
    } else {
        match check_value(b, pos, fuel - 1) {
            Some(v) => check_after_element(b, v, fuel - 1),
            None => None,
        }
    }
}

/// Exec twin of `wf_after_element`.
fn check_after_element(b: &Vec<u8>, pos: usize, fuel: u64) -> (r: Option<usize>)
    ensures
        match r {
            Some(e) => wf_after_element(b@, pos as int, fuel as nat) == Some(e as int),
            None => wf_after_element(b@, pos as int, fuel as nat) is None,
        },
    decreases fuel,
{
    if fuel == 0 {
        return None;
    }
    let blen = b.len();
    if pos >= blen {
        return None;
    }
    let c = b[pos];
    if c == 32 || c == 9 || c == 10 || c == 13 {
        check_after_element(b, pos + 1, fuel - 1)
    } else if c == COMMA {
        check_elements(b, pos + 1, fuel - 1)
    } else if c == RBRACKET {
        Some(pos + 1)
    } else {
        None
    }
}

/// Exec twin of `only_ws_after`.
fn check_only_ws_after(b: &Vec<u8>, pos: usize) -> (r: bool)
    ensures
        r == only_ws_after(b@, pos as int),
    decreases b@.len() - pos,
{
    let blen = b.len();
    if pos >= blen {
        return true;
    }
    let c = b[pos];
    if c == 32 || c == 9 || c == 10 || c == 13 {
        check_only_ws_after(b, pos + 1)
    } else {
        false
    }
}

/// Whether `text` lies in the accepted JSON subset.
pub fn is_wf_json(text: &str) -> (r: bool)
    ensures
        r == wf_json_bytes(text.spec_bytes()),
{
    let bytes = vstd::slice::slice_to_vec(text.as_bytes());
    let blen = bytes.len();
    if blen >= TEXT_MAX_LEN {
        return false;
    }
    let fuel = 4 * blen + 8;
    match check_value(&bytes, 0, fuel as u64) {
        Some(end) => check_only_ws_after(&bytes, end),
        None => false,
    }
}

} // verus!
