//! JSON, as far as role grants need it: a store's number as a JSON text.

use vstd::prelude::*;
use crate::decimal::signed_decimal;

verus! {

/// The 32-bit integer that `serde_json::from_str` reads from a JSON text, if
/// it reads one.
pub uninterp spec fn json_i32(text: Seq<char>) -> Option<i32>;

/// `serde_json::from_str::<i32>`: the integer that a JSON text holds, and
/// nothing where `serde_json` reports an error. What it accepts is left to
/// `serde_json`; the result is named [`json_i32`].
#[verifier::external_body]
pub(crate) fn parse_json_i32(text: &str) -> (r: Option<i32>)
    ensures
        r == json_i32(text@),
{
    serde_json::from_str::<i32>(text).ok()
}

/// `serde_json::to_string` of a 32-bit integer. It does not fail, since
/// writing into memory does not; the text is the integer in decimal, with a
/// minus sign before a negative one; and `serde_json::from_str` reads the
/// integer back from it.
#[verifier::external_body]
pub(crate) fn write_json_i32(n: i32) -> (r: Option<String>)
    ensures
        r is Some,
        r->0@ == signed_decimal(n as int),
        json_i32(r->0@) == Some(n),
{
    serde_json::to_string(&n).ok()
}

} // verus!
