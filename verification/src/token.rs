//! Session identifiers and their opaque string form.
//!
//! A session identifier is the 128-bit value of a UUID. The uuid crate
//! generates fresh identifiers, formats them into the canonical
//! hyphenated string carried by the session cookie, and parses cookie
//! values back; which strings parse, and to which value, is named by
//! `uuid_of_string`.

use vstd::prelude::*;

verus! {

/// What parsing a string as a UUID settles on: `Some` of the 128-bit
/// value where the string is a well-formed UUID, `None` otherwise.
/// The result depends on the characters alone.
pub uninterp spec fn uuid_of_string(s: Seq<char>) -> Option<u128>;

/// Relies on uuid's `Uuid::new_v4`: the value is random, so nothing is
/// assumed of it.
#[verifier::external_body]
pub(crate) fn fresh_id_raw() -> (r: u128) {
    uuid::Uuid::new_v4().as_u128()
}

/// Relies on uuid's `Uuid::try_parse`: whether a string parses, and to
/// which value, is a function of the string.
#[verifier::external_body]
pub(crate) fn parse_id_raw(s: &str) -> (r: Option<u128>)
    ensures
        r == uuid_of_string(s@),
{
    match uuid::Uuid::try_parse(s) {
        Ok(u) => Some(u.as_u128()),
        Err(_) => None,
    }
}

/// Relies on uuid's `Uuid::from_u128`, its hyphenated `to_string`, and
/// `Uuid::try_parse`: formatting a value and parsing the result gives
/// the value back.
#[verifier::external_body]
pub(crate) fn format_id_raw(v: u128) -> (r: String)
    ensures
        uuid_of_string(r@) == Some(v),
{
    uuid::Uuid::from_u128(v).to_string()
}

} // verus!
