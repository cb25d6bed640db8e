//! Identifiers on the wire are UUID texts; internally they are their 128-bit
//! values. Parsing and formatting are delegated to the uuid crate.

use vstd::prelude::*;

verus! {

/// The value that `uuid::Uuid::parse_str` reads from the text `s`, or `None`
/// when the text is not a UUID; a function of the characters alone.
pub uninterp spec fn uuid_parse(s: Seq<char>) -> Option<u128>;

/// The canonical hyphenated text of the UUID whose value is `id`.
pub uninterp spec fn uuid_text(id: u128) -> Seq<char>;

/// Relies on `uuid::Uuid::parse_str` and `Uuid::as_u128`: which texts parse,
/// and to which value, depends on the characters alone.
#[verifier::external_body]
pub fn parse_uuid(s: &str) -> (r: Option<u128>)
    ensures
        r == uuid_parse(s@),
{
    match uuid::Uuid::parse_str(s) {
        Ok(u) => Some(u.as_u128()),
        Err(_) => None,
    }
}

/// Relies on `uuid::Uuid::from_u128` and its hyphenated display: the text is
/// a function of the value alone, and `parse_str` reads the value back.
#[verifier::external_body]
pub fn format_uuid(id: u128) -> (r: String)
    ensures
        r@ == uuid_text(id),
        uuid_parse(r@) == Some(id),
{
    uuid::Uuid::from_u128(id).to_string()
}

} // verus!
