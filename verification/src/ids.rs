//! Workspace and view identities. Views carry their ids as text; the
//! workspace id is held as the 128-bit value of its UUID. The two
//! conversions between the forms are done by the `uuid` crate.

use vstd::prelude::*;

verus! {

/// The UUID value a piece of text parses to, if it parses at all. The result
/// depends on the characters alone.
pub uninterp spec fn parsed_id(s: Seq<char>) -> Option<u128>;

/// The canonical hyphenated text of a UUID value. The result depends on the
/// value alone.
pub uninterp spec fn id_text(v: u128) -> Seq<char>;

/// Relies on `uuid::Uuid::parse_str`: whether a string is a UUID, and which
/// value it denotes, is a function of its characters; `as_u128` reads that
/// value out.
#[verifier::external_body]
pub(crate) fn parse_id(s: &String) -> (r: Option<u128>)
    ensures
        r == parsed_id(s@),
{
    match uuid::Uuid::parse_str(s) {
        Ok(u) => Some(u.as_u128()),
        Err(_) => None,
    }
}

/// Relies on `uuid::Uuid::to_string` on `Uuid::from_u128(v)`: the canonical
/// hyphenated text of a UUID is a function of its 128-bit value.
#[verifier::external_body]
pub(crate) fn id_string(v: u128) -> (r: String)
    ensures
        r@ == id_text(v),
{
    uuid::Uuid::from_u128(v).to_string()
}

} // verus!
