//! Identifiers of the relational backend: 128-bit values whose text form is
//! the hyphenated UUID notation. Parsing and rendering are done by the
//! `uuid` crate behind trusted declarations; resolving an absent identifier
//! at creation time draws a fresh random one.

use vstd::prelude::*;
use crate::entity::Dino;

verus! {

/// The identifier a piece of text parses to, if it is in any notation the
/// `uuid` crate accepts; a function of the characters alone.
pub uninterp spec fn id_of_text(s: Seq<char>) -> Option<u128>;

/// The canonical (hyphenated, lower-case) text of an identifier; a function
/// of the value alone.
pub uninterp spec fn id_text(u: u128) -> Seq<char>;

/// Relies on uuid::Uuid::parse_str together with Uuid::as_u128: the result
/// depends on the characters alone; text in a notation the crate accepts
/// yields the identifier's 128-bit big-endian value, anything else is
/// rejected, and the call never panics.
#[verifier::external_body]
fn parse_uuid_text(s: &str) -> (r: Option<u128>)
    ensures
        r == id_of_text(s@),
{
    match uuid::Uuid::parse_str(s) {
        Ok(u) => Some(u.as_u128()),
        Err(_) => None,
    }
}

/// Relies on uuid::Uuid::from_u128 and the Display form of a Uuid, which is
/// its hyphenated lower-case notation: 36 characters, a function of the
/// value alone, and one of the notations uuid::Uuid::parse_str accepts, so
/// parsing it returns exactly the value rendered.
#[verifier::external_body]
pub(crate) fn render_uuid_text(u: u128) -> (r: String)
    ensures
        r@ == id_text(u),
        r@.len() == 36,
        id_of_text(r@) == Some(u),
{
    uuid::Uuid::from_u128(u).to_string()
}

/// Relies on uuid::Uuid::new_v4 together with Uuid::as_u128: a freshly
/// generated random identifier. Nothing is promised of the value — every
/// caller must cope with any outcome, a collision included.
#[verifier::external_body]
fn generate_uuid() -> u128 {
    uuid::Uuid::new_v4().as_u128()
}

/// Parse the text form of an identifier, as a request path carries it:
/// the identifier it denotes, or the absence marker for malformed text.
pub fn parse_id_text(s: &str) -> (r: Option<u128>)
    ensures
        r == id_of_text(s@),
{
    parse_uuid_text(s)
}

/// Resolve a record's identifier at creation time, as the relational
/// backend does: a record that already carries one keeps it untouched, a
/// record without one is assigned a freshly generated identifier; the
/// attribute fields are never changed.
pub fn resolve_entity_id(d: Dino) -> (r: Dino)
    ensures
        r@.id is Some,
        d@.id matches Some(i) ==> r@.id == Some(i),
        r@.name == d@.name,
        r@.weight == d@.weight,
        r@.diet == d@.diet,
{
    match d.id {
        Some(_) => d,
        None => Dino { id: Some(generate_uuid()), name: d.name, weight: d.weight, diet: d.diet },
    }
}

} // verus!
