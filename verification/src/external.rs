//! Calls out of the verified core: fresh identifiers, the clock, and the
//! UUID rendering of an identifier.

use vstd::prelude::*;

verus! {

/// The hyphenated UUID string of a 128-bit identifier. The rendering depends
/// on the identifier alone, so the result carries a name.
pub uninterp spec fn uuid_str_of(id: u128) -> Seq<char>;

/// Relies on uuid::Uuid::new_v4: a random identifier whose version and
/// variant bits are always set, so it is never zero. Nothing else is assumed
/// of its value.
#[verifier::external_body]
pub(crate) fn fresh_uuid() -> (r: u128)
    ensures
        r != 0,
{
    uuid::Uuid::new_v4().as_u128()
}

/// Relies on chrono::Utc::now: the clock's reading in epoch seconds. Nothing
/// is assumed of its value.
#[verifier::external_body]
pub(crate) fn now_ts() -> (r: i64) {
    chrono::Utc::now().timestamp()
}

/// Relies on uuid::Uuid::from_u128 and its Display form: the hyphenated,
/// lower-case rendering of the identifier, a function of the identifier
/// alone.
#[verifier::external_body]
pub(crate) fn uuid_to_string(id: u128) -> (r: String)
    ensures
        r@ == uuid_str_of(id),
{
    uuid::Uuid::from_u128(id).to_string()
}

} // verus!
