//! Postal addresses: the payload the address endpoints take and the records
//! they write.

use vstd::prelude::*;
use crate::member::spec_normalize_string;
use crate::models;

verus! {

/// The payload for creating or updating an address. The owning member is
/// named by the text of their identifier.
pub struct Address {
    pub member_id: String,
    pub line_1: String,
    pub line_2: String,
    pub postal_code: String,
    pub city: String,
    pub country: String,
}

/// What uuid::Uuid::parse_str makes of a text: `None` when it refuses it,
/// otherwise the 128-bit value read. The outcome is fixed by the text alone.
pub uninterp spec fn uuid_of(s: Seq<char>) -> Option<u128>;

/// Relies on uuid::Uuid::parse_str and Uuid::as_u128: whether the text reads
/// as a UUID, and as which value, depends on the text alone; `uuid_of` names
/// that outcome.
#[verifier::external_body]
pub(crate) fn parse_uuid(s: &str) -> (r: Option<u128>)
    ensures
        r == uuid_of(s@),
{
    match uuid::Uuid::parse_str(s) {
        Ok(u) => Some(u.as_u128()),
        Err(_) => None,
    }
}

/// The record to insert for a new address: the member identifier read as a
/// UUID, an empty second line blanked to an absent one, and no row id, which
/// the store assigns. `None` exactly when the member identifier does not
/// read as a UUID, where the caller gives up as the endpoint always has.
pub fn prepare_address_insert(payload: Address) -> (r: Option<models::Address>)
    ensures
        uuid_of(payload.member_id@) is None ==> r is None,
        uuid_of(payload.member_id@) matches Some(mid) ==> (r matches Some(a) && {
            &&& a.id is None
            &&& a.member_id == mid
            &&& a.line_1 == payload.line_1
            &&& a.line_2 == spec_normalize_string(payload.line_2)
            &&& a.postal_code == payload.postal_code
            &&& a.city == payload.city
            &&& a.country == payload.country
        }),
{
    let mid = match parse_uuid(payload.member_id.as_str()) {
        Some(mid) => mid,
        None => {
            return None;
        },
    };
    Some(
        models::Address {
            id: None,
            member_id: mid,
            line_1: payload.line_1,
            line_2: crate::member::normalize_optional(payload.line_2),
            postal_code: payload.postal_code,
            city: payload.city,
            country: payload.country,
        },
    )
}

/// The record that an address update writes for the member: the second line
/// blanked when empty, and no row id, which the statement does not touch.
pub fn prepare_address_update(member_id: u128, payload: Address) -> (a: models::Address)
    ensures
        a.id is None,
        a.member_id == member_id,
        a.line_1 == payload.line_1,
        a.line_2 == spec_normalize_string(payload.line_2),
        a.postal_code == payload.postal_code,
        a.city == payload.city,
        a.country == payload.country,
{
    let line_2: Option<String> = crate::member::normalize_optional(payload.line_2);
    models::Address {
        id: None,
        member_id,
        line_1: payload.line_1,
        line_2,
        postal_code: payload.postal_code,
        city: payload.city,
        country: payload.country,
    }
}

/// An optional field whose empty text stands for an absent value: the rule
/// the insert statements apply to an address's second line and to a member's
/// license and picture fields.
pub fn normalize_optional_field(o: Option<String>) -> (r: Option<String>)
    ensures
        o is None ==> r is None,
        o matches Some(s) ==> r == spec_normalize_string(s),
{
    match o {
        None => None,
        Some(s) => crate::member::normalize_optional(s),
    }
}

} // verus!
