//! Stored records whose tables key by 128-bit identifiers.

use vstd::prelude::*;

verus! {

/// A stored postal address, owned by exactly one member.
#[derive(Debug)]
pub struct Address {
    pub id: Option<u128>,
    pub member_id: u128,
    pub line_1: String,
    pub line_2: Option<String>,
    pub postal_code: String,
    pub city: String,
    pub country: String,
}

} // verus!
