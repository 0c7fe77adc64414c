//! Fresh random identifiers.

use vstd::prelude::*;

verus! {

/// Whether `s` has the shape of a hyphenated UUID: 36 characters with hyphens at
/// positions 8, 13, 18 and 23.
pub open spec fn hyphenated_shape(s: Seq<char>) -> bool {
    &&& s.len() == 36
    &&& s[8] == '-'
    &&& s[13] == '-'
    &&& s[18] == '-'
    &&& s[23] == '-'
}

/// Calls `uuid::Uuid::new_v4` and renders it with `Display`, which writes the
/// hyphenated lower-case form (`Hyphenated::LENGTH` = 36 characters). The value is random.
#[verifier::external_body]
pub(crate) fn new_id_string() -> (s: String)
    ensures
        hyphenated_shape(s@),
{
    uuid::Uuid::new_v4().to_string()
}

/// Calls `uuid::Uuid::new_v4` and returns its 128-bit value. The value is random.
#[verifier::external_body]
pub(crate) fn new_id() -> (id: u128) {
    uuid::Uuid::new_v4().as_u128()
}

} // verus!
