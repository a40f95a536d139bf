//! Fresh identifiers for records.

use vstd::prelude::*;

verus! {

/// The shape of a hyphenated UUID: 36 characters with `-` at the four
/// group boundaries.
pub open spec fn hyphenated_uuid_shape(s: Seq<char>) -> bool {
    &&& s.len() == 36
    &&& s[8] == '-'
    &&& s[13] == '-'
    &&& s[18] == '-'
    &&& s[23] == '-'
}

/// A random version-4 UUID in its hyphenated lowercase form, from
/// `uuid::Uuid::new_v4()` rendered by its `Display`. The value is random;
/// the contract states only its shape, which `Uuid`'s hyphenated
/// formatting fixes.
#[verifier::external_body]
pub(crate) fn new_uuid() -> (r: String)
    ensures
        hyphenated_uuid_shape(r@),
{
    uuid::Uuid::new_v4().to_string()
}

} // verus!
