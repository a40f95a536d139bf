//! The wall clock.

use vstd::prelude::*;

verus! {

/// The current UTC time in RFC 3339 form, from `chrono::Utc::now()` and
/// `DateTime::to_rfc3339`. What it returns depends on the clock, so no
/// clause is stated of it.
#[verifier::external_body]
pub(crate) fn now_rfc3339() -> String {
    chrono::Utc::now().to_rfc3339()
}

} // verus!
