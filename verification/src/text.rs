//! Comparing text.

use vstd::prelude::*;

verus! {

/// `==` of two string slices, as `str` has it from std: true exactly when
/// both hold the same characters in the same order. Not proved.
#[verifier::external_body]
pub(crate) fn str_eq(a: &str, b: &str) -> (same: bool)
    ensures
        same == (a@ == b@),
{
    a == b
}

} // verus!
