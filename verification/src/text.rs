//! Comparison of names and source text.

use vstd::prelude::*;

verus! {

/// Trusted: `str`'s `==` from the standard library, which holds exactly when
/// the two slices consist of the same characters.
#[verifier::external_body]
pub(crate) fn str_eq(left: &str, right: &str) -> (same: bool)
    ensures
        same == (left@ == right@),
{
    left == right
}

} // verus!
