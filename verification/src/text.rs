//! Comparing strings.

use vstd::prelude::*;

verus! {

/// `str::eq`, the `==` of string slices: two strings are equal exactly when
/// they hold the same characters. Taken on trust from the standard library.
#[verifier::external_body]
pub(crate) fn str_eq(a: &str, b: &str) -> (same: bool)
    ensures
        same == (a@ == b@),
{
    a == b
}

} // verus!
