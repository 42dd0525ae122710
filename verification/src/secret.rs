//! Comparison of secret material.

use vstd::prelude::*;

verus! {

/// Trusted: `constant_time_eq::constant_time_eq` answers `true` exactly when the two
/// slices have the same length and the same bytes. Its running time, which does not
/// depend on where the slices differ, is not part of what is stated here.
pub assume_specification[ constant_time_eq::constant_time_eq ](a: &[u8], b: &[u8]) -> (equal: bool)
    ensures
        equal == (a@ == b@),
;

/// Tells whether `a` and `b` are the same byte string, without leaving early at the
/// first difference. No other comparison is applied to a secret.
pub fn eq_ct(a: &[u8], b: &[u8]) -> (equal: bool)
    ensures
        equal == (a@ == b@),
{
    constant_time_eq::constant_time_eq(a, b)
}

} // verus!
