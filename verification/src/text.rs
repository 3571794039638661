//! Comparison of string slices by their characters.

use vstd::prelude::*;

verus! {

/// Specifies `<str as PartialEq>::eq` of the standard library: two string
/// slices compare equal exactly when they hold the same sequence of
/// characters. Verus takes this on trust.
pub assume_specification[ <str as PartialEq>::eq ](a: &str, b: &str) -> (r: bool)
    ensures
        r == (a@ == b@),
;

} // verus!
