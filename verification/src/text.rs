//! Small string helpers shared across the library.

use vstd::prelude::*;

verus! {

/// Compares two string slices by contents.
pub fn str_eq(a: &str, b: &str) -> (r: bool)
    ensures
        r == (a@ == b@),
{
    let sa: String = a.to_owned();
    let sb: String = b.to_owned();
    sa == sb
}

} // verus!
