//! Verified string comparison, shared by the modules that match names and
//! digests against fixed lists.

use vstd::prelude::*;

verus! {

/// Compares two string slices for equality of contents.
pub fn str_eq(a: &str, b: &str) -> (r: bool)
    ensures
        r <==> a@ == b@,
{
    let sa: String = a.to_owned();
    let sb: String = b.to_owned();
    sa == sb
}

} // verus!
