//! String building for display labels and log lines.

use vstd::prelude::*;

verus! {

/// Relies on alloc's `format!`: the result is the characters of the
/// left string followed by the characters of the right string.
#[verifier::external_body]
pub(crate) fn concat_str(a: &str, b: &str) -> (r: String)
    ensures
        r@ == a@ + b@,
{
    format!("{}{}", a, b)
}

} // verus!
