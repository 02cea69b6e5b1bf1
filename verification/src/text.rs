//! The one string-building primitive the renderers use.

use vstd::prelude::*;

verus! {

/// Relies on `String::push_str` (std): appends the characters of `piece` to
/// `dst`, changing nothing else.
#[verifier::external_body]
pub(crate) fn push_str(dst: &mut String, piece: &str)
    ensures
        final(dst)@ == old(dst)@ + piece@,
{
    dst.push_str(piece);
}

} // verus!
