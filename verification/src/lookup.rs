//! Case-insensitive string matching for the lookup helpers.
//!
//! Some endpoints expose a convenience helper that scans a decoded list
//! for the first case-insensitive exact match against one field.  The
//! comparison itself is unicode case folding, done by an outside crate.

use vstd::prelude::*;

verus! {

/// What `unicase::eq` returns: whether two strings are equal when case is
/// ignored, by unicode folding; a function of the characters alone.
pub uninterp spec fn eq_ignore_case(a: Seq<char>, b: Seq<char>) -> bool;

/// Relies on `unicase::eq`: case-insensitive string equality using unicode
/// folding, depending on the two strings' characters alone.
#[verifier::external_body]
pub(crate) fn str_eq_ignore_case(a: &str, b: &str) -> (r: bool)
    ensures
        r == eq_ignore_case(a@, b@),
{
    unicase::eq(a, b)
}

} // verus!
