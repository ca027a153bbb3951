//! Lowercasing of model identifiers. The normalization invariant of the
//! whole subsystem is that every surfaced id is the lowercase image of what
//! the backend or the operator wrote.

use vstd::prelude::*;

verus! {

/// Lowercase image of a character sequence, as the standard library computes
/// it. The result is a function of the characters alone.
pub uninterp spec fn lower_of(s: Seq<char>) -> Seq<char>;

/// Relies on str::to_lowercase: its result depends only on the input
/// characters.
#[verifier::external_body]
pub(crate) fn lowercase(s: &String) -> (r: String)
    ensures
        r@ == lower_of(s@),
{
    s.to_lowercase()
}

} // verus!
