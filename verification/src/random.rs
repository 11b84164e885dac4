//! Random choices, drawn from the thread-local generator of `rand`.

use vstd::prelude::*;
use rand::Rng;

verus! {

/// `rand::thread_rng().gen_range(0..n)`: a number drawn uniformly below
/// `n`. `gen_range` panics on an empty range, so `n` must be positive;
/// that the result lies in the range is all that is stated, since the
/// value itself is random.
#[verifier::external_body]
pub(crate) fn random_index(n: usize) -> (res: usize)
    requires
        n > 0,
    ensures
        res < n,
{
    rand::thread_rng().gen_range(0..n)
}

/// One of the given glyphs, drawn at random.
pub fn pick_glyph(glyphs: &Vec<char>) -> (res: char)
    requires
        glyphs@.len() > 0,
    ensures
        glyphs@.contains(res),
{
    let i = random_index(glyphs.len());
    glyphs[i]
}

} // verus!
