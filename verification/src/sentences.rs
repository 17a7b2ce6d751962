//! The greeting line: one of a fixed set of sentences, picked by a draw
//! from a caller-seeded generator.
use crate::random::{pcg_next, pcg_output, Rng};
use vstd::prelude::*;

verus! {

/// How many sentences there are to choose from.
pub const SENTENCE_COUNT: u32 = 7;

/// The sentence at a given index.
pub open spec fn sentence_at(i: int) -> Seq<char> {
    if i == 0 {
        "Don't work too hard. The sun will expand and engulf this CPU anyway."@
    } else if i == 1 {
        "Everything you do today will eventually be overwritten."@
    } else if i == 2 {
        "Nothing matters. Build good software anyway."@
    } else if i == 3 {
        "That is all."@
    } else if i == 4 {
        "The loop continues."@
    } else if i == 5 {
        "The universe has not noticed."@
    } else {
        "Try not to take it too seriously."@
    }
}

/// Pick the greeting: the sentence indexed by one draw of the generator,
/// reduced modulo the number of sentences.
pub fn welcome_message(rng: &mut Rng) -> (s: &'static str)
    ensures
        s@ == sentence_at((pcg_output(old(rng).state) % SENTENCE_COUNT) as int),
        final(rng).state == pcg_next(old(rng).state, old(rng).inc),
        final(rng).inc == old(rng).inc,
{
    let i = rng.gen_range(SENTENCE_COUNT);
    if i == 0 {
        "Don't work too hard. The sun will expand and engulf this CPU anyway."
    } else if i == 1 {
        "Everything you do today will eventually be overwritten."
    } else if i == 2 {
        "Nothing matters. Build good software anyway."
    } else if i == 3 {
        "That is all."
    } else if i == 4 {
        "The loop continues."
    } else if i == 5 {
        "The universe has not noticed."
    } else {
        "Try not to take it too seriously."
    }
}

} // verus!
