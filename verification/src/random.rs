//! Randomness for shuffling, from the `rand` crate.

use vstd::prelude::*;
use rand::seq::SliceRandom;
use rand::rngs::ThreadRng;
use crate::subsonic::Child;

verus! {

#[verifier::external_type_specification]
#[verifier::external_body]
pub struct ExThreadRng(ThreadRng);

/// `rand::thread_rng`: a handle to the thread's random number generator.
/// Nothing is claimed of its state.
#[verifier::external_body]
pub(crate) fn thread_rng() -> ThreadRng {
    rand::thread_rng()
}

/// `SliceRandom::shuffle` on a list of songs. rand shuffles by swapping
/// elements (Fisher-Yates), so the list afterwards holds the same songs, each
/// as often as before; which order comes out depends on the generator and is
/// not stated.
#[verifier::external_body]
pub(crate) fn shuffle_songs(songs: &mut Vec<Child>, rng: &mut ThreadRng)
    ensures
        final(songs)@.to_multiset() == old(songs)@.to_multiset(),
{
    songs.shuffle(rng);
}

} // verus!
