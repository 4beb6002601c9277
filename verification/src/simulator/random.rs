//! The generators behind the dice and the deck. Verus sees them as opaque
//! values; what is claimed of them here is taken on trust.

use vstd::prelude::*;
use crate::simulator::cards::Card;

verus! {

#[verifier::external_type_specification]
#[verifier::external_body]
pub struct ExBiski64Rng(biski64::Biski64Rng);

#[verifier::external_type_specification]
#[verifier::external_body]
pub struct ExXoshiro256PlusPlus(rand_xoshiro::Xoshiro256PlusPlus);

/// `rand::random::<u64>()`: a number from the thread's own generator.
/// Nothing is claimed of it.
#[verifier::external_body]
pub(crate) fn fresh_seed() -> u64 {
    rand::random()
}

/// `Biski64Rng::seed_from_u64`: the generator for dice that `seed` starts.
/// Nothing is claimed of it.
#[verifier::external_body]
pub(crate) fn dice_rng(seed: u64) -> biski64::Biski64Rng {
    <biski64::Biski64Rng as rand::SeedableRng>::seed_from_u64(seed)
}

/// `Xoshiro256PlusPlus::seed_from_u64`: the generator for shuffles that
/// `seed` starts. Nothing is claimed of it.
#[verifier::external_body]
pub(crate) fn deck_rng(seed: u64) -> rand_xoshiro::Xoshiro256PlusPlus {
    <rand_xoshiro::Xoshiro256PlusPlus as rand::SeedableRng>::seed_from_u64(seed)
}

/// `Rng::random_range(1..=sides)`: one face of a die with `sides` sides.
/// The range must not be empty; the face lies in it.
#[verifier::external_body]
pub(crate) fn random_face(rng: &mut biski64::Biski64Rng, sides: u8) -> (face: u8)
    requires
        sides >= 1,
    ensures
        1 <= face <= sides,
{
    rand::Rng::random_range(rng, 1..=sides)
}

/// `SliceRandom::shuffle`: reorders the cards in place. The same cards are
/// there afterwards, each as often as before.
#[verifier::external_body]
pub(crate) fn shuffle(cards: &mut Vec<Card>, rng: &mut rand_xoshiro::Xoshiro256PlusPlus)
    ensures
        final(cards)@.to_multiset() == old(cards)@.to_multiset(),
{
    rand::seq::SliceRandom::shuffle(cards.as_mut_slice(), rng)
}

} // verus!
