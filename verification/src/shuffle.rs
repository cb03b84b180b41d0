use vstd::prelude::*;

use rand::SeedableRng;
use rand::seq::SliceRandom;

use crate::cards::Card;
use crate::cards::build_canonical_deck;
use crate::cards::canonical_deck;
use crate::cards::lemma_canonical_deck_no_duplicates;

verus! {

/// The order in which a seeded generator leaves a sequence of cards. The
/// order is a function of the cards and the seed alone; nothing more is
/// assumed about it.
pub uninterp spec fn shuffled_order(cards: Seq<Card>, seed: u64) -> Seq<Card>;

/// Relies on rand: `StdRng::seed_from_u64` builds a generator from the seed
/// alone, and `SliceRandom::shuffle` permutes the slice in place by
/// Durstenfeld's Fisher-Yates algorithm, drawing only from that generator.
/// In the pinned version both are pure integer computations, so the
/// resulting order is a deterministic function of the input cards and the
/// seed, and holds exactly the cards that went in.
#[verifier::external_body]
fn shuffle_with_seed(cards: &mut Vec<Card>, seed: u64)
    ensures
        final(cards)@ == shuffled_order(old(cards)@, seed),
        final(cards)@.to_multiset() == old(cards)@.to_multiset(),
        final(cards)@.len() == old(cards)@.len(),
{
    let mut rng = rand::rngs::StdRng::seed_from_u64(seed);
    cards.shuffle(&mut rng);
}

/// Turns a 64-bit seed into a full ordering of the 52 canonical cards: the
/// result is a permutation of the canonical deck — length 52, no card
/// repeated, no card missing — and the same seed always yields the same
/// order.
pub fn shuffle_deck(randomness: u64) -> (deck: Vec<Card>)
    ensures
        deck@ == shuffled_order(canonical_deck(), randomness),
        deck@.to_multiset() == canonical_deck().to_multiset(),
        deck@.len() == 52,
        deck@.no_duplicates(),
{
    let mut deck = build_canonical_deck();
    shuffle_with_seed(&mut deck, randomness);
    proof {
        lemma_canonical_deck_no_duplicates();
        canonical_deck().lemma_multiset_has_no_duplicates();
        deck@.lemma_multiset_has_no_duplicates_conv();
    }
    deck
}

} // verus!
