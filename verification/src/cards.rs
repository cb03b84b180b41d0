use vstd::prelude::*;

verus! {

/// The four suits of a standard deck.
#[derive(Clone, Copy, Debug, PartialEq, Eq, Structural)]
pub enum Suit {
    Hearts,
    Diamonds,
    Clubs,
    Spades,
}

/// One playing card. `value` is the rank: 2..=10 at face value, then
/// 11 = Jack, 12 = Queen, 13 = King, 14 = Ace.
#[derive(Clone, Copy, Debug, PartialEq, Eq, Structural)]
pub struct Card {
    pub suit: Suit,
    pub value: u8,
}

/// Hearts and Diamonds are the red suits.
pub open spec fn spec_is_red(suit: Suit) -> bool {
    suit == Suit::Hearts || suit == Suit::Diamonds
}

/// The suit at a given index of the canonical suit order.
pub open spec fn spec_suit_at(i: int) -> Suit {
    if i == 0 {
        Suit::Hearts
    } else if i == 1 {
        Suit::Diamonds
    } else if i == 2 {
        Suit::Clubs
    } else {
        Suit::Spades
    }
}

/// The canonical 52-card deck before shuffling: suit-major in the order
/// Hearts, Diamonds, Clubs, Spades, and rank-ascending 2..=14 within a suit.
pub open spec fn canonical_deck() -> Seq<Card> {
    Seq::new(52, |i: int| Card { suit: spec_suit_at(i / 13), value: (2 + i % 13) as u8 })
}

/// Whether a card is red, decidable in executable code.
pub fn is_red(suit: Suit) -> (r: bool)
    ensures
        r == spec_is_red(suit),
{
    match suit {
        Suit::Hearts => true,
        Suit::Diamonds => true,
        Suit::Clubs => false,
        Suit::Spades => false,
    }
}

fn suit_at(i: usize) -> (s: Suit)
    ensures
        s == spec_suit_at(i as int),
{
    if i == 0 {
        Suit::Hearts
    } else if i == 1 {
        Suit::Diamonds
    } else if i == 2 {
        Suit::Clubs
    } else {
        Suit::Spades
    }
}

/// Builds the canonical deck: 4 suits times 13 ranks, suit-major,
/// rank-ascending.
pub fn build_canonical_deck() -> (deck: Vec<Card>)
    ensures
        deck@ == canonical_deck(),
{
    let mut deck: Vec<Card> = Vec::new();
    let mut s: usize = 0;
    while s < 4
        invariant
            s <= 4,
            deck@.len() == s * 13,
            deck@ == canonical_deck().take((s * 13) as int),
        decreases 4 - s,
    {
        let suit = suit_at(s);
        let mut v: u8 = 2;
        while v < 15
            invariant
                s < 4,
                2 <= v <= 15,
                suit == spec_suit_at(s as int),
                deck@.len() == s * 13 + (v - 2),
                deck@ == canonical_deck().take((s * 13 + (v - 2)) as int),
            decreases 15 - v,
    {
            let ghost n = deck@.len() as int;
            proof {
                assert(n == s * 13 + (v - 2));
                assert(n / 13 == s && n % 13 == v - 2) by (nonlinear_arith)
                    requires
                        n == s * 13 + (v - 2),
                        s < 4,
                        2 <= v < 15,
                ;
                assert(canonical_deck()[n] == (Card { suit: spec_suit_at(s as int), value: v }));
            }
            deck.push(Card { suit, value: v });
            proof {
                assert(deck@ =~= canonical_deck().take(n + 1));
            }
            v = v + 1;
        }
        s = s + 1;
    }
    proof {
        assert(deck@ =~= canonical_deck());
    }
    deck
}

/// No two positions of the canonical deck hold the same card.
pub proof fn lemma_canonical_deck_no_duplicates()
    ensures
        canonical_deck().no_duplicates(),
{
    assert forall|i: int, j: int|
        0 <= i < 52 && 0 <= j < 52 && i != j implies canonical_deck()[i]
        != canonical_deck()[j] by {
        if canonical_deck()[i] == canonical_deck()[j] {
            assert(spec_suit_at(i / 13) == spec_suit_at(j / 13));
            assert(2 + i % 13 == 2 + j % 13);
            assert(0 <= i / 13 < 4 && 0 <= j / 13 < 4) by (nonlinear_arith)
                requires
                    0 <= i < 52 && 0 <= j < 52,
            ;
            assert(i / 13 == j / 13);
            assert(i == 13 * (i / 13) + i % 13 && j == 13 * (j / 13) + j % 13) by (nonlinear_arith);
            assert(i == j);
        }
    }
}

} // verus!
