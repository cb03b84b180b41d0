use vstd::prelude::*;

use crate::cards::Card;
use crate::cards::spec_is_red;

verus! {

/// The primary prediction: the next card's rank is strictly higher or
/// strictly lower than the current card's rank.
#[derive(Clone, Copy, Debug, PartialEq, Eq, Structural)]
pub enum BetType {
    High,
    Low,
}

/// An optional secondary prediction about the current card alone: its color,
/// or the parity of its rank.
#[derive(Clone, Copy, Debug, PartialEq, Eq, Structural)]
pub enum SideBetType {
    Color { red: bool },
    Parity { even: bool },
}

/// What one resolved draw reports: whether the primary prediction held, the
/// multiplier gain the payout table assigns to this turn (in hundredths, so
/// 150 means a 1.5x gain), and the side-bet delta, when a side bet was made.
#[derive(Clone, Copy, Debug, PartialEq, Eq)]
pub struct BetOutcome {
    pub correct: bool,
    pub multiplier_gain: u64,
    pub side_bet_result: Option<i64>,
}

/// The fixed payout table, in hundredths of the multiplier gain: 120 stands
/// for 1.2x. Ranks far below the median pay little for `High` and much for
/// `Low`, ranks near the median pay modestly either way, and the ace pays a
/// flat 1.2x. Any rank outside 2..=14 yields a neutral 1.0x; deck
/// construction makes that case unreachable.
pub open spec fn spec_multiplier_gain(value: u8, bet_type: BetType) -> u64 {
    if value == 2 {
        if bet_type == BetType::High { 120 } else { 400 }
    } else if value == 3 {
        if bet_type == BetType::High { 125 } else { 350 }
    } else if value == 4 {
        if bet_type == BetType::High { 130 } else { 300 }
    } else if value == 5 {
        if bet_type == BetType::High { 135 } else { 250 }
    } else if value == 6 {
        if bet_type == BetType::High { 140 } else { 200 }
    } else if value == 7 {
        if bet_type == BetType::High { 150 } else { 170 }
    } else if value == 8 {
        if bet_type == BetType::High { 160 } else { 160 }
    } else if value == 9 {
        if bet_type == BetType::High { 180 } else { 160 }
    } else if value == 10 {
        if bet_type == BetType::High { 200 } else { 150 }
    } else if value == 11 {
        if bet_type == BetType::High { 250 } else { 140 }
    } else if value == 12 {
        if bet_type == BetType::High { 300 } else { 130 }
    } else if value == 13 {
        if bet_type == BetType::High { 400 } else { 120 }
    } else if value == 14 {
        120
    } else {
        100
    }
}

/// The primary prediction holds only under a strict rank inequality; a tie
/// is incorrect for both directions.
pub open spec fn spec_bet_correct(current: Card, next: Card, bet_type: BetType) -> bool {
    match bet_type {
        BetType::High => next.value > current.value,
        BetType::Low => next.value < current.value,
    }
}

/// The side-bet delta against the current card: +1 when the prediction
/// matches, -1 when it does not.
pub open spec fn spec_side_bet_delta(current: Card, side_bet: SideBetType) -> i64 {
    match side_bet {
        SideBetType::Color { red } => if red == spec_is_red(current.suit) {
            1i64
        } else {
            -1i64
        },
        SideBetType::Parity { even } => if even == (current.value % 2 == 0) {
            1i64
        } else {
            -1i64
        },
    }
}

/// The payout table, as executable code. The values are hundredths of the
/// multiplier gain.
pub fn calculate_multiplier_gain(current_card_value: u8, bet_type: BetType) -> (gain: u64)
    ensures
        gain == spec_multiplier_gain(current_card_value, bet_type),
{
    match current_card_value {
        2 => match bet_type {
            BetType::High => 120,
            BetType::Low => 400,
        },
        3 => match bet_type {
            BetType::High => 125,
            BetType::Low => 350,
        },
        4 => match bet_type {
            BetType::High => 130,
            BetType::Low => 300,
        },
        5 => match bet_type {
            BetType::High => 135,
            BetType::Low => 250,
        },
        6 => match bet_type {
            BetType::High => 140,
            BetType::Low => 200,
        },
        7 => match bet_type {
            BetType::High => 150,
            BetType::Low => 170,
        },
        8 => match bet_type {
            BetType::High => 160,
            BetType::Low => 160,
        },
        9 => match bet_type {
            BetType::High => 180,
            BetType::Low => 160,
        },
        10 => match bet_type {
            BetType::High => 200,
            BetType::Low => 150,
        },
        11 => match bet_type {
            BetType::High => 250,
            BetType::Low => 140,
        },
        12 => match bet_type {
            BetType::High => 300,
            BetType::Low => 130,
        },
        13 => match bet_type {
            BetType::High => 400,
            BetType::Low => 120,
        },
        14 => 120,
        _ => 100,
    }
}

/// No gain of the payout table exceeds 4.0x, and every gain is at least 1.0x.
pub proof fn lemma_gain_bounds(value: u8, bet_type: BetType)
    ensures
        100 <= spec_multiplier_gain(value, bet_type) <= 400,
{
}

/// A tie — the current and the next card share a rank — resolves as
/// incorrect for both directions.
pub proof fn lemma_tie_is_incorrect(current: Card, next: Card)
    requires
        current.value == next.value,
    ensures
        !spec_bet_correct(current, next, BetType::High),
        !spec_bet_correct(current, next, BetType::Low),
{
}

} // verus!
