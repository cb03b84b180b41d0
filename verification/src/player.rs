use vstd::prelude::*;

use vstd::arithmetic::div_mod::lemma_div_is_ordered;
use vstd::arithmetic::div_mod::lemma_div_multiples_vanish;
use vstd::arithmetic::mul::lemma_mul_inequality;

use crate::bets::BetOutcome;
use crate::bets::BetType;
use crate::bets::SideBetType;
use crate::bets::calculate_multiplier_gain;
use crate::bets::lemma_gain_bounds;
use crate::bets::spec_bet_correct;
use crate::bets::spec_multiplier_gain;
use crate::bets::spec_side_bet_delta;
use crate::cards::Card;
use crate::cards::canonical_deck;
use crate::cards::is_red;
use crate::errors::ErrorCode;
use crate::shuffle::shuffle_deck;
use crate::shuffle::shuffled_order;

verus! {

/// Powers of four; each bet multiplies the round multiplier by at most 4.0x,
/// so these bound the accumulator.
pub open spec fn pow4(n: nat) -> nat
    decreases n,
{
    if n == 0 {
        1
    } else {
        4 * pow4((n - 1) as nat)
    }
}

proof fn lemma_pow4_mono(m: nat, n: nat)
    requires
        m <= n,
    ensures
        pow4(m) <= pow4(n),
    decreases n,
{
    if m < n {
        lemma_pow4_mono(m, (n - 1) as nat);
    }
}

/// One bet turns a multiplier of at most `100 * pow4(k)` into one of at most
/// `100 * pow4(k + 1)`, and the intermediate product stays well inside
/// `u128`.
proof fn lemma_multiplier_step(m: u128, g: u64, k: nat)
    requires
        k <= 50,
        m as nat <= 100 * pow4(k),
        100 <= g <= 400,
    ensures
        (m as int) * (g as int) <= u128::MAX,
        ((m as int) * (g as int)) / 100 <= 100 * pow4((k + 1) as nat),
{
    let mi = m as int;
    let gi = g as int;
    lemma_pow4_mono(k, 50);
    assert(pow4(50) == 1267650600228229401496703205376) by {
        reveal_with_fuel(pow4, 51);
    }
    lemma_mul_inequality(gi, 400, mi);
    lemma_mul_inequality(mi, 100 * pow4(k) as int, 400);
    assert(mi * gi <= 100 * (4 * mi));
    lemma_div_is_ordered(mi * gi, 100 * (4 * mi), 100);
    lemma_div_multiples_vanish(4 * mi, 100);
    assert(pow4((k + 1) as nat) == 4 * pow4(k));
}

/// One player's session. The round multiplier is held in hundredths as a
/// fixed-point integer — 100 stands for 1.0x — and each correct bet updates
/// it to `multiplier * gain / 100`, rounding down.
#[derive(Clone, Debug, PartialEq)]
pub struct Player {
    pub game_id: u64,
    pub start_time: i64,
    pub multiplier: u128,
    pub side_bet_score: i64,
    pub randomness: Option<u64>,
    pub deck: Vec<Card>,
    pub daily_games: u8,
    pub finished: bool,
}

impl Player {
    /// The session invariant. The deck never exceeds a full deck of 52; the
    /// multiplier is bounded by a 4.0x gain per card already drawn; the side
    /// bet score moves by one per card already drawn; and before any
    /// randomness arrives there is no deck, no side-bet history, and at most
    /// the starting 1.0x multiplier.
    pub open spec fn wf(self) -> bool {
        &&& self.deck@.len() <= 52
        &&& self.multiplier as nat <= 100 * pow4((52 - self.deck@.len()) as nat)
        &&& self.deck@.len() as int - 52 <= self.side_bet_score as int <= 52 - self.deck@.len() as int
        &&& (self.randomness is None ==> self.deck@.len() == 0 && self.side_bet_score == 0
            && self.multiplier <= 100)
    }

    /// A blank session, as a player record starts out: nothing drawn, no
    /// randomness, no rounds played today.
    pub fn new() -> (p: Player)
        ensures
            p.wf(),
            p.game_id == 0,
            p.start_time == 0,
            p.multiplier == 0,
            p.side_bet_score == 0,
            p.randomness is None,
            p.deck@ == Seq::<Card>::empty(),
            p.daily_games == 0,
            !p.finished,
    {
        let p = Player {
            game_id: 0,
            start_time: 0,
            multiplier: 0,
            side_bet_score: 0,
            randomness: None,
            deck: Vec::new(),
            daily_games: 0,
            finished: false,
        };
        proof {
            assert(p.deck@ =~= Seq::<Card>::empty());
        }
        p
    }
}

/// All fields of `b` besides the deck equal those of `a`.
pub open spec fn same_except_deck(a: Player, b: Player) -> bool {
    &&& a.game_id == b.game_id
    &&& a.start_time == b.start_time
    &&& a.multiplier == b.multiplier
    &&& a.side_bet_score == b.side_bet_score
    &&& a.randomness == b.randomness
    &&& a.daily_games == b.daily_games
    &&& a.finished == b.finished
}

/// The side-bet delta a resolved outcome carries, as a mathematical integer;
/// zero when no side bet was made.
pub open spec fn spec_side_delta_of(deck: Seq<Card>, side_bet: Option<SideBetType>) -> int {
    match side_bet {
        Some(sb) => spec_side_bet_delta(deck[0], sb) as int,
        None => 0,
    }
}

/// The outcome of resolving one draw against a deck of at least two cards.
pub open spec fn spec_outcome(deck: Seq<Card>, bet_type: BetType, side_bet: Option<SideBetType>) -> BetOutcome {
    BetOutcome {
        correct: spec_bet_correct(deck[0], deck[1], bet_type),
        multiplier_gain: spec_multiplier_gain(deck[0].value, bet_type),
        side_bet_result: match side_bet {
            Some(sb) => Some(spec_side_bet_delta(deck[0], sb)),
            None => None,
        },
    }
}

/// Stores the session's randomness and derives the deck from it. The
/// randomness is write-once: a second call fails with
/// `RandomnessAlreadyReceived` and leaves the session — the deck included —
/// exactly as it was.
pub fn receive_randomness(player: &mut Player, randomness: u64) -> (r: Result<(), ErrorCode>)
    requires
        old(player).wf(),
    ensures
        final(player).wf(),
        old(player).randomness is Some ==> r == Err::<(), ErrorCode>(
            ErrorCode::RandomnessAlreadyReceived,
        ) && *final(player) == *old(player),
        old(player).randomness is None ==> ({
            &&& r is Ok
            &&& final(player).randomness == Some(randomness)
            &&& final(player).deck@ == shuffled_order(canonical_deck(), randomness)
            &&& final(player).deck@.len() == 52
            &&& final(player).deck@.no_duplicates()
            &&& final(player).deck@.to_multiset() == canonical_deck().to_multiset()
            &&& final(player).game_id == old(player).game_id
            &&& final(player).start_time == old(player).start_time
            &&& final(player).multiplier == old(player).multiplier
            &&& final(player).side_bet_score == old(player).side_bet_score
            &&& final(player).daily_games == old(player).daily_games
            &&& final(player).finished == old(player).finished
        }),
{
    if player.randomness.is_some() {
        return Err(ErrorCode::RandomnessAlreadyReceived);
    }
    player.randomness = Some(randomness);
    player.deck = shuffle_deck(randomness);
    Ok(())
}

/// Starts a round: one of the ten allowed per day is consumed, the
/// multiplier returns to 1.0x and `finished` to false whatever the previous
/// round left behind, and the round is stamped with its id and start time.
/// Past the daily cap the call fails with `DailyLimitReached` and changes
/// nothing.
pub fn start_game(player: &mut Player, game_id: u64, now: i64) -> (r: Result<(), ErrorCode>)
    requires
        old(player).wf(),
    ensures
        final(player).wf(),
        old(player).daily_games >= 10 ==> r == Err::<(), ErrorCode>(ErrorCode::DailyLimitReached)
            && *final(player) == *old(player),
        old(player).daily_games < 10 ==> ({
            &&& r is Ok
            &&& final(player).daily_games == old(player).daily_games + 1
            &&& final(player).start_time == now
            &&& final(player).game_id == game_id
            &&& !final(player).finished
            &&& final(player).multiplier == 100
            &&& final(player).side_bet_score == old(player).side_bet_score
            &&& final(player).randomness == old(player).randomness
            &&& final(player).deck == old(player).deck
        }),
{
    if player.daily_games >= 10 {
        return Err(ErrorCode::DailyLimitReached);
    }
    player.daily_games = player.daily_games + 1;
    player.start_time = now;
    player.game_id = game_id;
    player.finished = false;
    player.multiplier = 100;
    proof {
        lemma_pow4_mono(0, (52 - player.deck@.len()) as nat);
    }
    Ok(())
}

/// Advances the round by one draw. The card on top of the deck is consumed
/// as the current card and compared against the card now on top: `High` is
/// correct only under a strictly greater rank, `Low` only under a strictly
/// smaller one, so a tie is incorrect either way. A side bet resolves
/// against the consumed card alone. With no card to consume the call fails
/// with `GameOver` and changes nothing; with no card left to compare against
/// it fails with `GameOver` after consuming the last card. The engine never
/// touches the multiplier, score or `finished` flag: applying the outcome is
/// the caller's business.
pub fn resolve_bet(player: &mut Player, bet_type: &BetType, side_bet: Option<SideBetType>) -> (r:
    Result<BetOutcome, ErrorCode>)
    requires
        old(player).wf(),
    ensures
        final(player).wf(),
        same_except_deck(*old(player), *final(player)),
        old(player).deck@.len() == 0 ==> r == Err::<BetOutcome, ErrorCode>(ErrorCode::GameOver)
            && *final(player) == *old(player),
        old(player).deck@.len() == 1 ==> r == Err::<BetOutcome, ErrorCode>(ErrorCode::GameOver)
            && final(player).deck@ == old(player).deck@.drop_first(),
        old(player).deck@.len() >= 2 ==> r == Ok::<BetOutcome, ErrorCode>(
            spec_outcome(old(player).deck@, *bet_type, side_bet),
        ) && final(player).deck@ == old(player).deck@.drop_first(),
{
    if player.deck.is_empty() {
        return Err(ErrorCode::GameOver);
    }
    let current_card = player.deck.remove(0);
    proof {
        assert(player.deck@ =~= old(player).deck@.drop_first());
        lemma_pow4_mono(
            (52 - old(player).deck@.len()) as nat,
            (52 - player.deck@.len()) as nat,
        );
    }
    if player.deck.is_empty() {
        return Err(ErrorCode::GameOver);
    }
    let next_card = player.deck[0];
    let correct = match bet_type {
        BetType::High => next_card.value > current_card.value,
        BetType::Low => next_card.value < current_card.value,
    };
    let multiplier_gain = calculate_multiplier_gain(current_card.value, *bet_type);
    let side_bet_result = match side_bet {
        Some(SideBetType::Color { red }) => {
            let card_is_red = is_red(current_card.suit);
            if red == card_is_red {
                Some(1i64)
            } else {
                Some(-1i64)
            }
        },
        Some(SideBetType::Parity { even }) => {
            let card_is_even = current_card.value % 2 == 0;
            if even == card_is_even {
                Some(1i64)
            } else {
                Some(-1i64)
            }
        },
        None => None,
    };
    Ok(BetOutcome { correct, multiplier_gain, side_bet_result })
}

/// Places one bet. Past the 60-second budget since the round started the
/// call fails with `BetTimeExpired`; on a finished round it fails with
/// `GameOver`; both leave the session untouched. Otherwise the draw is
/// resolved: a correct guess multiplies the fixed-point multiplier by the
/// table's gain (rounding down) and adds the side-bet delta to the score,
/// while a wrong guess — a tie included — freezes the round by setting
/// `finished` and reports `GameOver` with nothing else changed. The deck
/// loses its top card on every resolved draw, whatever the outcome.
pub fn place_bet(player: &mut Player, bet_type: BetType, side_bet: Option<SideBetType>, now: i64) -> (r:
    Result<(), ErrorCode>)
    requires
        old(player).wf(),
        i64::MIN <= now - old(player).start_time <= i64::MAX,
    ensures
        final(player).wf(),
        final(player).game_id == old(player).game_id,
        final(player).start_time == old(player).start_time,
        final(player).daily_games == old(player).daily_games,
        final(player).randomness == old(player).randomness,
        now - old(player).start_time > 60 ==> r == Err::<(), ErrorCode>(ErrorCode::BetTimeExpired)
            && *final(player) == *old(player),
        now - old(player).start_time <= 60 && old(player).finished ==> r == Err::<(), ErrorCode>(
            ErrorCode::GameOver,
        ) && *final(player) == *old(player),
        now - old(player).start_time <= 60 && !old(player).finished && old(player).deck@.len() == 0
            ==> r == Err::<(), ErrorCode>(ErrorCode::GameOver) && *final(player) == *old(player),
        now - old(player).start_time <= 60 && !old(player).finished && old(player).deck@.len() == 1
            ==> ({
            &&& r == Err::<(), ErrorCode>(ErrorCode::GameOver)
            &&& final(player).deck@ == old(player).deck@.drop_first()
            &&& final(player).multiplier == old(player).multiplier
            &&& final(player).side_bet_score == old(player).side_bet_score
            &&& !final(player).finished
        }),
        now - old(player).start_time <= 60 && !old(player).finished && old(player).deck@.len() >= 2
            && !spec_bet_correct(old(player).deck@[0], old(player).deck@[1], bet_type) ==> ({
            &&& r == Err::<(), ErrorCode>(ErrorCode::GameOver)
            &&& final(player).deck@ == old(player).deck@.drop_first()
            &&& final(player).multiplier == old(player).multiplier
            &&& final(player).side_bet_score == old(player).side_bet_score
            &&& final(player).finished
        }),
        now - old(player).start_time <= 60 && !old(player).finished && old(player).deck@.len() >= 2
            && spec_bet_correct(old(player).deck@[0], old(player).deck@[1], bet_type) ==> ({
            &&& r is Ok
            &&& final(player).deck@ == old(player).deck@.drop_first()
            &&& final(player).multiplier == old(player).multiplier as int * spec_multiplier_gain(
                old(player).deck@[0].value,
                bet_type,
            ) as int / 100
            &&& final(player).side_bet_score == old(player).side_bet_score + spec_side_delta_of(
                old(player).deck@,
                side_bet,
            )
            &&& !final(player).finished
        }),
{
    if now - player.start_time > 60 {
        return Err(ErrorCode::BetTimeExpired);
    }
    if player.finished {
        return Err(ErrorCode::GameOver);
    }
    let outcome = match resolve_bet(player, &bet_type, side_bet) {
        Ok(o) => o,
        Err(e) => {
            return Err(e);
        },
    };
    if !outcome.correct {
        player.finished = true;
        return Err(ErrorCode::GameOver);
    }
    proof {
        lemma_gain_bounds(old(player).deck@[0].value, bet_type);
        lemma_multiplier_step(
            player.multiplier,
            outcome.multiplier_gain,
            (52 - old(player).deck@.len()) as nat,
        );
    }
    player.multiplier = player.multiplier * (outcome.multiplier_gain as u128) / 100;
    match outcome.side_bet_result {
        Some(d) => {
            player.side_bet_score = player.side_bet_score + d;
        },
        None => {},
    }
    Ok(())
}

} // verus!
