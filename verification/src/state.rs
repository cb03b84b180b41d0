use vstd::prelude::*;

use vstd::arithmetic::div_mod::lemma_div_is_ordered;
use vstd::arithmetic::div_mod::lemma_div_multiples_vanish;
use vstd::arithmetic::mul::lemma_mul_inequality;
use vstd::multiset::Multiset;

use crate::errors::ErrorCode;

verus! {

broadcast use vstd::seq_lib::group_to_multiset_ensures, vstd::multiset::group_multiset_axioms;

/// One finalized score on the leaderboard.
#[derive(Clone, Copy, Debug, PartialEq, Eq, Structural)]
pub struct LeaderboardEntry {
    pub player: u64,
    pub score: u64,
}

/// The administrator's singleton record: the game window, the entry fee, the
/// prize pool, and the leaderboard with its one-way `finalized` latch.
#[derive(Clone, Debug, PartialEq)]
pub struct State {
    pub admin: u64,
    pub entry_fee: u64,
    pub start_time: i64,
    pub end_time: i64,
    pub leaderboard_size: u8,
    pub leaderboard: Vec<LeaderboardEntry>,
    pub finalized: bool,
    pub finalized_timestamp: i64,
    pub pool: u64,
}

/// Scores appear highest first.
pub open spec fn sorted_desc(s: Seq<LeaderboardEntry>) -> bool {
    forall|i: int, j: int| 0 <= i <= j < s.len() ==> s[i].score >= s[j].score
}

/// The share of the pool a leaderboard position is owed, in percent:
/// 50 for the winner, then 30, then 20; nothing is payable past the third
/// slot.
pub open spec fn spec_prize_percentage(position: u8) -> u64 {
    if position == 0 {
        50
    } else if position == 1 {
        30
    } else {
        20
    }
}

/// Creates the game: the window must be non-empty (`start_time` strictly
/// before `end_time`) and the entry fee positive. The leaderboard starts
/// empty and open, with its fixed capacity of three paid slots, and the pool
/// starts empty.
pub fn initialize(admin: u64, start_time: i64, end_time: i64, entry_fee: u64) -> (r: Result<
    State,
    ErrorCode,
>)
    ensures
        start_time >= end_time ==> r == Err::<State, ErrorCode>(ErrorCode::InvalidStartTime),
        start_time < end_time && entry_fee == 0 ==> r == Err::<State, ErrorCode>(
            ErrorCode::InvalidEntryFee,
        ),
        start_time < end_time && entry_fee > 0 ==> ({
            &&& r is Ok
            &&& r->Ok_0.admin == admin
            &&& r->Ok_0.entry_fee == entry_fee
            &&& r->Ok_0.start_time == start_time
            &&& r->Ok_0.end_time == end_time
            &&& r->Ok_0.leaderboard_size == 3
            &&& r->Ok_0.leaderboard@ == Seq::<LeaderboardEntry>::empty()
            &&& !r->Ok_0.finalized
            &&& r->Ok_0.finalized_timestamp == 0
            &&& r->Ok_0.pool == 0
        }),
{
    if start_time >= end_time {
        return Err(ErrorCode::InvalidStartTime);
    }
    if entry_fee == 0 {
        return Err(ErrorCode::InvalidEntryFee);
    }
    let state = State {
        admin,
        entry_fee,
        start_time,
        end_time,
        leaderboard_size: 3,
        leaderboard: Vec::new(),
        finalized: false,
        finalized_timestamp: 0,
        pool: 0,
    };
    proof {
        assert(state.leaderboard@ =~= Seq::<LeaderboardEntry>::empty());
    }
    Ok(state)
}

/// Reorders the entries by score, highest first. Equal scores keep their
/// original relative order: each pass takes the earliest of the highest
/// remaining scores.
fn sort_leaderboard(entries: &mut Vec<LeaderboardEntry>)
    ensures
        sorted_desc(final(entries)@),
        final(entries)@.to_multiset() == old(entries)@.to_multiset(),
        final(entries)@.len() == old(entries)@.len(),
{
    let ghost orig = entries@;
    let mut out: Vec<LeaderboardEntry> = Vec::new();
    while entries.len() > 0
        invariant
            out@.to_multiset().add(entries@.to_multiset()) == orig.to_multiset(),
            out@.len() + entries@.len() == orig.len(),
            sorted_desc(out@),
            forall|i: int, j: int|
                0 <= i < out@.len() && 0 <= j < entries@.len() ==> out@[i].score
                    >= entries@[j].score,
        decreases entries@.len(),
    {
        let mut k: usize = 1;
        let mut m: usize = 0;
        while k < entries.len()
            invariant
                0 < entries@.len(),
                m < k <= entries@.len(),
                forall|j: int| 0 <= j < k ==> entries@[m as int].score >= entries@[j].score,
            decreases entries@.len() - k,
        {
            if entries[k].score > entries[m].score {
                m = k;
            }
            k = k + 1;
        }
        let ghost pre_entries = entries@;
        let ghost pre_out = out@;
        let e = entries.remove(m);
        out.push(e);
        proof {
            assert(pre_entries.contains(e));
            assert(out@.to_multiset().add(entries@.to_multiset()) =~= pre_out.to_multiset().add(
                pre_entries.to_multiset(),
            ));
            assert forall|i: int, j: int|
                0 <= i < out@.len() && 0 <= j < entries@.len() implies out@[i].score
                >= entries@[j].score by {
                assert(entries@[j] == pre_entries.remove(m as int)[j]);
                if j < m {
                    assert(entries@[j] == pre_entries[j]);
                } else {
                    assert(entries@[j] == pre_entries[j + 1]);
                }
            }
        }
    }
    proof {
        assert(entries@.to_multiset() =~= Multiset::<LeaderboardEntry>::empty());
        assert(out@.to_multiset() =~= out@.to_multiset().add(entries@.to_multiset()));
    }
    *entries = out;
}

/// Ranks and freezes the leaderboard: only the administrator may do it, and
/// only once — the `finalized` latch is one-way, and a second attempt is
/// refused like any other caller the operation is closed to. The entries are
/// sorted by score, highest first, truncated to the leaderboard's capacity,
/// and stamped with the time of finalization. Truncation of a leaderboard
/// already within capacity drops nothing.
pub fn finalize_leaderboard(state: &mut State, caller: u64, now: i64) -> (r: Result<(), ErrorCode>)
    ensures
        caller != old(state).admin || old(state).finalized ==> r == Err::<(), ErrorCode>(
            ErrorCode::Unauthorized,
        ) && *final(state) == *old(state),
        caller == old(state).admin && !old(state).finalized ==> ({
            &&& r is Ok
            &&& final(state).finalized
            &&& final(state).finalized_timestamp == now
            &&& sorted_desc(final(state).leaderboard@)
            &&& final(state).leaderboard@.len() == (if old(state).leaderboard@.len()
                <= old(state).leaderboard_size as nat {
                old(state).leaderboard@.len()
            } else {
                old(state).leaderboard_size as nat
            })
            &&& exists|s: Seq<LeaderboardEntry>|
                #![auto]
                sorted_desc(s) && s.to_multiset() == old(state).leaderboard@.to_multiset()
                    && final(state).leaderboard@ == s.take(final(state).leaderboard@.len() as int)
            &&& old(state).leaderboard@.len() <= old(state).leaderboard_size as nat
                ==> final(state).leaderboard@.to_multiset() == old(state).leaderboard@.to_multiset()
            &&& final(state).admin == old(state).admin
            &&& final(state).entry_fee == old(state).entry_fee
            &&& final(state).start_time == old(state).start_time
            &&& final(state).end_time == old(state).end_time
            &&& final(state).leaderboard_size == old(state).leaderboard_size
            &&& final(state).pool == old(state).pool
        }),
{
    if caller != state.admin {
        return Err(ErrorCode::Unauthorized);
    }
    if state.finalized {
        return Err(ErrorCode::Unauthorized);
    }
    sort_leaderboard(&mut state.leaderboard);
    let ghost sorted_full = state.leaderboard@;
    let leaderboard_size = state.leaderboard_size as usize;
    state.leaderboard.truncate(leaderboard_size);
    state.finalized = true;
    state.finalized_timestamp = now;
    proof {
        if sorted_full.len() <= leaderboard_size {
            assert(state.leaderboard@ == sorted_full);
        } else {
            assert(state.leaderboard@ == sorted_full.take(leaderboard_size as int));
        }
        assert(state.leaderboard@ == sorted_full.take(state.leaderboard@.len() as int));
    }
    Ok(())
}

/// Pays one leaderboard position its share of the pool. The leaderboard must
/// be finalized and the claim made within the 72-hour window — both gates
/// fail with the one `PrizeWindowExpired` code. The position must name an
/// existing slot and lie among the three paid ones, else `NotOnLeaderboard`.
/// The amount is `pool * percentage / 100` rounded down, in overflow-checked
/// arithmetic — an overflow fails with `ArithmeticError` and changes nothing.
/// On success the pool is debited by exactly the returned amount, which the
/// caller owes the requester's wallet; nothing is changed on any failure.
pub fn claim_prize(state: &mut State, position: u8, now: i64) -> (r: Result<u64, ErrorCode>)
    requires
        old(state).finalized ==> old(state).finalized_timestamp + 259200 <= i64::MAX,
    ensures
        final(state).admin == old(state).admin,
        final(state).entry_fee == old(state).entry_fee,
        final(state).start_time == old(state).start_time,
        final(state).end_time == old(state).end_time,
        final(state).leaderboard_size == old(state).leaderboard_size,
        final(state).leaderboard == old(state).leaderboard,
        final(state).finalized == old(state).finalized,
        final(state).finalized_timestamp == old(state).finalized_timestamp,
        !old(state).finalized ==> r == Err::<u64, ErrorCode>(ErrorCode::PrizeWindowExpired)
            && *final(state) == *old(state),
        old(state).finalized && now > old(state).finalized_timestamp + 259200
            ==> r == Err::<u64, ErrorCode>(ErrorCode::PrizeWindowExpired)
            && *final(state) == *old(state),
        old(state).finalized && now <= old(state).finalized_timestamp + 259200 && position
            >= old(state).leaderboard@.len() ==> r == Err::<u64, ErrorCode>(
            ErrorCode::NotOnLeaderboard,
        ) && *final(state) == *old(state),
        old(state).finalized && now <= old(state).finalized_timestamp + 259200 && position
            < old(state).leaderboard@.len() && position >= 3 ==> r == Err::<u64, ErrorCode>(
            ErrorCode::NotOnLeaderboard,
        ) && *final(state) == *old(state),
        old(state).finalized && now <= old(state).finalized_timestamp + 259200 && position
            < old(state).leaderboard@.len() && position < 3 ==> ({
            let percentage = spec_prize_percentage(position);
            if old(state).pool * percentage > u64::MAX {
                r == Err::<u64, ErrorCode>(ErrorCode::ArithmeticError)
                    && *final(state) == *old(state)
            } else {
                ({
                    &&& r is Ok
                    &&& r->Ok_0 == old(state).pool * percentage / 100
                    &&& final(state).pool == old(state).pool - old(state).pool * percentage / 100
                })
            }
        }),
{
    if !state.finalized {
        return Err(ErrorCode::PrizeWindowExpired);
    }
    if now > state.finalized_timestamp + 72 * 3600 {
        return Err(ErrorCode::PrizeWindowExpired);
    }
    if position as usize >= state.leaderboard.len() {
        return Err(ErrorCode::NotOnLeaderboard);
    }
    let prize_percentage: u64 = match position {
        0 => 50,
        1 => 30,
        2 => 20,
        _ => {
            return Err(ErrorCode::NotOnLeaderboard);
        },
    };
    let total = match state.pool.checked_mul(prize_percentage) {
        Some(t) => t,
        None => {
            return Err(ErrorCode::ArithmeticError);
        },
    };
    let amount = total / 100;
    proof {
        lemma_mul_inequality(prize_percentage as int, 100, state.pool as int);
        lemma_div_is_ordered(
            state.pool as int * prize_percentage as int,
            state.pool as int * 100,
            100,
        );
        lemma_div_multiples_vanish(state.pool as int, 100);
    }
    state.pool = state.pool - amount;
    Ok(amount)
}

} // verus!
