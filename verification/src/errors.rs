use vstd::prelude::*;

verus! {

/// Every way an operation of the game can fail. `GameOver` doubles as the
/// normal terminal signal of a round: the session commits its `finished`
/// transition even though the call reports this error.
#[derive(Clone, Copy, Debug, PartialEq, Eq, Structural)]
pub enum ErrorCode {
    /// The configured window would be empty: start time is not before end time.
    InvalidStartTime,
    /// The entry fee is zero.
    InvalidEntryFee,
    /// The player already started the maximum number of rounds today.
    DailyLimitReached,
    /// The session's randomness is write-once and was already set.
    RandomnessAlreadyReceived,
    /// More than the allowed number of seconds passed since the round started.
    BetTimeExpired,
    /// The round is over: a wrong guess, or no cards left to compare.
    GameOver,
    /// The leaderboard is not finalized yet, or the claim window has closed.
    PrizeWindowExpired,
    /// The requested position does not name a payable leaderboard slot.
    NotOnLeaderboard,
    /// The prize computation overflowed.
    ArithmeticError,
    /// The caller is not allowed to perform this administrative action.
    Unauthorized,
}

} // verus!
