use degame::errors::ErrorCode;
use degame::state::LeaderboardEntry;
use degame::state::State;
use degame::state::claim_prize;
use degame::state::finalize_leaderboard;
use degame::state::initialize;

fn entry(player: u64, score: u64) -> LeaderboardEntry {
    LeaderboardEntry { player, score }
}

fn state_with_leaderboard(entries: Vec<LeaderboardEntry>) -> State {
    let mut state = initialize(1, 0, 1_000, 10).unwrap();
    state.leaderboard = entries;
    state
}

#[test]
fn initialize_rejects_an_empty_window() {
    assert_eq!(initialize(1, 50, 50, 10), Err(ErrorCode::InvalidStartTime));
    assert_eq!(initialize(1, 60, 50, 10), Err(ErrorCode::InvalidStartTime));
}

#[test]
fn initialize_rejects_a_zero_entry_fee() {
    assert_eq!(initialize(1, 0, 1_000, 0), Err(ErrorCode::InvalidEntryFee));
}

#[test]
fn initialize_sets_up_an_open_empty_game() {
    let state = initialize(7, 10, 20, 5).unwrap();
    assert_eq!(state.admin, 7);
    assert_eq!(state.entry_fee, 5);
    assert_eq!(state.start_time, 10);
    assert_eq!(state.end_time, 20);
    assert_eq!(state.leaderboard_size, 3);
    assert!(state.leaderboard.is_empty());
    assert!(!state.finalized);
    assert_eq!(state.finalized_timestamp, 0);
    assert_eq!(state.pool, 0);
}

#[test]
fn finalize_requires_the_admin() {
    let mut state = state_with_leaderboard(vec![entry(5, 10)]);
    assert_eq!(finalize_leaderboard(&mut state, 2, 100), Err(ErrorCode::Unauthorized));
    assert!(!state.finalized);
}

#[test]
fn finalize_sorts_descending_and_truncates_to_capacity() {
    let mut state = state_with_leaderboard(vec![
        entry(10, 5),
        entry(11, 40),
        entry(12, 12),
        entry(13, 33),
        entry(14, 99),
    ]);
    assert_eq!(finalize_leaderboard(&mut state, 1, 777), Ok(()));
    assert!(state.finalized);
    assert_eq!(state.finalized_timestamp, 777);
    assert_eq!(state.leaderboard, vec![entry(14, 99), entry(11, 40), entry(13, 33)]);
}

#[test]
fn finalize_keeps_equal_scores_in_their_original_order() {
    let mut state = state_with_leaderboard(vec![entry(21, 8), entry(22, 9), entry(23, 8)]);
    assert_eq!(finalize_leaderboard(&mut state, 1, 0), Ok(()));
    assert_eq!(state.leaderboard, vec![entry(22, 9), entry(21, 8), entry(23, 8)]);
}

#[test]
fn finalize_of_a_short_leaderboard_drops_nothing() {
    let mut state = state_with_leaderboard(vec![entry(5, 1), entry(6, 2)]);
    assert_eq!(finalize_leaderboard(&mut state, 1, 0), Ok(()));
    assert_eq!(state.leaderboard, vec![entry(6, 2), entry(5, 1)]);
}

#[test]
fn a_second_finalize_is_rejected() {
    let mut state = state_with_leaderboard(vec![entry(5, 1)]);
    assert_eq!(finalize_leaderboard(&mut state, 1, 50), Ok(()));
    assert_eq!(finalize_leaderboard(&mut state, 1, 60), Err(ErrorCode::Unauthorized));
    assert_eq!(state.finalized_timestamp, 50);
    assert_eq!(state.leaderboard, vec![entry(5, 1)]);
}

#[test]
fn claim_pays_half_of_the_pool_to_the_winner() {
    let mut state = state_with_leaderboard(vec![entry(5, 9), entry(6, 8), entry(7, 7)]);
    assert_eq!(finalize_leaderboard(&mut state, 1, 0), Ok(()));
    state.pool = 100;
    assert_eq!(claim_prize(&mut state, 0, 10), Ok(50));
    assert_eq!(state.pool, 50);
}

#[test]
fn claim_rounds_the_share_down() {
    let mut state = state_with_leaderboard(vec![entry(5, 9), entry(6, 8), entry(7, 7)]);
    assert_eq!(finalize_leaderboard(&mut state, 1, 0), Ok(()));
    state.pool = 99;
    assert_eq!(claim_prize(&mut state, 2, 10), Ok(19));
    assert_eq!(state.pool, 80);
}

#[test]
fn claim_pays_thirty_percent_to_the_second_slot() {
    let mut state = state_with_leaderboard(vec![entry(5, 9), entry(6, 8)]);
    assert_eq!(finalize_leaderboard(&mut state, 1, 0), Ok(()));
    state.pool = 1_000;
    assert_eq!(claim_prize(&mut state, 1, 10), Ok(300));
    assert_eq!(state.pool, 700);
}

#[test]
fn claim_before_finalize_reports_an_expired_window() {
    let mut state = state_with_leaderboard(vec![entry(5, 9)]);
    state.pool = 100;
    assert_eq!(claim_prize(&mut state, 0, 10), Err(ErrorCode::PrizeWindowExpired));
    assert_eq!(state.pool, 100);
}

#[test]
fn claim_after_seventy_two_hours_reports_an_expired_window() {
    let mut state = state_with_leaderboard(vec![entry(5, 9)]);
    assert_eq!(finalize_leaderboard(&mut state, 1, 1_000), Ok(()));
    state.pool = 100;
    assert_eq!(claim_prize(&mut state, 0, 1_000 + 72 * 3600 + 1), Err(ErrorCode::PrizeWindowExpired));
    assert_eq!(state.pool, 100);
    assert_eq!(claim_prize(&mut state, 0, 1_000 + 72 * 3600), Ok(50));
}

#[test]
fn claim_of_a_missing_slot_is_not_on_the_leaderboard() {
    let mut state = state_with_leaderboard(vec![entry(5, 9), entry(6, 8)]);
    assert_eq!(finalize_leaderboard(&mut state, 1, 0), Ok(()));
    state.pool = 100;
    assert_eq!(claim_prize(&mut state, 2, 10), Err(ErrorCode::NotOnLeaderboard));
    assert_eq!(state.pool, 100);
}

#[test]
fn claim_of_a_slot_past_the_third_is_not_payable() {
    let mut state = state_with_leaderboard(vec![
        entry(5, 9),
        entry(6, 8),
        entry(7, 7),
        entry(8, 6),
    ]);
    state.finalized = true;
    state.finalized_timestamp = 0;
    state.pool = 100;
    assert_eq!(claim_prize(&mut state, 3, 10), Err(ErrorCode::NotOnLeaderboard));
    assert_eq!(state.pool, 100);
}

#[test]
fn claim_reports_overflow_and_changes_nothing() {
    let mut state = state_with_leaderboard(vec![entry(5, 9)]);
    assert_eq!(finalize_leaderboard(&mut state, 1, 0), Ok(()));
    state.pool = u64::MAX;
    assert_eq!(claim_prize(&mut state, 0, 10), Err(ErrorCode::ArithmeticError));
    assert_eq!(state.pool, u64::MAX);
}
