pub mod bets;
pub mod cards;
pub mod errors;
pub mod player;
pub mod shuffle;
pub mod state;
