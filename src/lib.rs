//! A staked two-player tic-tac-toe match: board rules, turn order and the
//! escrow that settles each round.
pub mod account;
pub mod board;
pub mod game;
pub mod laws;
