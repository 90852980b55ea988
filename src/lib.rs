//! Staked focus commitments: the session verifier, streak tracking and
//! settlement rules, as pure state transitions over plain records.
pub mod error;
pub mod time;
pub mod state;
pub mod commitment;
pub mod session;
pub mod initialize;
pub mod user;
pub mod guarantees;
