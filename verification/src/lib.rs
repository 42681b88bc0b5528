//! Escrow core of a press-your-luck diving game.
//!
//! A player stakes a bet and dives round after round. Each dive multiplies the
//! treasure and lowers the chance of surviving the next one. The house keeps a
//! ledger of what it has promised to the sessions that are still open, so that
//! it can never owe more than it set aside.

pub mod conservation;
pub mod errors;
pub mod states;
pub mod game_math;
pub mod rng;
pub mod instructions;
