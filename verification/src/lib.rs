//! A deterministic raffle-round manager: round lifecycle, participant
//! admission, pseudo-random winner selection and weighted payout computation.
//!
//! The state machine is pure: every time-based decision takes the caller's
//! clock as an argument, and the winner draw is seeded from a cryptographic
//! hash of the closing context, so replaying the same inputs always yields
//! the same state and the same transfer instructions.

pub mod bytes;
pub mod contract;
pub mod error;
pub mod msg;
pub mod rng;
pub mod state;
pub mod sum;

pub use error::ContractError;
