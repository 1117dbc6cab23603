//! A single-slot escrow: one account locks a balance and later redeems it
//! by presenting the agreed phrase.
//!
//! [`model`] states the rules over mathematical values, [`escrow`] holds the
//! escrow that follows them, and [`laws`] what the rules imply. The escrow
//! reads nothing from the chain that hosts it: who calls and what they sent
//! are arguments, and the transfer is a function that the caller hands in.
//! A successful operation returns the notification that is due to the event
//! sink; to emit it is left to the caller.

pub mod account;
pub mod error;
pub mod escrow;
pub mod event;
pub mod laws;
pub mod model;

pub use account::{AccountId, Balance};
pub use error::Error;
pub use escrow::LockUnlockSmartContract;
pub use event::{Locked, Redeemed};
pub use model::Deposit;
