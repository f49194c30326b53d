//! A two-phase (schedule / settle) executor for value-transfer operations
//! against two independent balance accounts, each tracking a spendable
//! amount and a separately tracked "cursed" (frozen) amount.
//!
//! Callers admit transactions one at a time with [`executor::Executor::schedule`],
//! which either enqueues the transaction or rejects it, and periodically drain
//! the pending batch with [`executor::Executor::settle`], which computes the
//! realized [`state::Effects`] of every pending transaction and commits a new
//! [`state::State`].

pub mod balance;
pub mod executor;
pub mod laws;
pub mod state;
pub mod transaction;
