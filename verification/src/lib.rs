//! A pooled-wagering escrow ledger.
//!
//! Participants stake value for or against a binary proposition ("will this
//! commitment be fulfilled by its deadline?"). The pool is split among
//! bettors and up to three ranked proof submitters by fixed formulas once the
//! proposition either completes with winners or expires.
//!
//! This crate is the settlement core alone: the proposition state machine,
//! the ledger records, and the payout arithmetic, each with a verified
//! contract. The host that runs it supplies the clock, moves value in and out
//! of escrow, and stores the records; every operation here takes the current
//! time and the relevant records as plain values and reports the exact amount
//! the host must transfer.

pub mod errors;
pub mod laws;
pub mod lifecycle;
pub mod settlement;
pub mod state;
