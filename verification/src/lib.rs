//! Creator-economy ledger: a bonding-curve share market, time-locked staking
//! with weighted voting power, and a proposal state machine.
//!
//! `curve` holds the mathematics of the bonding curve and its laws.
//! `state` holds the records and the computations defined on them.
//! `instructions` holds the operations as pure decisions on records: each
//! takes the records and the time as plain values, says whether the
//! operation is rejected and why, and otherwise updates the records and
//! reports what has to move. `market`, `ballot` and `ledger` keep records
//! together under their keys and show that the operations leave them
//! consistent.

pub mod address;
pub mod ballot;
pub mod constants;
pub mod curve;
pub mod errors;
pub mod events;
pub mod instructions;
pub mod ledger;
pub mod market;
pub mod state;
pub mod text;
