//! An in-memory payments engine.
//!
//! The engine consumes an ordered stream of account operations (deposit,
//! withdrawal, dispute, resolve, chargeback) and maintains one ledger per
//! client account: an available balance, a held balance, a total balance and
//! a lock flag, together with the lifecycle state of every deposit and
//! withdrawal. Every handler is specified and verified: balances always
//! satisfy `total == available + held`, a lock is permanent, and each
//! transaction walks a fixed lifecycle state machine.

pub mod client;
pub mod error;
pub mod laws;
pub mod parser;
pub mod payments;
pub mod transaction;
