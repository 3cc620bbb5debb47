//! A balance-consistency verification harness for a ledger's coin index.
//!
//! The harness drives a fixed scenario — fund an account from a faucet,
//! transfer a coin to a fresh recipient, delegate a stake, then publish a
//! token package and mint from it — and checks after every step that the
//! coin index's reported aggregates (coin-object count, total balance)
//! agree with the deltas implied by the transaction's recorded effects.
//!
//! The ledger client itself (submission, finality waits, queries) is an
//! external collaborator; this crate holds the data model, the delta
//! extraction, the consistency rules, and the scenario state machine, all
//! verified.

pub mod effects;
pub mod failure;
pub mod model;
pub mod rules;
pub mod scenario;
