//! The error taxonomy of the harness. Every failure is fatal to the
//! scenario: there is no retry or partial-success reporting.

use vstd::prelude::*;

verus! {

/// Names a single consistency rule, so that a violation can report
/// which comparison failed.
#[derive(Clone, Copy, PartialEq, Eq, Structural, Debug)]
pub enum Rule {
    /// The queried snapshot's asset type must equal the tracked one.
    AssetType,
    /// Transfer, sender side: coin-object count unchanged.
    SenderCount,
    /// Transfer, sender side: total moved by the effects' delta.
    SenderBalance,
    /// Transfer, recipient side: a fresh recipient owns exactly one coin.
    RecipientCount,
    /// Transfer, recipient side: the recipient's credit is positive.
    RecipientAmount,
    /// Transfer, recipient side: total equals the credited amount.
    RecipientBalance,
    /// Stake: exactly one coin object is consumed.
    StakeCount,
    /// Stake: total moved by the effects' delta.
    StakeBalance,
}

/// The scenario step in which a failure occurred.
#[derive(Clone, Copy, PartialEq, Eq, Structural, Debug)]
pub enum Step {
    Fund,
    Transfer,
    Stake,
    Publish,
    Mint,
}

/// Why a step failed.
#[derive(Clone, Copy, PartialEq, Eq, Structural, Debug)]
pub enum TestFailure {
    /// The ledger client failed (network, RPC, rejected transaction).
    Collaborator,
    /// No balance-change entry exists for the expected owner filter.
    MissingDelta,
    /// More than one balance-change entry matches the owner filter;
    /// the harness never averages or picks one arbitrarily.
    AmbiguousDelta,
    /// A created object expected from a publish (package, capability)
    /// could not be uniquely located among the effects.
    MissingArtifact,
    /// A consistency rule failed: the named comparison saw `observed`
    /// where `expected` was predicted (for `AssetType`, the values are
    /// the two asset-type identifiers).
    Consistency { rule: Rule, expected: u128, observed: u128 },
    /// The value a rule predicts falls outside its unsigned domain
    /// (a negative or overflowing balance, a count below zero, or a
    /// non-positive recipient credit), so no snapshot can match it.
    PredictedOutOfRange { rule: Rule },
}

/// A step failure annotated with the step it occurred in; the first
/// one encountered aborts the scenario.
#[derive(Clone, Copy, PartialEq, Eq, Structural, Debug)]
pub struct StepFailure {
    pub step: Step,
    pub failure: TestFailure,
}

} // verus!
