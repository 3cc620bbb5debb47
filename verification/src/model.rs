//! Value types for accounts, balance snapshots, and transaction effects.

use vstd::prelude::*;

verus! {

/// An opaque address identifier; owns zero or more coin objects of a
/// given asset type.
#[derive(Clone, Copy, PartialEq, Eq, Structural, Debug)]
pub struct Account {
    pub id: u64,
}

/// An asset-type identifier ("which coin"); the scenario tracks one
/// asset per step.
#[derive(Clone, Copy, PartialEq, Eq, Structural, Debug)]
pub struct CoinType {
    pub id: u64,
}

/// The owner tag attached to an object reference in a transaction's
/// effects.
#[derive(Clone, Copy, PartialEq, Eq, Structural, Debug)]
pub enum Owner {
    /// Owned by a single account address.
    AddressOwner(Account),
    /// A shared object, owned by no single account.
    Shared,
    /// Immutable, such as a published package.
    Immutable,
}

/// The coin index's answer to "how much does an account hold of an
/// asset" at a point in time: `total_balance` is the sum of the face
/// values of exactly `coin_object_count` distinct coin objects.
#[derive(Clone, Copy, PartialEq, Eq, Structural, Debug)]
pub struct BalanceSnapshot {
    pub coin_object_count: u64,
    pub total_balance: u128,
    pub coin_type: CoinType,
}

/// One entry of a transaction's balance-change list: the signed amount
/// by which the owner's holdings moved (positive credit, negative
/// debit, e.g. gas plus a sent amount).
#[derive(Clone, Copy, PartialEq, Eq, Structural, Debug)]
pub struct BalanceChange {
    pub owner: Owner,
    pub amount: i128,
}

/// An object created by a transaction, tagged with its owner.
#[derive(Clone, Copy, PartialEq, Eq, Structural, Debug)]
pub struct CreatedObject {
    pub object_id: u64,
    pub owner: Owner,
}

/// A transaction's recorded outcome: the objects it created and the
/// balance-change entries, one per affected owner.
#[derive(Debug)]
pub struct EffectsRecord {
    pub created: Vec<CreatedObject>,
    pub balance_changes: Vec<BalanceChange>,
}

/// The two objects a token publish must create: the package itself
/// (immutable) and the mint capability (address-owned by the sender).
#[derive(Clone, Copy, PartialEq, Eq, Structural, Debug)]
pub struct PublishArtifacts {
    pub package: CreatedObject,
    pub capability: CreatedObject,
}

} // verus!
