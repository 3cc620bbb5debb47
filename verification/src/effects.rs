//! Extraction of the entries of interest from a transaction's recorded
//! effects: the unique balance-change entry for an owner filter, and
//! the unique package / capability objects created by a publish.
//!
//! Uniqueness is part of the contract: when more than one entry matches
//! a filter the extraction fails rather than picking one arbitrarily,
//! since ambiguity signals a scenario assumption violation.

use vstd::prelude::*;
use crate::failure::TestFailure;
use crate::model::{Account, BalanceChange, CreatedObject, EffectsRecord, Owner, PublishArtifacts};

verus! {

/// Whether a balance-change entry belongs to `account`.
pub open spec fn is_entry_for(bc: BalanceChange, account: Account) -> bool {
    bc.owner == Owner::AddressOwner(account)
}

/// The balance-change entries owned by `account`, in order.
pub open spec fn entries_for(changes: Seq<BalanceChange>, account: Account) -> Seq<BalanceChange>
    decreases changes.len(),
{
    if changes.len() == 0 {
        Seq::empty()
    } else if is_entry_for(changes.last(), account) {
        entries_for(changes.drop_last(), account).push(changes.last())
    } else {
        entries_for(changes.drop_last(), account)
    }
}

/// The balance-change entries owned by anyone but `account`, in order.
pub open spec fn entries_for_others(changes: Seq<BalanceChange>, account: Account) -> Seq<
    BalanceChange,
>
    decreases changes.len(),
{
    if changes.len() == 0 {
        Seq::empty()
    } else if !is_entry_for(changes.last(), account) {
        entries_for_others(changes.drop_last(), account).push(changes.last())
    } else {
        entries_for_others(changes.drop_last(), account)
    }
}

/// The created objects tagged immutable (a publish's package), in order.
pub open spec fn created_immutable(created: Seq<CreatedObject>) -> Seq<CreatedObject>
    decreases created.len(),
{
    if created.len() == 0 {
        Seq::empty()
    } else if created.last().owner == Owner::Immutable {
        created_immutable(created.drop_last()).push(created.last())
    } else {
        created_immutable(created.drop_last())
    }
}

/// The created objects owned by `account` (a publish's capability), in
/// order.
pub open spec fn created_for(created: Seq<CreatedObject>, account: Account) -> Seq<CreatedObject>
    decreases created.len(),
{
    if created.len() == 0 {
        Seq::empty()
    } else if created.last().owner == Owner::AddressOwner(account) {
        created_for(created.drop_last(), account).push(created.last())
    } else {
        created_for(created.drop_last(), account)
    }
}

proof fn lemma_entries_for_take_step(changes: Seq<BalanceChange>, account: Account, i: int)
    requires
        0 <= i < changes.len(),
    ensures
        entries_for(changes.take(i + 1), account) == if is_entry_for(changes[i], account) {
            entries_for(changes.take(i), account).push(changes[i])
        } else {
            entries_for(changes.take(i), account)
        },
{
    assert(changes.take(i + 1).drop_last() =~= changes.take(i));
    assert(changes.take(i + 1).last() == changes[i]);
}

proof fn lemma_entries_for_others_take_step(changes: Seq<BalanceChange>, account: Account, i: int)
    requires
        0 <= i < changes.len(),
    ensures
        entries_for_others(changes.take(i + 1), account) == if !is_entry_for(
            changes[i],
            account,
        ) {
            entries_for_others(changes.take(i), account).push(changes[i])
        } else {
            entries_for_others(changes.take(i), account)
        },
{
    assert(changes.take(i + 1).drop_last() =~= changes.take(i));
    assert(changes.take(i + 1).last() == changes[i]);
}

proof fn lemma_created_take_step(created: Seq<CreatedObject>, account: Account, i: int)
    requires
        0 <= i < created.len(),
    ensures
        created_immutable(created.take(i + 1)) == if created[i].owner == Owner::Immutable {
            created_immutable(created.take(i)).push(created[i])
        } else {
            created_immutable(created.take(i))
        },
        created_for(created.take(i + 1), account) == if created[i].owner == Owner::AddressOwner(
            account,
        ) {
            created_for(created.take(i), account).push(created[i])
        } else {
            created_for(created.take(i), account)
        },
{
    assert(created.take(i + 1).drop_last() =~= created.take(i));
    assert(created.take(i + 1).last() == created[i]);
}

impl EffectsRecord {
    /// The unique balance-change entry whose owner is `account`.
    ///
    /// Fails with `MissingDelta` when no entry exists for the account
    /// (a transaction that, contrary to expectation, did not affect
    /// it), and with `AmbiguousDelta` when more than one does: a zero
    /// delta is never silently reported, and no entry is ever picked
    /// arbitrarily.
    pub fn delta_for(&self, account: Account) -> (r: Result<BalanceChange, TestFailure>)
        ensures
            r is Ok <==> entries_for(self.balance_changes@, account).len() == 1,
            r matches Ok(bc) ==> bc == entries_for(self.balance_changes@, account)[0]
                && is_entry_for(bc, account) && (exists|j: int|
                0 <= j < self.balance_changes@.len() && self.balance_changes@[j] == bc),
            r == Err::<BalanceChange, TestFailure>(TestFailure::MissingDelta) <==> entries_for(
                self.balance_changes@,
                account,
            ).len() == 0,
            r == Err::<BalanceChange, TestFailure>(TestFailure::AmbiguousDelta) <==> entries_for(
                self.balance_changes@,
                account,
            ).len() >= 2,
    {
        let changes = &self.balance_changes;
        let ghost s = changes@;
        let mut i: usize = 0;
        let mut n: usize = 0;
        let mut found: Option<BalanceChange> = None;
        while i < changes.len()
            invariant
                i <= changes.len(),
                s == changes@,
                n == entries_for(s.take(i as int), account).len(),
                n <= i,
                found is None <==> n == 0,
                found matches Some(bc) ==> bc == entries_for(s.take(i as int), account)[0]
                    && is_entry_for(bc, account) && (exists|j: int| 0 <= j < i && s[j] == bc),
            decreases changes.len() - i,
        {
            let bc = changes[i];
            proof {
                lemma_entries_for_take_step(s, account, i as int);
            }
            if bc.owner == Owner::AddressOwner(account) {
                n = n + 1;
                if found.is_none() {
                    found = Some(bc);
                    assert(s[i as int] == bc);
                }
            }
            i = i + 1;
        }
        proof {
            assert(s.take(changes.len() as int) =~= s);
        }
        match found {
            None => Err(TestFailure::MissingDelta),
            Some(bc) => if n >= 2 {
                Err(TestFailure::AmbiguousDelta)
            } else {
                Ok(bc)
            },
        }
    }

    /// The unique balance-change entry whose owner is anyone but
    /// `account` — in a two-party transfer, the recipient's entry.
    ///
    /// Fails with `MissingDelta` when no such entry exists and with
    /// `AmbiguousDelta` when more than one does, exactly as
    /// [`Self::delta_for`] does for its filter.
    pub fn delta_for_other(&self, account: Account) -> (r: Result<BalanceChange, TestFailure>)
        ensures
            r is Ok <==> entries_for_others(self.balance_changes@, account).len() == 1,
            r matches Ok(bc) ==> bc == entries_for_others(self.balance_changes@, account)[0]
                && !is_entry_for(bc, account) && (exists|j: int|
                0 <= j < self.balance_changes@.len() && self.balance_changes@[j] == bc),
            r == Err::<BalanceChange, TestFailure>(TestFailure::MissingDelta)
                <==> entries_for_others(self.balance_changes@, account).len() == 0,
            r == Err::<BalanceChange, TestFailure>(TestFailure::AmbiguousDelta)
                <==> entries_for_others(self.balance_changes@, account).len() >= 2,
    {
        let changes = &self.balance_changes;
        let ghost s = changes@;
        let mut i: usize = 0;
        let mut n: usize = 0;
        let mut found: Option<BalanceChange> = None;
        while i < changes.len()
            invariant
                i <= changes.len(),
                s == changes@,
                n == entries_for_others(s.take(i as int), account).len(),
                n <= i,
                found is None <==> n == 0,
                found matches Some(bc) ==> bc == entries_for_others(s.take(i as int), account)[0]
                    && !is_entry_for(bc, account) && (exists|j: int| 0 <= j < i && s[j] == bc),
            decreases changes.len() - i,
        {
            let bc = changes[i];
            proof {
                lemma_entries_for_others_take_step(s, account, i as int);
            }
            if !(bc.owner == Owner::AddressOwner(account)) {
                n = n + 1;
                if found.is_none() {
                    found = Some(bc);
                    assert(s[i as int] == bc);
                }
            }
            i = i + 1;
        }
        proof {
            assert(s.take(changes.len() as int) =~= s);
        }
        match found {
            None => Err(TestFailure::MissingDelta),
            Some(bc) => if n >= 2 {
                Err(TestFailure::AmbiguousDelta)
            } else {
                Ok(bc)
            },
        }
    }

    /// The two artifacts a token publish must create: the unique
    /// immutable created object (the package) and the unique created
    /// object owned by `sender` (the mint capability).
    ///
    /// Fails with `MissingArtifact` when either cannot be uniquely
    /// located among the created objects.
    pub fn locate_artifacts(&self, sender: Account) -> (r: Result<PublishArtifacts, TestFailure>)
        ensures
            r is Ok <==> created_immutable(self.created@).len() == 1 && created_for(
                self.created@,
                sender,
            ).len() == 1,
            r matches Ok(a) ==> a.package == created_immutable(self.created@)[0] && a.capability
                == created_for(self.created@, sender)[0] && a.package.owner == Owner::Immutable
                && a.capability.owner == Owner::AddressOwner(sender),
            r matches Err(e) ==> e == TestFailure::MissingArtifact,
    {
        let created = &self.created;
        let ghost s = created@;
        let mut i: usize = 0;
        let mut n_pkg: usize = 0;
        let mut n_cap: usize = 0;
        let mut pkg: Option<CreatedObject> = None;
        let mut cap: Option<CreatedObject> = None;
        while i < created.len()
            invariant
                i <= created.len(),
                s == created@,
                n_pkg == created_immutable(s.take(i as int)).len(),
                n_cap == created_for(s.take(i as int), sender).len(),
                n_pkg <= i,
                n_cap <= i,
                pkg is None <==> n_pkg == 0,
                cap is None <==> n_cap == 0,
                pkg matches Some(o) ==> o == created_immutable(s.take(i as int))[0] && o.owner
                    == Owner::Immutable,
                cap matches Some(o) ==> o == created_for(s.take(i as int), sender)[0] && o.owner
                    == Owner::AddressOwner(sender),
            decreases created.len() - i,
        {
            let obj = created[i];
            proof {
                lemma_created_take_step(s, sender, i as int);
            }
            if obj.owner == Owner::Immutable {
                n_pkg = n_pkg + 1;
                if pkg.is_none() {
                    pkg = Some(obj);
                }
            }
            if obj.owner == Owner::AddressOwner(sender) {
                n_cap = n_cap + 1;
                if cap.is_none() {
                    cap = Some(obj);
                }
            }
            i = i + 1;
        }
        proof {
            assert(s.take(created.len() as int) =~= s);
        }
        match (pkg, cap) {
            (Some(package), Some(capability)) => if n_pkg == 1 && n_cap == 1 {
                Ok(PublishArtifacts { package, capability })
            } else {
                Err(TestFailure::MissingArtifact)
            },
            _ => Err(TestFailure::MissingArtifact),
        }
    }
}

} // verus!
