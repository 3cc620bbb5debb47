//! The scenario orchestrator: a linear, forward-only state machine
//! that sequences faucet funding, a single-coin transfer, a staking
//! delegation, and a token publish followed by a mint, verifying the
//! coin index's aggregates after every mutating step.
//!
//! The ledger client is an external collaborator: a driver performs
//! each requested action (`next_action`), then hands the resulting
//! effects and freshly queried snapshots back through the `on_*`
//! methods. A step's verification failure, or a collaborator error,
//! moves the machine to `Failed` and never advances the running
//! snapshot; there is no retry or partial-success reporting.

use vstd::prelude::*;
use crate::effects::{entries_for, entries_for_others, created_for, created_immutable};
use crate::failure::{Step, StepFailure, TestFailure};
use crate::model::{
    Account, BalanceChange, BalanceSnapshot, CoinType, CreatedObject, EffectsRecord,
    PublishArtifacts,
};
use crate::rules::{
    stake_verdict, transfer_recipient_verdict, transfer_sender_verdict, verify_stake,
    verify_transfer_recipient, verify_transfer_sender,
};

verus! {

/// Where the scenario stands. Transitions are forward-only:
/// `Init -> Funded -> Transferred -> Staked -> Published -> Done`,
/// with any failure moving to `Failed` instead.
#[derive(Clone, Copy, PartialEq, Eq, Structural, Debug)]
pub enum Phase {
    Init,
    Funded,
    Transferred,
    Staked,
    Published,
    Done,
    Failed,
}

/// The collaborator action the driver should perform next.
#[derive(Clone, Copy, PartialEq, Eq, Structural, Debug)]
pub enum Action {
    /// Request faucet funding for the account, then query its baseline
    /// snapshot.
    RequestFunds,
    /// Submit a single-coin transfer to a fresh recipient and await
    /// finality, then query both post-state snapshots.
    SubmitTransfer,
    /// Submit a staking delegation to an active validator and await
    /// finality, then query the post-state snapshot.
    SubmitStake,
    /// Publish the token package and await finality.
    PublishPackage,
    /// Invoke the published package's mint entry function and await
    /// finality.
    SubmitMint,
}

/// The action owed in each phase; terminal phases owe none.
pub open spec fn action_for(phase: Phase) -> Option<Action> {
    match phase {
        Phase::Init => Some(Action::RequestFunds),
        Phase::Funded => Some(Action::SubmitTransfer),
        Phase::Transferred => Some(Action::SubmitStake),
        Phase::Staked => Some(Action::PublishPackage),
        Phase::Published => Some(Action::SubmitMint),
        Phase::Done => None,
        Phase::Failed => None,
    }
}

/// The orchestrator's running state for one tracked account: the
/// phase, the snapshot recorded by the last verified step, and the
/// publish artifacts once located. Exclusively owned by the driver for
/// the scenario's lifetime; a failed step never advances `prior`.
#[derive(Clone, Copy, Debug)]
pub struct ScenarioState {
    pub phase: Phase,
    pub account: Account,
    pub coin_type: CoinType,
    pub prior: BalanceSnapshot,
    pub artifacts: Option<PublishArtifacts>,
}

/// The outcome of the transfer step: both entries must be uniquely
/// identifiable (sender's by owner, recipient's by owner differing),
/// then rule T must hold on each side; the checks run in that order
/// and the first failure names the verdict.
pub open spec fn transfer_step_verdict(
    st: ScenarioState,
    changes: Seq<BalanceChange>,
    sender_post: BalanceSnapshot,
    recipient_post: BalanceSnapshot,
) -> Result<(), TestFailure> {
    let sender_entries = entries_for(changes, st.account);
    let recipient_entries = entries_for_others(changes, st.account);
    if sender_entries.len() == 0 {
        Err(TestFailure::MissingDelta)
    } else if sender_entries.len() >= 2 {
        Err(TestFailure::AmbiguousDelta)
    } else if recipient_entries.len() == 0 {
        Err(TestFailure::MissingDelta)
    } else if recipient_entries.len() >= 2 {
        Err(TestFailure::AmbiguousDelta)
    } else if transfer_sender_verdict(
        st.prior,
        sender_entries[0].amount,
        sender_post,
        st.coin_type,
    ) is Err {
        transfer_sender_verdict(st.prior, sender_entries[0].amount, sender_post, st.coin_type)
    } else {
        transfer_recipient_verdict(recipient_entries[0].amount, recipient_post)
    }
}

/// The outcome of the stake step: the account's entry must be uniquely
/// identifiable, then rule S must hold.
pub open spec fn stake_step_verdict(
    st: ScenarioState,
    changes: Seq<BalanceChange>,
    post: BalanceSnapshot,
) -> Result<(), TestFailure> {
    let entries = entries_for(changes, st.account);
    if entries.len() == 0 {
        Err(TestFailure::MissingDelta)
    } else if entries.len() >= 2 {
        Err(TestFailure::AmbiguousDelta)
    } else {
        stake_verdict(st.prior, entries[0].amount, post, st.coin_type)
    }
}

/// The outcome of the publish step: exactly one immutable created
/// object (the package) and exactly one created object owned by the
/// sender (the mint capability).
pub open spec fn publish_step_verdict(created: Seq<CreatedObject>, account: Account) -> Result<
    PublishArtifacts,
    TestFailure,
> {
    if created_immutable(created).len() == 1 && created_for(created, account).len() == 1 {
        Ok(
            PublishArtifacts {
                package: created_immutable(created)[0],
                capability: created_for(created, account)[0],
            },
        )
    } else {
        Err(TestFailure::MissingArtifact)
    }
}

/// The outcome of the mint step: a balance-change entry for the
/// account must be present and uniquely identifiable. A numeric
/// equality against the minted quantity is a known gap, not yet
/// asserted.
pub open spec fn mint_step_verdict(changes: Seq<BalanceChange>, account: Account) -> Result<
    (),
    TestFailure,
> {
    let entries = entries_for(changes, account);
    if entries.len() == 0 {
        Err(TestFailure::MissingDelta)
    } else if entries.len() >= 2 {
        Err(TestFailure::AmbiguousDelta)
    } else {
        Ok(())
    }
}

impl ScenarioState {
    /// A fresh scenario for one account and one tracked asset type.
    pub fn new(account: Account, coin_type: CoinType) -> (st: ScenarioState)
        ensures
            st.phase == Phase::Init,
            st.account == account,
            st.coin_type == coin_type,
            st.prior == (BalanceSnapshot { coin_object_count: 0, total_balance: 0, coin_type }),
            st.artifacts is None,
    {
        ScenarioState {
            phase: Phase::Init,
            account,
            coin_type,
            prior: BalanceSnapshot { coin_object_count: 0, total_balance: 0, coin_type },
            artifacts: None,
        }
    }

    /// The collaborator action the driver should perform next, or
    /// nothing when the scenario has finished or failed.
    pub fn next_action(&self) -> (r: Option<Action>)
        ensures
            r == action_for(self.phase),
    {
        match self.phase {
            Phase::Init => Some(Action::RequestFunds),
            Phase::Funded => Some(Action::SubmitTransfer),
            Phase::Transferred => Some(Action::SubmitStake),
            Phase::Staked => Some(Action::PublishPackage),
            Phase::Published => Some(Action::SubmitMint),
            Phase::Done => None,
            Phase::Failed => None,
        }
    }

    /// Records the baseline snapshot after faucet funding. No
    /// verification beyond the snapshot being queryable: the baseline
    /// is whatever the index reports.
    pub fn on_funded(&mut self, baseline: BalanceSnapshot)
        requires
            old(self).phase == Phase::Init,
        ensures
            final(self).phase == Phase::Funded,
            final(self).prior == baseline,
            final(self).account == old(self).account,
            final(self).coin_type == old(self).coin_type,
            final(self).artifacts == old(self).artifacts,
    {
        self.prior = baseline;
        self.phase = Phase::Funded;
    }

    /// Verifies the transfer step: extracts the sender's and the
    /// recipient's unique balance-change entries from the effects,
    /// then holds both freshly queried snapshots to rule T. Success
    /// advances the running snapshot to the sender's post-state;
    /// failure moves to `Failed` and leaves it untouched.
    pub fn on_transfer(
        &mut self,
        effects: &EffectsRecord,
        sender_post: BalanceSnapshot,
        recipient_post: BalanceSnapshot,
    ) -> (r: Result<(), StepFailure>)
        requires
            old(self).phase == Phase::Funded,
        ensures
            final(self).account == old(self).account,
            final(self).coin_type == old(self).coin_type,
            final(self).artifacts == old(self).artifacts,
            r is Ok <==> transfer_step_verdict(
                *old(self),
                effects.balance_changes@,
                sender_post,
                recipient_post,
            ) is Ok,
            r matches Err(sf) ==> sf.step == Step::Transfer && transfer_step_verdict(
                *old(self),
                effects.balance_changes@,
                sender_post,
                recipient_post,
            ) == Err::<(), TestFailure>(sf.failure) && final(self).phase == Phase::Failed && final(self).prior == old(self).prior,
            r is Ok ==> final(self).phase == Phase::Transferred && final(self).prior == sender_post
                && sender_post.coin_object_count == old(self).prior.coin_object_count
                && recipient_post.coin_object_count == 1,
    {
        let sender_entry = match self.delta_step(effects, Step::Transfer) {
            Ok(bc) => bc,
            Err(sf) => {
                return Err(sf);
            },
        };
        let recipient_entry = match effects.delta_for_other(self.account) {
            Ok(bc) => bc,
            Err(e) => {
                self.phase = Phase::Failed;
                return Err(StepFailure { step: Step::Transfer, failure: e });
            },
        };
        match verify_transfer_sender(&self.prior, sender_entry.amount, &sender_post, self.coin_type)
        {
            Ok(()) => {},
            Err(e) => {
                self.phase = Phase::Failed;
                return Err(StepFailure { step: Step::Transfer, failure: e });
            },
        }
        match verify_transfer_recipient(recipient_entry.amount, &recipient_post) {
            Ok(()) => {},
            Err(e) => {
                self.phase = Phase::Failed;
                return Err(StepFailure { step: Step::Transfer, failure: e });
            },
        }
        self.prior = sender_post;
        self.phase = Phase::Transferred;
        Ok(())
    }

    /// Verifies the stake step: extracts the account's unique
    /// balance-change entry, then holds the freshly queried snapshot
    /// to rule S — exactly one coin object consumed, total moved by
    /// the effects' delta. Success advances the running snapshot.
    pub fn on_stake(&mut self, effects: &EffectsRecord, post: BalanceSnapshot) -> (r: Result<
        (),
        StepFailure,
    >)
        requires
            old(self).phase == Phase::Transferred,
        ensures
            final(self).account == old(self).account,
            final(self).coin_type == old(self).coin_type,
            final(self).artifacts == old(self).artifacts,
            r is Ok <==> stake_step_verdict(*old(self), effects.balance_changes@, post) is Ok,
            r matches Err(sf) ==> sf.step == Step::Stake && stake_step_verdict(
                *old(self),
                effects.balance_changes@,
                post,
            ) == Err::<(), TestFailure>(sf.failure) && final(self).phase == Phase::Failed && final(self).prior == old(self).prior,
            r is Ok ==> final(self).phase == Phase::Staked && final(self).prior == post
                && post.coin_object_count == old(self).prior.coin_object_count - 1,
    {
        let entry = match self.delta_step(effects, Step::Stake) {
            Ok(bc) => bc,
            Err(sf) => {
                return Err(sf);
            },
        };
        match verify_stake(&self.prior, entry.amount, &post, self.coin_type) {
            Ok(()) => {},
            Err(e) => {
                self.phase = Phase::Failed;
                return Err(StepFailure { step: Step::Stake, failure: e });
            },
        }
        self.prior = post;
        self.phase = Phase::Staked;
        Ok(())
    }

    /// Verifies the publish step: the effects must contain exactly one
    /// immutable created object (the package) and exactly one created
    /// object owned by the account (the mint capability). Success
    /// records the pair; the running snapshot is untouched, since the
    /// mint step's own effects settle the account's balance movement.
    pub fn on_published(&mut self, effects: &EffectsRecord) -> (r: Result<
        PublishArtifacts,
        StepFailure,
    >)
        requires
            old(self).phase == Phase::Staked,
        ensures
            final(self).account == old(self).account,
            final(self).coin_type == old(self).coin_type,
            final(self).prior == old(self).prior,
            r is Ok <==> publish_step_verdict(effects.created@, old(self).account) is Ok,
            r matches Ok(a) ==> final(self).phase == Phase::Published && final(self).artifacts
                == Some(a) && publish_step_verdict(effects.created@, old(self).account) == Ok::<
                PublishArtifacts,
                TestFailure,
            >(a),
            r matches Err(sf) ==> sf.step == Step::Publish && sf.failure
                == TestFailure::MissingArtifact && final(self).phase == Phase::Failed && final(self).artifacts == old(self).artifacts,
    {
        match effects.locate_artifacts(self.account) {
            Ok(a) => {
                self.artifacts = Some(a);
                self.phase = Phase::Published;
                Ok(a)
            },
            Err(_) => {
                self.phase = Phase::Failed;
                Err(StepFailure { step: Step::Publish, failure: TestFailure::MissingArtifact })
            },
        }
    }

    /// Verifies the mint step: a balance-change entry for the account
    /// must be present and uniquely identifiable in the mint
    /// transaction's effects. A numeric equality against the minted
    /// quantity is a known gap, not yet asserted, so the running
    /// snapshot is left as the last verified one.
    pub fn on_mint(&mut self, effects: &EffectsRecord) -> (r: Result<(), StepFailure>)
        requires
            old(self).phase == Phase::Published,
        ensures
            final(self).account == old(self).account,
            final(self).coin_type == old(self).coin_type,
            final(self).artifacts == old(self).artifacts,
            final(self).prior == old(self).prior,
            r is Ok <==> mint_step_verdict(effects.balance_changes@, old(self).account) is Ok,
            r matches Err(sf) ==> sf.step == Step::Mint && mint_step_verdict(
                effects.balance_changes@,
                old(self).account,
            ) == Err::<(), TestFailure>(sf.failure) && final(self).phase == Phase::Failed,
            r is Ok ==> final(self).phase == Phase::Done,
    {
        match effects.delta_for(self.account) {
            Ok(_) => {
                self.phase = Phase::Done;
                Ok(())
            },
            Err(e) => {
                self.phase = Phase::Failed;
                Err(StepFailure { step: Step::Mint, failure: e })
            },
        }
    }

    /// Records a collaborator failure (network, RPC, rejected
    /// transaction) in the given step: the scenario moves to `Failed`
    /// with the running snapshot untouched, and the returned failure
    /// is what the scenario reports.
    pub fn on_collaborator_failure(&mut self, step: Step) -> (r: StepFailure)
        ensures
            final(self).phase == Phase::Failed,
            final(self).account == old(self).account,
            final(self).coin_type == old(self).coin_type,
            final(self).prior == old(self).prior,
            final(self).artifacts == old(self).artifacts,
            r == (StepFailure { step, failure: TestFailure::Collaborator }),
    {
        self.phase = Phase::Failed;
        StepFailure { step, failure: TestFailure::Collaborator }
    }

    /// Extracts the account's unique balance-change entry for a step,
    /// moving to `Failed` when it is missing or ambiguous.
    fn delta_step(&mut self, effects: &EffectsRecord, step: Step) -> (r: Result<
        BalanceChange,
        StepFailure,
    >)
        ensures
            final(self).account == old(self).account,
            final(self).coin_type == old(self).coin_type,
            final(self).artifacts == old(self).artifacts,
            final(self).prior == old(self).prior,
            r is Ok <==> entries_for(effects.balance_changes@, old(self).account).len() == 1,
            r matches Ok(bc) ==> bc == entries_for(
                effects.balance_changes@,
                old(self).account,
            )[0] && *final(self) == *old(self),
            r matches Err(sf) ==> sf.step == step && final(self).phase == Phase::Failed && (
            sf.failure == TestFailure::MissingDelta <==> entries_for(
                effects.balance_changes@,
                old(self).account,
            ).len() == 0) && (sf.failure == TestFailure::AmbiguousDelta <==> entries_for(
                effects.balance_changes@,
                old(self).account,
            ).len() >= 2),
    {
        match effects.delta_for(self.account) {
            Ok(bc) => Ok(bc),
            Err(e) => {
                self.phase = Phase::Failed;
                Err(StepFailure { step, failure: e })
            },
        }
    }
}

/// The coin-index consistency scenario, under the polymorphic test
/// contract an external runner invokes scenarios through: a stable
/// name, a human-readable description, and the state machine a driver
/// runs against the ledger.
pub struct CoinIndexTest;

impl CoinIndexTest {
    /// Stable identifier for reporting.
    pub fn name(&self) -> (r: &'static str)
        ensures
            r@ == "CoinIndex"@,
    {
        "CoinIndex"
    }

    /// Human-readable summary.
    pub fn description(&self) -> (r: &'static str)
        ensures
            r@ == "Test executing coin index"@,
    {
        "Test executing coin index"
    }

    /// The scenario's state machine, started at `Init` for the given
    /// account and tracked asset type.
    pub fn scenario(&self, account: Account, coin_type: CoinType) -> (st: ScenarioState)
        ensures
            st.phase == Phase::Init,
            st.account == account,
            st.coin_type == coin_type,
            st.artifacts is None,
    {
        ScenarioState::new(account, coin_type)
    }
}

/// Transfer conservation over the effects: whenever the transfer step
/// verifies, the effects hold exactly one entry per side, the
/// previously empty recipient owns exactly one coin holding exactly
/// its (positive) credited amount, and the sender's total moved by
/// exactly its own entry's amount with its coin-object count
/// unchanged.
pub proof fn lemma_transfer_step_conservation(
    st: ScenarioState,
    changes: Seq<BalanceChange>,
    sender_post: BalanceSnapshot,
    recipient_post: BalanceSnapshot,
)
    requires
        transfer_step_verdict(st, changes, sender_post, recipient_post) is Ok,
    ensures
        entries_for(changes, st.account).len() == 1,
        entries_for_others(changes, st.account).len() == 1,
        sender_post.coin_object_count == st.prior.coin_object_count,
        sender_post.total_balance == st.prior.total_balance + entries_for(
            changes,
            st.account,
        )[0].amount,
        recipient_post.coin_object_count == 1,
        entries_for_others(changes, st.account)[0].amount > 0,
        recipient_post.total_balance == entries_for_others(changes, st.account)[0].amount,
{
}

/// Stake consumption over the effects: whenever the stake step
/// verifies, the effects hold exactly one entry for the account, the
/// coin-object count decreased by exactly one, and the total moved by
/// exactly that entry's amount.
pub proof fn lemma_stake_step_consumes_one(
    st: ScenarioState,
    changes: Seq<BalanceChange>,
    post: BalanceSnapshot,
)
    requires
        stake_step_verdict(st, changes, post) is Ok,
    ensures
        entries_for(changes, st.account).len() == 1,
        st.prior.coin_object_count >= 1,
        post.coin_object_count == st.prior.coin_object_count - 1,
        post.total_balance == st.prior.total_balance + entries_for(changes, st.account)[0].amount,
{
}

} // verus!
