use coin_index::failure::{Step, StepFailure, TestFailure};
use coin_index::model::{
    Account, BalanceChange, BalanceSnapshot, CoinType, CreatedObject, EffectsRecord, Owner,
};
use coin_index::scenario::{Action, CoinIndexTest, Phase, ScenarioState};

fn acct(id: u64) -> Account {
    Account { id }
}

fn gas() -> CoinType {
    CoinType { id: 0 }
}

fn snap(count: u64, total: u128) -> BalanceSnapshot {
    BalanceSnapshot { coin_object_count: count, total_balance: total, coin_type: gas() }
}

fn entry(owner_id: u64, amount: i128) -> BalanceChange {
    BalanceChange { owner: Owner::AddressOwner(Account { id: owner_id }), amount }
}

fn effects_with_changes(changes: Vec<BalanceChange>) -> EffectsRecord {
    EffectsRecord { created: Vec::new(), balance_changes: changes }
}

fn funded_state(count: u64, total: u128) -> ScenarioState {
    let mut st = ScenarioState::new(acct(1), gas());
    st.on_funded(snap(count, total));
    st
}

#[test]
fn test_case_name_and_description() {
    let t = CoinIndexTest;
    assert_eq!(t.name(), "CoinIndex");
    assert_eq!(t.description(), "Test executing coin index");
}

#[test]
fn full_scenario_with_literal_amounts() {
    // Faucet funds X with F = 1000 across two coin objects; transfer
    // A = 100 to fresh Y at gas cost G = 10; stake 200 at gas cost 10;
    // publish, then mint to self.
    let t = CoinIndexTest;
    let mut st = t.scenario(acct(1), gas());
    assert_eq!(st.next_action(), Some(Action::RequestFunds));

    st.on_funded(snap(2, 1000));
    assert_eq!(st.phase, Phase::Funded);
    assert_eq!(st.next_action(), Some(Action::SubmitTransfer));

    // Sender's delta is -(A + G) = -110; recipient's credit is A.
    let fx = effects_with_changes(vec![entry(1, -110), entry(2, 100)]);
    let sender_post = snap(2, 890);  // F - A - G, count unchanged
    let recipient_post = snap(1, 100);  // fresh Y: one coin holding A
    assert_eq!(st.on_transfer(&fx, sender_post, recipient_post), Ok(()));
    assert_eq!(st.phase, Phase::Transferred);
    assert_eq!(st.prior, sender_post);
    assert_eq!(st.next_action(), Some(Action::SubmitStake));

    // Staking consumes one coin object; delta covers stake + gas.
    let fx = effects_with_changes(vec![entry(1, -210)]);
    let post = snap(1, 680);
    assert_eq!(st.on_stake(&fx, post), Ok(()));
    assert_eq!(st.phase, Phase::Staked);
    assert_eq!(st.prior, post);
    assert_eq!(st.next_action(), Some(Action::PublishPackage));

    let publish_fx = EffectsRecord {
        created: vec![
            CreatedObject { object_id: 7, owner: Owner::Immutable },
            CreatedObject { object_id: 8, owner: Owner::AddressOwner(acct(1)) },
        ],
        balance_changes: vec![entry(1, -50)],
    };
    let artifacts = st.on_published(&publish_fx).unwrap();
    assert_eq!(artifacts.package.object_id, 7);
    assert_eq!(artifacts.capability.object_id, 8);
    assert_eq!(st.phase, Phase::Published);
    assert_eq!(st.next_action(), Some(Action::SubmitMint));

    let mint_fx = effects_with_changes(vec![entry(1, 10000)]);
    assert_eq!(st.on_mint(&mint_fx), Ok(()));
    assert_eq!(st.phase, Phase::Done);
    assert_eq!(st.next_action(), None);
}

#[test]
fn transfer_conserves_both_sides() {
    // A = 250 from X (keeping a coin) to empty Y: Y ends with exactly
    // one coin holding A, X's total moves by its (negative) delta and
    // X's count is unchanged.
    let mut st = funded_state(3, 2000);
    let fx = effects_with_changes(vec![entry(1, -260), entry(2, 250)]);
    assert_eq!(st.on_transfer(&fx, snap(3, 1740), snap(1, 250)), Ok(()));
    assert_eq!(st.prior.coin_object_count, 3);
    assert_eq!(st.prior.total_balance, 1740);
}

#[test]
fn transfer_with_changed_sender_count_fails() {
    let mut st = funded_state(2, 1000);
    let fx = effects_with_changes(vec![entry(1, -110), entry(2, 100)]);
    let r = st.on_transfer(&fx, snap(1, 890), snap(1, 100));
    assert!(matches!(
        r,
        Err(StepFailure { step: Step::Transfer, failure: TestFailure::Consistency { .. } })
    ));
    assert_eq!(st.phase, Phase::Failed);
}

#[test]
fn transfer_without_delta_entry_fails_with_missing() {
    // Effects that carry no balance-change entry for the sender must
    // raise the missing-delta failure, never a silent zero delta.
    let mut st = funded_state(2, 1000);
    let fx = effects_with_changes(vec![entry(2, 100)]);
    assert_eq!(
        st.on_transfer(&fx, snap(2, 1000), snap(1, 100)),
        Err(StepFailure { step: Step::Transfer, failure: TestFailure::MissingDelta })
    );
    assert_eq!(st.phase, Phase::Failed);
    // A failed verification never advances the running snapshot.
    assert_eq!(st.prior, snap(2, 1000));
}

#[test]
fn transfer_with_two_sender_entries_fails_with_ambiguous() {
    let mut st = funded_state(2, 1000);
    let fx = effects_with_changes(vec![entry(1, -60), entry(1, -50), entry(2, 100)]);
    assert_eq!(
        st.on_transfer(&fx, snap(2, 890), snap(1, 100)),
        Err(StepFailure { step: Step::Transfer, failure: TestFailure::AmbiguousDelta })
    );
    assert_eq!(st.phase, Phase::Failed);
}

#[test]
fn stake_decreases_count_by_exactly_one() {
    let mut st = funded_state(2, 1000);
    let fx = effects_with_changes(vec![entry(1, -110), entry(2, 100)]);
    st.on_transfer(&fx, snap(2, 890), snap(1, 100)).unwrap();

    let fx = effects_with_changes(vec![entry(1, -300)]);
    assert_eq!(st.on_stake(&fx, snap(1, 590)), Ok(()));
    assert_eq!(st.prior.coin_object_count, 1);

    // The same stake against an unchanged count must fail.
    let mut st2 = funded_state(2, 1000);
    let fx = effects_with_changes(vec![entry(1, -110), entry(2, 100)]);
    st2.on_transfer(&fx, snap(2, 890), snap(1, 100)).unwrap();
    let fx = effects_with_changes(vec![entry(1, -300)]);
    let r = st2.on_stake(&fx, snap(2, 590));
    assert!(matches!(
        r,
        Err(StepFailure { step: Step::Stake, failure: TestFailure::Consistency { .. } })
    ));
}

#[test]
fn mint_without_entry_for_account_fails() {
    let mut st = funded_state(2, 1000);
    let fx = effects_with_changes(vec![entry(1, -110), entry(2, 100)]);
    st.on_transfer(&fx, snap(2, 890), snap(1, 100)).unwrap();
    let fx = effects_with_changes(vec![entry(1, -210)]);
    st.on_stake(&fx, snap(1, 680)).unwrap();
    let publish_fx = EffectsRecord {
        created: vec![
            CreatedObject { object_id: 7, owner: Owner::Immutable },
            CreatedObject { object_id: 8, owner: Owner::AddressOwner(acct(1)) },
        ],
        balance_changes: Vec::new(),
    };
    st.on_published(&publish_fx).unwrap();
    let mint_fx = effects_with_changes(vec![entry(9, 10000)]);
    assert_eq!(
        st.on_mint(&mint_fx),
        Err(StepFailure { step: Step::Mint, failure: TestFailure::MissingDelta })
    );
    assert_eq!(st.phase, Phase::Failed);
}

#[test]
fn publish_without_package_fails_with_missing_artifact() {
    let mut st = funded_state(2, 1000);
    let fx = effects_with_changes(vec![entry(1, -110), entry(2, 100)]);
    st.on_transfer(&fx, snap(2, 890), snap(1, 100)).unwrap();
    let fx = effects_with_changes(vec![entry(1, -210)]);
    st.on_stake(&fx, snap(1, 680)).unwrap();
    let publish_fx = EffectsRecord {
        created: vec![CreatedObject { object_id: 8, owner: Owner::AddressOwner(acct(1)) }],
        balance_changes: Vec::new(),
    };
    assert_eq!(
        st.on_published(&publish_fx),
        Err(StepFailure { step: Step::Publish, failure: TestFailure::MissingArtifact })
    );
    assert_eq!(st.phase, Phase::Failed);
}

#[test]
fn collaborator_failure_aborts_the_scenario() {
    let mut st = ScenarioState::new(acct(1), gas());
    let sf = st.on_collaborator_failure(Step::Fund);
    assert_eq!(sf, StepFailure { step: Step::Fund, failure: TestFailure::Collaborator });
    assert_eq!(st.phase, Phase::Failed);
    assert_eq!(st.next_action(), None);
}
