use coin_index::failure::{Rule, TestFailure};
use coin_index::model::{BalanceSnapshot, CoinType};
use coin_index::rules::{
    predict_total, verify_stake, verify_transfer_recipient, verify_transfer_sender,
};

fn gas() -> CoinType {
    CoinType { id: 0 }
}

fn snap(count: u64, total: u128) -> BalanceSnapshot {
    BalanceSnapshot { coin_object_count: count, total_balance: total, coin_type: gas() }
}

#[test]
fn predict_total_adds_signed_delta() {
    assert_eq!(predict_total(1000, -110), Some(890));
    assert_eq!(predict_total(1000, 110), Some(1110));
    assert_eq!(predict_total(0, 0), Some(0));
}

#[test]
fn predict_total_negative_result_is_rejected() {
    assert_eq!(predict_total(5, -6), None);
    assert_eq!(predict_total(0, -1), None);
    assert_eq!(predict_total(0, i128::MIN), None);
}

#[test]
fn predict_total_at_the_domain_edges() {
    assert_eq!(predict_total(u128::MAX, 0), Some(u128::MAX));
    assert_eq!(predict_total(u128::MAX, 1), None);
    assert_eq!(predict_total(u128::MAX, -1), Some(u128::MAX - 1));
    assert_eq!(predict_total(170141183460469231731687303715884105728, i128::MIN), Some(0));
}

#[test]
fn sender_rule_accepts_exact_delta() {
    let pre = snap(2, 1000);
    let post = snap(2, 890);
    assert_eq!(verify_transfer_sender(&pre, -110, &post, gas()), Ok(()));
}

#[test]
fn sender_rule_rejects_asset_type_mismatch() {
    let pre = snap(2, 1000);
    let mut post = snap(2, 890);
    post.coin_type = CoinType { id: 3 };
    assert_eq!(
        verify_transfer_sender(&pre, -110, &post, gas()),
        Err(TestFailure::Consistency { rule: Rule::AssetType, expected: 0, observed: 3 })
    );
}

#[test]
fn sender_rule_rejects_count_change() {
    let pre = snap(2, 1000);
    let post = snap(1, 890);
    assert_eq!(
        verify_transfer_sender(&pre, -110, &post, gas()),
        Err(TestFailure::Consistency { rule: Rule::SenderCount, expected: 2, observed: 1 })
    );
}

#[test]
fn sender_rule_rejects_wrong_total() {
    let pre = snap(2, 1000);
    let post = snap(2, 889);
    assert_eq!(
        verify_transfer_sender(&pre, -110, &post, gas()),
        Err(TestFailure::Consistency { rule: Rule::SenderBalance, expected: 890, observed: 889 })
    );
}

#[test]
fn sender_rule_rejects_negative_prediction() {
    let pre = snap(2, 100);
    let post = snap(2, 0);
    assert_eq!(
        verify_transfer_sender(&pre, -200, &post, gas()),
        Err(TestFailure::PredictedOutOfRange { rule: Rule::SenderBalance })
    );
}

#[test]
fn recipient_rule_accepts_fresh_single_coin() {
    let post = snap(1, 100);
    assert_eq!(verify_transfer_recipient(100, &post), Ok(()));
}

#[test]
fn recipient_rule_rejects_wrong_count() {
    let post = snap(2, 100);
    assert_eq!(
        verify_transfer_recipient(100, &post),
        Err(TestFailure::Consistency { rule: Rule::RecipientCount, expected: 1, observed: 2 })
    );
}

#[test]
fn recipient_rule_rejects_non_positive_credit() {
    let post = snap(1, 0);
    assert_eq!(
        verify_transfer_recipient(0, &post),
        Err(TestFailure::PredictedOutOfRange { rule: Rule::RecipientAmount })
    );
    assert_eq!(
        verify_transfer_recipient(-5, &post),
        Err(TestFailure::PredictedOutOfRange { rule: Rule::RecipientAmount })
    );
}

#[test]
fn recipient_rule_rejects_wrong_total() {
    let post = snap(1, 99);
    assert_eq!(
        verify_transfer_recipient(100, &post),
        Err(TestFailure::Consistency { rule: Rule::RecipientBalance, expected: 100, observed: 99 })
    );
}

#[test]
fn stake_rule_accepts_one_consumed_object() {
    let pre = snap(2, 890);
    let post = snap(1, 680);
    assert_eq!(verify_stake(&pre, -210, &post, gas()), Ok(()));
}

#[test]
fn stake_rule_rejects_unchanged_count() {
    let pre = snap(2, 890);
    let post = snap(2, 680);
    assert_eq!(
        verify_stake(&pre, -210, &post, gas()),
        Err(TestFailure::Consistency { rule: Rule::StakeCount, expected: 1, observed: 2 })
    );
}

#[test]
fn stake_rule_rejects_empty_pre_state() {
    let pre = snap(0, 0);
    let post = snap(0, 0);
    assert_eq!(
        verify_stake(&pre, 0, &post, gas()),
        Err(TestFailure::PredictedOutOfRange { rule: Rule::StakeCount })
    );
}

#[test]
fn stake_rule_rejects_wrong_total() {
    let pre = snap(2, 890);
    let post = snap(1, 681);
    assert_eq!(
        verify_stake(&pre, -210, &post, gas()),
        Err(TestFailure::Consistency { rule: Rule::StakeBalance, expected: 680, observed: 681 })
    );
}

#[test]
fn unchanged_snapshot_is_consistent_with_zero_delta() {
    // Two reads with no intervening transaction: the second snapshot
    // equals the first, and only then does a zero delta verify.
    let first = snap(3, 750);
    let second = first;
    assert_eq!(verify_transfer_sender(&first, 0, &second, gas()), Ok(()));
    let drifted = snap(3, 751);
    assert!(verify_transfer_sender(&first, 0, &drifted, gas()).is_err());
    let lost_object = snap(2, 750);
    assert!(verify_transfer_sender(&first, 0, &lost_object, gas()).is_err());
}
