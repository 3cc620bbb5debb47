//! The consistency rules: given a pre-step snapshot, the effects'
//! signed delta, and the freshly queried post-step snapshot, decide
//! whether the coin index's aggregates agree with the deltas the
//! transaction's effects imply.
//!
//! Each rule comes in three forms that are proved to agree: a boolean
//! spec function saying when the rule holds, a verdict spec function
//! saying exactly which failure is reported otherwise, and an
//! executable check whose result equals the verdict.

use vstd::prelude::*;
use crate::failure::{Rule, TestFailure};
use crate::model::{BalanceSnapshot, CoinType};

verus! {

/// Whether an unsigned total moved by a signed delta stays within the
/// unsigned 128-bit balance domain.
pub open spec fn total_in_range(pre_total: u128, amount: i128) -> bool {
    0 <= pre_total + amount <= u128::MAX
}

/// Adds a signed delta to an unsigned total in the widened signed
/// domain and range-checks the result back into the unsigned balance
/// domain; `None` means the predicted balance would be negative or
/// would overflow, which no snapshot can match.
pub fn predict_total(pre_total: u128, amount: i128) -> (r: Option<u128>)
    ensures
        r is Some <==> total_in_range(pre_total, amount),
        r matches Some(v) ==> v == pre_total + amount,
{
    if amount >= 0 {
        let add: u128 = amount as u128;
        if pre_total <= u128::MAX - add {
            Some(pre_total + add)
        } else {
            None
        }
    } else {
        // -amount itself can overflow i128 at its minimum, so build the
        // magnitude as (-1 - amount) + 1, which always fits.
        let neg_minus_one: i128 = -1 - amount;
        let mag: u128 = (neg_minus_one as u128) + 1;
        if mag <= pre_total {
            Some(pre_total - mag)
        } else {
            None
        }
    }
}

/// Rule T, sender side: after a transfer in which the sender keeps at
/// least one coin, the sender's coin-object count is unchanged and the
/// total moved by exactly the effects' delta.
pub open spec fn transfer_sender_holds(
    pre: BalanceSnapshot,
    amount: i128,
    post: BalanceSnapshot,
    coin_type: CoinType,
) -> bool {
    &&& post.coin_type == coin_type
    &&& post.coin_object_count == pre.coin_object_count
    &&& total_in_range(pre.total_balance, amount)
    &&& post.total_balance == pre.total_balance + amount
}

/// The failure reported when rule T, sender side, does not hold: the
/// checks run in order (asset type, count, range, total) and the first
/// one to fail names the verdict.
pub open spec fn transfer_sender_verdict(
    pre: BalanceSnapshot,
    amount: i128,
    post: BalanceSnapshot,
    coin_type: CoinType,
) -> Result<(), TestFailure> {
    if post.coin_type != coin_type {
        Err(
            TestFailure::Consistency {
                rule: Rule::AssetType,
                expected: coin_type.id as u128,
                observed: post.coin_type.id as u128,
            },
        )
    } else if post.coin_object_count != pre.coin_object_count {
        Err(
            TestFailure::Consistency {
                rule: Rule::SenderCount,
                expected: pre.coin_object_count as u128,
                observed: post.coin_object_count as u128,
            },
        )
    } else if !total_in_range(pre.total_balance, amount) {
        Err(TestFailure::PredictedOutOfRange { rule: Rule::SenderBalance })
    } else if post.total_balance != pre.total_balance + amount {
        Err(
            TestFailure::Consistency {
                rule: Rule::SenderBalance,
                expected: (pre.total_balance + amount) as u128,
                observed: post.total_balance,
            },
        )
    } else {
        Ok(())
    }
}

/// Executable check for rule T, sender side.
pub fn verify_transfer_sender(
    pre: &BalanceSnapshot,
    amount: i128,
    post: &BalanceSnapshot,
    coin_type: CoinType,
) -> (r: Result<(), TestFailure>)
    ensures
        r == transfer_sender_verdict(*pre, amount, *post, coin_type),
        r is Ok <==> transfer_sender_holds(*pre, amount, *post, coin_type),
{
    if !(post.coin_type == coin_type) {
        Err(
            TestFailure::Consistency {
                rule: Rule::AssetType,
                expected: coin_type.id as u128,
                observed: post.coin_type.id as u128,
            },
        )
    } else if post.coin_object_count != pre.coin_object_count {
        Err(
            TestFailure::Consistency {
                rule: Rule::SenderCount,
                expected: pre.coin_object_count as u128,
                observed: post.coin_object_count as u128,
            },
        )
    } else {
        match predict_total(pre.total_balance, amount) {
            None => Err(TestFailure::PredictedOutOfRange { rule: Rule::SenderBalance }),
            Some(predicted) => if post.total_balance != predicted {
                Err(
                    TestFailure::Consistency {
                        rule: Rule::SenderBalance,
                        expected: predicted,
                        observed: post.total_balance,
                    },
                )
            } else {
                Ok(())
            },
        }
    }
}

/// Rule T, recipient side: a previously empty recipient ends up owning
/// exactly the one received coin, whose face value is the (positive)
/// credited amount.
pub open spec fn transfer_recipient_holds(amount: i128, post: BalanceSnapshot) -> bool {
    &&& post.coin_object_count == 1
    &&& amount > 0
    &&& post.total_balance == amount
}

/// The failure reported when rule T, recipient side, does not hold,
/// with the checks run in order (count, positivity, total).
pub open spec fn transfer_recipient_verdict(amount: i128, post: BalanceSnapshot) -> Result<
    (),
    TestFailure,
> {
    if post.coin_object_count != 1 {
        Err(
            TestFailure::Consistency {
                rule: Rule::RecipientCount,
                expected: 1,
                observed: post.coin_object_count as u128,
            },
        )
    } else if amount <= 0 {
        Err(TestFailure::PredictedOutOfRange { rule: Rule::RecipientAmount })
    } else if post.total_balance != amount {
        Err(
            TestFailure::Consistency {
                rule: Rule::RecipientBalance,
                expected: amount as u128,
                observed: post.total_balance,
            },
        )
    } else {
        Ok(())
    }
}

/// Executable check for rule T, recipient side.
pub fn verify_transfer_recipient(amount: i128, post: &BalanceSnapshot) -> (r: Result<
    (),
    TestFailure,
>)
    ensures
        r == transfer_recipient_verdict(amount, *post),
        r is Ok <==> transfer_recipient_holds(amount, *post),
{
    if post.coin_object_count != 1 {
        Err(
            TestFailure::Consistency {
                rule: Rule::RecipientCount,
                expected: 1,
                observed: post.coin_object_count as u128,
            },
        )
    } else if amount <= 0 {
        Err(TestFailure::PredictedOutOfRange { rule: Rule::RecipientAmount })
    } else {
        let credited: u128 = amount as u128;
        if post.total_balance != credited {
            Err(
                TestFailure::Consistency {
                    rule: Rule::RecipientBalance,
                    expected: credited,
                    observed: post.total_balance,
                },
            )
        } else {
            Ok(())
        }
    }
}

/// Rule S: a stake delegation consumes exactly one coin object while
/// the total moves by the effects' delta (typically negative: the
/// staked amount plus gas, net of any automatic coin merging).
pub open spec fn stake_holds(
    pre: BalanceSnapshot,
    amount: i128,
    post: BalanceSnapshot,
    coin_type: CoinType,
) -> bool {
    &&& post.coin_type == coin_type
    &&& pre.coin_object_count >= 1
    &&& post.coin_object_count == pre.coin_object_count - 1
    &&& total_in_range(pre.total_balance, amount)
    &&& post.total_balance == pre.total_balance + amount
}

/// The failure reported when rule S does not hold, with the checks run
/// in order (asset type, count, range, total). A pre-state with no
/// coin object at all predicts a negative count, which no snapshot can
/// match.
pub open spec fn stake_verdict(
    pre: BalanceSnapshot,
    amount: i128,
    post: BalanceSnapshot,
    coin_type: CoinType,
) -> Result<(), TestFailure> {
    if post.coin_type != coin_type {
        Err(
            TestFailure::Consistency {
                rule: Rule::AssetType,
                expected: coin_type.id as u128,
                observed: post.coin_type.id as u128,
            },
        )
    } else if pre.coin_object_count == 0 {
        Err(TestFailure::PredictedOutOfRange { rule: Rule::StakeCount })
    } else if post.coin_object_count != pre.coin_object_count - 1 {
        Err(
            TestFailure::Consistency {
                rule: Rule::StakeCount,
                expected: (pre.coin_object_count - 1) as u128,
                observed: post.coin_object_count as u128,
            },
        )
    } else if !total_in_range(pre.total_balance, amount) {
        Err(TestFailure::PredictedOutOfRange { rule: Rule::StakeBalance })
    } else if post.total_balance != pre.total_balance + amount {
        Err(
            TestFailure::Consistency {
                rule: Rule::StakeBalance,
                expected: (pre.total_balance + amount) as u128,
                observed: post.total_balance,
            },
        )
    } else {
        Ok(())
    }
}

/// Executable check for rule S.
pub fn verify_stake(
    pre: &BalanceSnapshot,
    amount: i128,
    post: &BalanceSnapshot,
    coin_type: CoinType,
) -> (r: Result<(), TestFailure>)
    ensures
        r == stake_verdict(*pre, amount, *post, coin_type),
        r is Ok <==> stake_holds(*pre, amount, *post, coin_type),
{
    if !(post.coin_type == coin_type) {
        Err(
            TestFailure::Consistency {
                rule: Rule::AssetType,
                expected: coin_type.id as u128,
                observed: post.coin_type.id as u128,
            },
        )
    } else if pre.coin_object_count == 0 {
        Err(TestFailure::PredictedOutOfRange { rule: Rule::StakeCount })
    } else if post.coin_object_count != pre.coin_object_count - 1 {
        Err(
            TestFailure::Consistency {
                rule: Rule::StakeCount,
                expected: (pre.coin_object_count - 1) as u128,
                observed: post.coin_object_count as u128,
            },
        )
    } else {
        match predict_total(pre.total_balance, amount) {
            None => Err(TestFailure::PredictedOutOfRange { rule: Rule::StakeBalance }),
            Some(predicted) => if post.total_balance != predicted {
                Err(
                    TestFailure::Consistency {
                        rule: Rule::StakeBalance,
                        expected: predicted,
                        observed: post.total_balance,
                    },
                )
            } else {
                Ok(())
            },
        }
    }
}

/// Transfer conservation: when both sides of a transfer verify, the
/// previously empty recipient owns exactly one coin holding exactly
/// the positive credited amount, the sender's total moved by exactly
/// the sender's delta, and a negative sender delta strictly decreased
/// the sender's total.
pub proof fn lemma_transfer_conservation(
    pre: BalanceSnapshot,
    sender_amount: i128,
    sender_post: BalanceSnapshot,
    recipient_amount: i128,
    recipient_post: BalanceSnapshot,
    coin_type: CoinType,
)
    requires
        transfer_sender_holds(pre, sender_amount, sender_post, coin_type),
        transfer_recipient_holds(recipient_amount, recipient_post),
    ensures
        recipient_post.coin_object_count == 1,
        recipient_post.total_balance == recipient_amount,
        recipient_amount > 0,
        sender_post.total_balance == pre.total_balance + sender_amount,
        sender_amount < 0 ==> sender_post.total_balance < pre.total_balance,
{
}

/// Count-preserving transfer: a sender who keeps at least one coin
/// object sees no change in coin-object count from a verified
/// transfer.
pub proof fn lemma_transfer_preserves_count(
    pre: BalanceSnapshot,
    amount: i128,
    post: BalanceSnapshot,
    coin_type: CoinType,
)
    requires
        transfer_sender_holds(pre, amount, post, coin_type),
    ensures
        post.coin_object_count == pre.coin_object_count,
{
}

/// Stake consumes one object: a verified stake delegation decreases
/// the coin-object count by exactly one.
pub proof fn lemma_stake_consumes_one(
    pre: BalanceSnapshot,
    amount: i128,
    post: BalanceSnapshot,
    coin_type: CoinType,
)
    requires
        stake_holds(pre, amount, post, coin_type),
    ensures
        pre.coin_object_count >= 1,
        post.coin_object_count == pre.coin_object_count - 1,
{
}

/// Round trip: a post-state consistent with no intervening transaction
/// (a zero delta) reports the same coin-object count and the same
/// total balance as the pre-state.
pub proof fn lemma_round_trip(pre: BalanceSnapshot, post: BalanceSnapshot, coin_type: CoinType)
    requires
        transfer_sender_holds(pre, 0, post, coin_type),
    ensures
        post.coin_object_count == pre.coin_object_count,
        post.total_balance == pre.total_balance,
{
}

} // verus!
