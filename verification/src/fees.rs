//! Fee accounting.
//!
//! Fee policy: the fee leg and the principal (or counter) leg are drawn
//! from the two accounts the caller declares, and each balance check
//! covers exactly what will be debited from that account. The two legs
//! stack only when the caller declares the same account for both, never
//! merely because the two legs are in the same asset. A fee amount of
//! exactly zero skips its transfer step entirely.

use vstd::prelude::*;

verus! {

/// What the initializer's fee-paying account must hold: the initializer
/// fee, plus the principal when the fee is drawn from the very account
/// that also funds the principal (the principal is debited first).
pub open spec fn spec_required_initializer_payment(
    principal_amount: u64,
    fee_amount_initializer: u64,
    fee_drawn_from_deposit_account: bool,
) -> int {
    fee_amount_initializer + if fee_drawn_from_deposit_account {
        principal_amount as int
    } else {
        0int
    }
}

/// Computes [`spec_required_initializer_payment`] exactly, in a width no
/// sum of two balances can overflow.
pub fn required_initializer_payment(
    principal_amount: u64,
    fee_amount_initializer: u64,
    fee_drawn_from_deposit_account: bool,
) -> (total: u128)
    ensures
        total as int == spec_required_initializer_payment(
            principal_amount,
            fee_amount_initializer,
            fee_drawn_from_deposit_account,
        ),
{
    fee_amount_initializer as u128 + if fee_drawn_from_deposit_account {
        principal_amount as u128
    } else {
        0u128
    }
}

/// What the taker's deposit account must hold: the counter amount, plus
/// the taker fee when the fee is drawn from the very account that also
/// funds the counter payment (the fee is debited first).
pub open spec fn spec_required_taker_payment(
    counter_amount: u64,
    fee_amount_taker: u64,
    fee_drawn_from_deposit_account: bool,
) -> int {
    counter_amount + if fee_drawn_from_deposit_account {
        fee_amount_taker as int
    } else {
        0int
    }
}

/// Computes [`spec_required_taker_payment`] exactly.
pub fn required_taker_payment(
    counter_amount: u64,
    fee_amount_taker: u64,
    fee_drawn_from_deposit_account: bool,
) -> (total: u128)
    ensures
        total as int == spec_required_taker_payment(
            counter_amount,
            fee_amount_taker,
            fee_drawn_from_deposit_account,
        ),
{
    counter_amount as u128 + if fee_drawn_from_deposit_account {
        fee_amount_taker as u128
    } else {
        0u128
    }
}

/// Whether a balance covers a required total.
pub fn validate_sufficient(account_balance: u64, required: u128) -> (r: bool)
    ensures
        r == (account_balance as int >= required as int),
{
    account_balance as u128 >= required
}

} // verus!
