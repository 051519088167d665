//! The error taxonomy of the escrow engine.
//!
//! Validation errors (zero amounts) and insufficiency errors are detected
//! before any balance moves and are recoverable by resubmitting a corrected
//! request; authorization errors and state errors are terminal for the
//! request. Every error aborts the whole operation with no partial effect.

use vstd::prelude::*;

verus! {

/// Everything an escrow operation can fail with. Each operation's contract
/// states exactly which inputs produce which variant.
#[derive(Clone, Copy, Debug, PartialEq, Eq, Structural)]
pub enum ScrtEscrowErrors {
    /// `initialize` was asked to escrow a zero principal amount.
    InvalidInitializerTokenAmount,
    /// `initialize` was asked to request a zero counter amount.
    InvalidTakerTokenAmount,
    /// The initializer's deposit account does not cover the principal leg.
    InitializerTokenAmountInsufficient,
    /// The taker's deposit account does not cover the counter leg.
    TakerTokenAmountInsufficient,
    /// The initializer's fee-paying account does not cover its fee leg.
    InitializerFeeAmountInsufficient,
    /// The taker's fee-paying account does not cover its fee leg.
    TakerFeeAmountInsufficient,
    /// The caller of `cancel` is not the record's initializer.
    Unauthorized,
    /// An account or record that the operation addresses does not exist.
    NotFound,
    /// The addressed escrow record has already reached its terminal state.
    AlreadyClosed,
    /// A record or account to be created already occupies its address.
    AlreadyExists,
    /// A transfer was attempted between accounts holding different assets.
    AssetMismatch,
    /// A custody action presented a capability that does not match the
    /// vault's recorded controlling authority.
    AuthorityMismatch,
    /// A transfer source holds less than the amount to move.
    InsufficientBalance,
    /// A transfer destination's balance would exceed the representable range.
    AmountOverflow,
    /// A vault must be empty before its storage is released.
    VaultNotEmpty,
    /// The address derivation found no viable authority for these seeds
    /// (a seed too long, or the statistically improbable exhaustion of
    /// bump seeds).
    DerivationFailed,
}

} // verus!
