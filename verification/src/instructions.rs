//! The inputs of the four escrow operations.
//!
//! Each structure names the accounts an operation touches (by address)
//! and carries its economic parameters; the escrow engine looks every
//! balance and record up in its own ledger.

use vstd::prelude::*;

verus! {

/// Inputs of the one-time fee registry creation.
pub struct InitializePda {
    /// The operator creating the registry.
    pub initializer: Vec<u8>,
    /// The asset in which the registry's fees are charged.
    pub fee_token: Vec<u8>,
}

/// Model of [`InitializePda`].
pub struct InitializePdaV {
    pub initializer: Seq<u8>,
    pub fee_token: Seq<u8>,
}

impl View for InitializePda {
    type V = InitializePdaV;

    open spec fn view(&self) -> InitializePdaV {
        InitializePdaV { initializer: self.initializer@, fee_token: self.fee_token@ }
    }
}

/// Inputs of escrow creation.
pub struct Initialize {
    /// The party locking the principal.
    pub initializer: Vec<u8>,
    /// The asset being deposited.
    pub deposit_token: Vec<u8>,
    /// The asset requested in return.
    pub receive_token: Vec<u8>,
    /// The asset in which fees are charged.
    pub fee_token: Vec<u8>,
    /// The initializer's account funding the principal.
    pub initializer_deposit_token_account: Vec<u8>,
    /// The initializer's account that will receive the counter payment.
    pub initializer_receive_token_account: Vec<u8>,
    /// The initializer's account funding its fee.
    pub initializer_fee_paying_token_account: Vec<u8>,
    /// The destination for collected fees at exchange time.
    pub fee_collect_token_account: Vec<u8>,
    /// The principal amount to lock; must be positive.
    pub initializer_amount: u64,
    /// The counter amount requested; must be positive.
    pub taker_amount: u64,
    /// The fee the initializer pays into the fee vault now.
    pub fee_amount_initializer: u64,
    /// The fee the taker will owe at exchange time.
    pub fee_amount_taker: u64,
}

/// Model of [`Initialize`].
pub struct InitializeV {
    pub initializer: Seq<u8>,
    pub deposit_token: Seq<u8>,
    pub receive_token: Seq<u8>,
    pub fee_token: Seq<u8>,
    pub initializer_deposit_token_account: Seq<u8>,
    pub initializer_receive_token_account: Seq<u8>,
    pub initializer_fee_paying_token_account: Seq<u8>,
    pub fee_collect_token_account: Seq<u8>,
    pub initializer_amount: u64,
    pub taker_amount: u64,
    pub fee_amount_initializer: u64,
    pub fee_amount_taker: u64,
}

impl View for Initialize {
    type V = InitializeV;

    open spec fn view(&self) -> InitializeV {
        InitializeV {
            initializer: self.initializer@,
            deposit_token: self.deposit_token@,
            receive_token: self.receive_token@,
            fee_token: self.fee_token@,
            initializer_deposit_token_account: self.initializer_deposit_token_account@,
            initializer_receive_token_account: self.initializer_receive_token_account@,
            initializer_fee_paying_token_account: self.initializer_fee_paying_token_account@,
            fee_collect_token_account: self.fee_collect_token_account@,
            initializer_amount: self.initializer_amount,
            taker_amount: self.taker_amount,
            fee_amount_initializer: self.fee_amount_initializer,
            fee_amount_taker: self.fee_amount_taker,
        }
    }
}

/// Inputs of escrow cancellation.
pub struct Cancel {
    /// The caller; must be the record's initializer.
    pub initializer: Vec<u8>,
    /// The escrow record being cancelled.
    pub escrow_account: Vec<u8>,
}

/// Model of [`Cancel`].
pub struct CancelV {
    pub initializer: Seq<u8>,
    pub escrow_account: Seq<u8>,
}

impl View for Cancel {
    type V = CancelV;

    open spec fn view(&self) -> CancelV {
        CancelV { initializer: self.initializer@, escrow_account: self.escrow_account@ }
    }
}

/// Inputs of swap completion.
pub struct Exchange {
    /// The party completing the swap.
    pub taker: Vec<u8>,
    /// The escrow record being consumed.
    pub escrow_account: Vec<u8>,
    /// The taker's account funding the counter payment.
    pub taker_deposit_token_account: Vec<u8>,
    /// The taker's account that receives the principal.
    pub taker_receive_token_account: Vec<u8>,
    /// The taker's account funding its fee.
    pub taker_fee_paying_token_account: Vec<u8>,
}

/// Model of [`Exchange`].
pub struct ExchangeV {
    pub taker: Seq<u8>,
    pub escrow_account: Seq<u8>,
    pub taker_deposit_token_account: Seq<u8>,
    pub taker_receive_token_account: Seq<u8>,
    pub taker_fee_paying_token_account: Seq<u8>,
}

impl View for Exchange {
    type V = ExchangeV;

    open spec fn view(&self) -> ExchangeV {
        ExchangeV {
            taker: self.taker@,
            escrow_account: self.escrow_account@,
            taker_deposit_token_account: self.taker_deposit_token_account@,
            taker_receive_token_account: self.taker_receive_token_account@,
            taker_fee_paying_token_account: self.taker_fee_paying_token_account@,
        }
    }
}

} // verus!
