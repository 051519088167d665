//! Lifecycle events.
//!
//! Each successful operation returns the notification it would emit to an
//! external observer. Events are fire-and-forget descriptions of the
//! transition's economic parameters and are never read back by the engine.

use vstd::prelude::*;

verus! {

/// Emitted when an escrow is created and funded.
#[derive(Debug)]
pub struct InitializEvent {
    pub initializer: Vec<u8>,
    pub deposit_token: Vec<u8>,
    pub receive_token: Vec<u8>,
    pub fee_token: Vec<u8>,
    pub fee_collector: Vec<u8>,
    pub deposit_amount: u64,
    pub receive_amount: u64,
    pub initializer_fee_amount: u64,
    pub taker_fee_amount: u64,
}

/// Model of an [`InitializEvent`].
pub struct InitializEventV {
    pub initializer: Seq<u8>,
    pub deposit_token: Seq<u8>,
    pub receive_token: Seq<u8>,
    pub fee_token: Seq<u8>,
    pub fee_collector: Seq<u8>,
    pub deposit_amount: u64,
    pub receive_amount: u64,
    pub initializer_fee_amount: u64,
    pub taker_fee_amount: u64,
}

impl View for InitializEvent {
    type V = InitializEventV;

    open spec fn view(&self) -> InitializEventV {
        InitializEventV {
            initializer: self.initializer@,
            deposit_token: self.deposit_token@,
            receive_token: self.receive_token@,
            fee_token: self.fee_token@,
            fee_collector: self.fee_collector@,
            deposit_amount: self.deposit_amount,
            receive_amount: self.receive_amount,
            initializer_fee_amount: self.initializer_fee_amount,
            taker_fee_amount: self.taker_fee_amount,
        }
    }
}

/// Emitted when an escrow is cancelled and its funds returned.
#[derive(Debug)]
pub struct CancelEvent {
    pub initializer: Vec<u8>,
    pub deposit_token: Vec<u8>,
    pub receive_token: Vec<u8>,
    pub deposit_amount: u64,
    pub receive_amount: u64,
}

/// Model of a [`CancelEvent`].
pub struct CancelEventV {
    pub initializer: Seq<u8>,
    pub deposit_token: Seq<u8>,
    pub receive_token: Seq<u8>,
    pub deposit_amount: u64,
    pub receive_amount: u64,
}

impl View for CancelEvent {
    type V = CancelEventV;

    open spec fn view(&self) -> CancelEventV {
        CancelEventV {
            initializer: self.initializer@,
            deposit_token: self.deposit_token@,
            receive_token: self.receive_token@,
            deposit_amount: self.deposit_amount,
            receive_amount: self.receive_amount,
        }
    }
}

/// Emitted when a swap settles.
#[derive(Debug)]
pub struct ExchangeEvent {
    pub initializer: Vec<u8>,
    pub taker: Vec<u8>,
    pub deposit_token: Vec<u8>,
    pub receive_token: Vec<u8>,
    pub deposit_amount: u64,
    pub receive_amount: u64,
}

/// Model of an [`ExchangeEvent`].
pub struct ExchangeEventV {
    pub initializer: Seq<u8>,
    pub taker: Seq<u8>,
    pub deposit_token: Seq<u8>,
    pub receive_token: Seq<u8>,
    pub deposit_amount: u64,
    pub receive_amount: u64,
}

impl View for ExchangeEvent {
    type V = ExchangeEventV;

    open spec fn view(&self) -> ExchangeEventV {
        ExchangeEventV {
            initializer: self.initializer@,
            taker: self.taker@,
            deposit_token: self.deposit_token@,
            receive_token: self.receive_token@,
            deposit_amount: self.deposit_amount,
            receive_amount: self.receive_amount,
        }
    }
}

} // verus!
