//! A trust-minimized atomic-swap escrow engine.
//!
//! An initializer locks an amount of one fungible asset in a custodial
//! vault, names the amount and asset it wants in return, and may attach a
//! protocol fee; a taker later completes the swap atomically, or the
//! initializer cancels and reclaims its funds. The engine runs over an
//! explicit ledger of token accounts, escrow records and fee registries,
//! and every transition is all-or-nothing: an operation either commits all
//! of its balance movements or leaves the ledger untouched.

pub mod account;
pub mod custody;
pub mod derivation;
pub mod engine;
pub mod error;
pub mod events;
pub mod fees;
pub mod instructions;
pub mod laws;
pub mod ledger;
