//! The data model of the ledger.
//!
//! Every account lives at a byte-string address in one flat address space.
//! An address holds either a fungible-asset token account, an escrow
//! record, or a fee registry record. The mathematical model of an account
//! is the corresponding `...V` structure over `Seq<u8>`, and the model of
//! the whole ledger is a `Map` from addresses to account models.

use vstd::prelude::*;

verus! {

/// A custodial or user-owned holding of one fungible asset.
#[derive(Debug)]
pub struct TokenAccount {
    /// The asset this account holds.
    pub mint: Vec<u8>,
    /// The identity that controls outgoing transfers: a party's address or
    /// a derived authority capability.
    pub owner: Vec<u8>,
    /// The amount currently held.
    pub balance: u64,
}

/// Model of a [`TokenAccount`].
pub struct TokenAccountV {
    pub mint: Seq<u8>,
    pub owner: Seq<u8>,
    pub balance: u64,
}

impl View for TokenAccount {
    type V = TokenAccountV;

    open spec fn view(&self) -> TokenAccountV {
        TokenAccountV { mint: self.mint@, owner: self.owner@, balance: self.balance }
    }
}

/// Lifecycle state of an escrow record.
///
/// A stored record is `Active` until the terminal operation that consumes
/// it marks it `Closed`; `Uninitialized` describes a record that has been
/// allocated but whose escrow has not been funded, a state the engine
/// itself never stores.
#[derive(Clone, Copy, Debug, PartialEq, Eq, Structural)]
pub enum EscrowState {
    Uninitialized,
    Active,
    Closed,
}

/// One pending two-party swap: the routing addresses, the economic terms,
/// and the lifecycle state.
///
/// Invariant of every honest history: while `state` is `Active`, the vault
/// at `vault_account` holds exactly `initializer_amount` of
/// `deposit_token`, controlled by `vault_authority`.
#[derive(Debug)]
pub struct EscrowAccount {
    /// The party that created and funded the escrow.
    pub initializer_key: Vec<u8>,
    /// Where the principal returns on `cancel`.
    pub initializer_deposit_token_account: Vec<u8>,
    /// Where the counter payment arrives on `exchange`.
    pub initializer_receive_token_account: Vec<u8>,
    /// Where the initializer's fee returns on `cancel`.
    pub initializer_fee_paying_token_account: Vec<u8>,
    /// The custodial vault holding the principal.
    pub vault_account: Vec<u8>,
    /// The derived capability that controls the vault.
    pub vault_authority: Vec<u8>,
    /// The asset deposited by the initializer.
    pub deposit_token: Vec<u8>,
    /// The asset requested in return.
    pub receive_token: Vec<u8>,
    /// The asset in which fees are charged.
    pub fee_token: Vec<u8>,
    /// The principal amount locked in the vault; positive while Active.
    pub initializer_amount: u64,
    /// The counter amount the taker must pay; positive while Active.
    pub taker_amount: u64,
    /// Lifecycle state.
    pub state: EscrowState,
    /// The destination for collected fees.
    pub fee_collect_token_account: Vec<u8>,
    /// The fee the initializer paid into the fee vault at creation.
    pub fee_amount_initializer: u64,
    /// The fee the taker owes at exchange time.
    pub fee_amount_taker: u64,
}

/// Model of an [`EscrowAccount`].
pub struct EscrowAccountV {
    pub initializer_key: Seq<u8>,
    pub initializer_deposit_token_account: Seq<u8>,
    pub initializer_receive_token_account: Seq<u8>,
    pub initializer_fee_paying_token_account: Seq<u8>,
    pub vault_account: Seq<u8>,
    pub vault_authority: Seq<u8>,
    pub deposit_token: Seq<u8>,
    pub receive_token: Seq<u8>,
    pub fee_token: Seq<u8>,
    pub initializer_amount: u64,
    pub taker_amount: u64,
    pub state: EscrowState,
    pub fee_collect_token_account: Seq<u8>,
    pub fee_amount_initializer: u64,
    pub fee_amount_taker: u64,
}

impl View for EscrowAccount {
    type V = EscrowAccountV;

    open spec fn view(&self) -> EscrowAccountV {
        EscrowAccountV {
            initializer_key: self.initializer_key@,
            initializer_deposit_token_account: self.initializer_deposit_token_account@,
            initializer_receive_token_account: self.initializer_receive_token_account@,
            initializer_fee_paying_token_account: self.initializer_fee_paying_token_account@,
            vault_account: self.vault_account@,
            vault_authority: self.vault_authority@,
            deposit_token: self.deposit_token@,
            receive_token: self.receive_token@,
            fee_token: self.fee_token@,
            initializer_amount: self.initializer_amount,
            taker_amount: self.taker_amount,
            state: self.state,
            fee_collect_token_account: self.fee_collect_token_account@,
            fee_amount_initializer: self.fee_amount_initializer,
            fee_amount_taker: self.fee_amount_taker,
        }
    }
}

/// The process-wide fee configuration for one fee asset: created at most
/// once, then read by every escrow charging fees in that asset.
#[derive(Debug)]
pub struct PdaAccount {
    /// The operator that created the registry.
    pub initializer_key: Vec<u8>,
    /// The asset in which this registry's fees are charged.
    pub fee_token: Vec<u8>,
    /// The custodial vault that accumulates initializer fees.
    pub vault_fee_account: Vec<u8>,
    /// The derived capability that controls the fee vault.
    pub vault_fee_authority: Vec<u8>,
}

/// Model of a [`PdaAccount`].
pub struct PdaAccountV {
    pub initializer_key: Seq<u8>,
    pub fee_token: Seq<u8>,
    pub vault_fee_account: Seq<u8>,
    pub vault_fee_authority: Seq<u8>,
}

impl View for PdaAccount {
    type V = PdaAccountV;

    open spec fn view(&self) -> PdaAccountV {
        PdaAccountV {
            initializer_key: self.initializer_key@,
            fee_token: self.fee_token@,
            vault_fee_account: self.vault_fee_account@,
            vault_fee_authority: self.vault_fee_authority@,
        }
    }
}

/// What one address of the ledger holds.
#[derive(Debug)]
pub enum AccountData {
    Token(TokenAccount),
    Escrow(EscrowAccount),
    Registry(PdaAccount),
}

/// Model of [`AccountData`].
pub enum AccountDataV {
    Token(TokenAccountV),
    Escrow(EscrowAccountV),
    Registry(PdaAccountV),
}

impl View for AccountData {
    type V = AccountDataV;

    open spec fn view(&self) -> AccountDataV {
        match self {
            AccountData::Token(t) => AccountDataV::Token(t@),
            AccountData::Escrow(e) => AccountDataV::Escrow(e@),
            AccountData::Registry(p) => AccountDataV::Registry(p@),
        }
    }
}

/// Copies a byte string, preserving its model.
pub fn clone_bytes(v: &Vec<u8>) -> (r: Vec<u8>)
    ensures
        r@ == v@,
{
    let r = v.clone();
    proof {
        assert(r@ =~= v@);
    }
    r
}

impl TokenAccount {
    /// Copies the account, preserving its model.
    pub fn duplicate(&self) -> (r: Self)
        ensures
            r@ == self@,
    {
        TokenAccount {
            mint: clone_bytes(&self.mint),
            owner: clone_bytes(&self.owner),
            balance: self.balance,
        }
    }
}

impl EscrowAccount {
    /// Copies the record, preserving its model.
    pub fn duplicate(&self) -> (r: Self)
        ensures
            r@ == self@,
    {
        EscrowAccount {
            initializer_key: clone_bytes(&self.initializer_key),
            initializer_deposit_token_account: clone_bytes(
                &self.initializer_deposit_token_account,
            ),
            initializer_receive_token_account: clone_bytes(
                &self.initializer_receive_token_account,
            ),
            initializer_fee_paying_token_account: clone_bytes(
                &self.initializer_fee_paying_token_account,
            ),
            vault_account: clone_bytes(&self.vault_account),
            vault_authority: clone_bytes(&self.vault_authority),
            deposit_token: clone_bytes(&self.deposit_token),
            receive_token: clone_bytes(&self.receive_token),
            fee_token: clone_bytes(&self.fee_token),
            initializer_amount: self.initializer_amount,
            taker_amount: self.taker_amount,
            state: self.state,
            fee_collect_token_account: clone_bytes(&self.fee_collect_token_account),
            fee_amount_initializer: self.fee_amount_initializer,
            fee_amount_taker: self.fee_amount_taker,
        }
    }
}

impl PdaAccount {
    /// Copies the record, preserving its model.
    pub fn duplicate(&self) -> (r: Self)
        ensures
            r@ == self@,
    {
        PdaAccount {
            initializer_key: clone_bytes(&self.initializer_key),
            fee_token: clone_bytes(&self.fee_token),
            vault_fee_account: clone_bytes(&self.vault_fee_account),
            vault_fee_authority: clone_bytes(&self.vault_fee_authority),
        }
    }
}

impl AccountData {
    /// Copies the account contents, preserving their model.
    pub fn duplicate(&self) -> (r: Self)
        ensures
            r@ == self@,
    {
        match self {
            AccountData::Token(t) => AccountData::Token(t.duplicate()),
            AccountData::Escrow(e) => AccountData::Escrow(e.duplicate()),
            AccountData::Registry(p) => AccountData::Registry(p.duplicate()),
        }
    }
}

} // verus!
