//! The swap engine: the state machine over the ledger.
//!
//! Each public operation is specified by a transition function from the
//! ledger's map model to either an error or the successor model plus the
//! event emitted. An operation either commits that exact successor or
//! returns the exact error the transition function names, leaving the
//! ledger untouched — all-or-nothing settlement.

use vstd::prelude::*;

use crate::account::AccountData;
use crate::account::AccountDataV;
use crate::account::EscrowAccount;
use crate::account::EscrowAccountV;
use crate::account::EscrowState;
use crate::account::PdaAccount;
use crate::account::PdaAccountV;
use crate::account::TokenAccount;
use crate::account::TokenAccountV;
use crate::account::clone_bytes;
use crate::custody::open_vault;
use crate::custody::release_fee_vault;
use crate::custody::release_from_vault;
use crate::custody::spec_fee_vault_release;
use crate::custody::spec_open_vault;
use crate::custody::spec_vault_release;
use crate::derivation::derive_escrow_addr;
use crate::derivation::derive_fee_vault_authority;
use crate::derivation::derive_registry_addr;
use crate::derivation::derive_vault_addr;
use crate::derivation::derive_vault_authority;
use crate::derivation::escrow_addr_for;
use crate::derivation::fee_vault_authority_for;
use crate::derivation::registry_addr_for;
use crate::derivation::vault_addr_for;
use crate::derivation::vault_authority_for;
use crate::error::ScrtEscrowErrors;
use crate::events::InitializEvent;
use crate::events::InitializEventV;
use crate::events::CancelEvent;
use crate::events::CancelEventV;
use crate::events::ExchangeEvent;
use crate::events::ExchangeEventV;
use crate::fees::required_initializer_payment;
use crate::fees::required_taker_payment;
use crate::fees::spec_required_initializer_payment;
use crate::fees::spec_required_taker_payment;
use crate::fees::validate_sufficient;
use crate::instructions::Cancel;
use crate::instructions::CancelV;
use crate::instructions::Exchange;
use crate::instructions::ExchangeV;
use crate::instructions::Initialize;
use crate::instructions::InitializeV;
use crate::instructions::InitializePda;
use crate::instructions::InitializePdaV;
use crate::ledger::Ledger;
use crate::ledger::bytes_eq;
use crate::ledger::is_escrow;
use crate::ledger::is_registry;
use crate::ledger::is_token;
use crate::ledger::esc;
use crate::ledger::reg;
use crate::ledger::read_token;
use crate::ledger::spec_close;
use crate::ledger::spec_transfer;
use crate::ledger::tok;

verus! {

/// The escrow engine: the deployed program identity and the ledger it
/// operates on.
pub struct Engine {
    /// The 32-byte identity under which all addresses are derived.
    pub program_id: Vec<u8>,
    /// The account store.
    pub ledger: Ledger,
}

impl Engine {
    /// The engine is usable: its ledger is well formed and its program
    /// identity has the width the derivation substrate requires.
    pub open spec fn wf(&self) -> bool {
        self.ledger.wf() && self.program_id@.len() == 32
    }

    /// A fresh engine over an empty ledger.
    pub fn new(program_id: Vec<u8>) -> (r: Engine)
        requires
            program_id@.len() == 32,
        ensures
            r.wf(),
            r.program_id@ == program_id@,
            r.ledger@ == Map::<Seq<u8>, AccountDataV>::empty(),
    {
        Engine { program_id, ledger: Ledger::new() }
    }

    /// Creates a user-owned token account at a free address; this is how
    /// parties bring accounts into the engine's world.
    pub fn create_token_account(
        &mut self,
        addr: &Vec<u8>,
        mint: &Vec<u8>,
        owner: &Vec<u8>,
        balance: u64,
    ) -> (r: Result<(), ScrtEscrowErrors>)
        requires
            old(self).wf(),
        ensures
            final(self).wf(),
            final(self).program_id@ == old(self).program_id@,
            match r {
                Ok(_) => !old(self).ledger@.contains_key(addr@) && final(self).ledger@ == old(
                    self,
                ).ledger@.insert(
                    addr@,
                    AccountDataV::Token(
                        TokenAccountV { mint: mint@, owner: owner@, balance },
                    ),
                ),
                Err(e) => final(self).ledger@ == old(self).ledger@ && e
                    == ScrtEscrowErrors::AlreadyExists && old(self).ledger@.contains_key(addr@),
            },
    {
        if self.ledger.get_ref(addr).is_some() {
            return Err(ScrtEscrowErrors::AlreadyExists);
        }
        self.ledger.put(
            addr,
            AccountData::Token(
                TokenAccount { mint: clone_bytes(mint), owner: clone_bytes(owner), balance },
            ),
        );
        Ok(())
    }

    /// The balance of the token account at `addr`, if one is there.
    pub fn balance_of(&self, addr: &Vec<u8>) -> (r: Option<u64>)
        requires
            self.wf(),
        ensures
            match r {
                Some(b) => is_token(self.ledger@, addr@) && tok(self.ledger@, addr@).balance == b,
                None => !is_token(self.ledger@, addr@),
            },
    {
        match self.ledger.get_ref(addr) {
            Some(AccountData::Token(t)) => Some(t.balance),
            _ => None,
        }
    }

    /// The escrow record at `addr`, if one is there.
    pub fn escrow_record(&self, addr: &Vec<u8>) -> (r: Option<crate::account::EscrowAccount>)
        requires
            self.wf(),
        ensures
            match r {
                Some(rec) => is_escrow(self.ledger@, addr@) && rec@ == esc(self.ledger@, addr@),
                None => !is_escrow(self.ledger@, addr@),
            },
    {
        match self.ledger.get_ref(addr) {
            Some(AccountData::Escrow(e)) => Some(e.duplicate()),
            _ => None,
        }
    }

    /// The fee registry record at `addr`, if one is there.
    pub fn registry_record(&self, addr: &Vec<u8>) -> (r: Option<PdaAccount>)
        requires
            self.wf(),
        ensures
            match r {
                Some(rec) => is_registry(self.ledger@, addr@) && rec@ == reg(self.ledger@, addr@),
                None => !is_registry(self.ledger@, addr@),
            },
    {
        match self.ledger.get_ref(addr) {
            Some(AccountData::Registry(p)) => Some(p.duplicate()),
            _ => None,
        }
    }
}

/// The transition of the one-time fee registry creation: derives the
/// registry's address, its fee vault's address and the vault's
/// controlling capability, and creates both records, with the vault's
/// control already delegated to the derived capability.
pub open spec fn spec_initialize_pda(
    m: Map<Seq<u8>, AccountDataV>,
    pid: Seq<u8>,
    a: InitializePdaV,
) -> Result<Map<Seq<u8>, AccountDataV>, ScrtEscrowErrors> {
    match registry_addr_for(pid, a.fee_token) {
        None => Err(ScrtEscrowErrors::DerivationFailed),
        Some(pda_addr) => match vault_addr_for(pid, pda_addr) {
            None => Err(ScrtEscrowErrors::DerivationFailed),
            Some(fee_vault_addr) => match fee_vault_authority_for(pid, pda_addr) {
                None => Err(ScrtEscrowErrors::DerivationFailed),
                Some(fee_auth) => if m.contains_key(pda_addr) {
                    Err(ScrtEscrowErrors::AlreadyExists)
                } else if m.contains_key(fee_vault_addr) || fee_vault_addr == pda_addr {
                    Err(ScrtEscrowErrors::AlreadyExists)
                } else {
                    Ok(
                        m.insert(
                            pda_addr,
                            AccountDataV::Registry(
                                PdaAccountV {
                                    initializer_key: a.initializer,
                                    fee_token: a.fee_token,
                                    vault_fee_account: fee_vault_addr,
                                    vault_fee_authority: fee_auth,
                                },
                            ),
                        ).insert(
                            fee_vault_addr,
                            AccountDataV::Token(
                                TokenAccountV { mint: a.fee_token, owner: fee_auth, balance: 0 },
                            ),
                        ),
                    )
                },
            },
        },
    }
}

impl Engine {
    /// Creates the process-wide fee registry for `a.fee_token`, opening
    /// its fee vault and delegating the vault's control to the derived
    /// authority. Succeeds exactly when the derivations succeed and
    /// neither derived address is occupied.
    pub fn initialize_pda(&mut self, a: &InitializePda) -> (r: Result<(), ScrtEscrowErrors>)
        requires
            old(self).wf(),
        ensures
            final(self).wf(),
            final(self).program_id@ == old(self).program_id@,
            match r {
                Ok(_) => spec_initialize_pda(old(self).ledger@, old(self).program_id@, a@) == Ok::<
                    _,
                    ScrtEscrowErrors,
                >(final(self).ledger@),
                Err(e) => final(self).ledger@ == old(self).ledger@ && spec_initialize_pda(
                    old(self).ledger@,
                    old(self).program_id@,
                    a@,
                ) == Err::<Map<Seq<u8>, AccountDataV>, _>(e),
            },
    {
        let pda_addr = match derive_registry_addr(&self.program_id, &a.fee_token) {
            Some(v) => v,
            None => {
                return Err(ScrtEscrowErrors::DerivationFailed);
            },
        };
        let fee_vault_addr = match derive_vault_addr(&self.program_id, &pda_addr) {
            Some(v) => v,
            None => {
                return Err(ScrtEscrowErrors::DerivationFailed);
            },
        };
        let fee_auth = match derive_fee_vault_authority(&self.program_id, &pda_addr) {
            Some(v) => v,
            None => {
                return Err(ScrtEscrowErrors::DerivationFailed);
            },
        };
        if self.ledger.get_ref(&pda_addr).is_some() {
            return Err(ScrtEscrowErrors::AlreadyExists);
        }
        if self.ledger.get_ref(&fee_vault_addr).is_some() || bytes_eq(&fee_vault_addr, &pda_addr) {
            return Err(ScrtEscrowErrors::AlreadyExists);
        }
        let registry = PdaAccount {
            initializer_key: clone_bytes(&a.initializer),
            fee_token: clone_bytes(&a.fee_token),
            vault_fee_account: clone_bytes(&fee_vault_addr),
            vault_fee_authority: clone_bytes(&fee_auth),
        };
        self.ledger.put(&pda_addr, AccountData::Registry(registry));
        let fee_vault = TokenAccount {
            mint: clone_bytes(&a.fee_token),
            owner: fee_auth,
            balance: 0,
        };
        self.ledger.put(&fee_vault_addr, AccountData::Token(fee_vault));
        Ok(())
    }
}

/// The first violated constraint among the accounts `initialize` touches,
/// if any: every routed account must exist and hold a token account, the
/// initializer must own its three source and destination accounts, and
/// each account's asset must match the leg it serves.
pub open spec fn initialize_accounts_error(
    m: Map<Seq<u8>, AccountDataV>,
    a: InitializeV,
    regv: PdaAccountV,
) -> Option<ScrtEscrowErrors> {
    if !is_token(m, a.initializer_deposit_token_account) {
        Some(ScrtEscrowErrors::NotFound)
    } else if tok(m, a.initializer_deposit_token_account).mint != a.deposit_token {
        Some(ScrtEscrowErrors::AssetMismatch)
    } else if tok(m, a.initializer_deposit_token_account).owner != a.initializer {
        Some(ScrtEscrowErrors::Unauthorized)
    } else if !is_token(m, a.initializer_receive_token_account) {
        Some(ScrtEscrowErrors::NotFound)
    } else if tok(m, a.initializer_receive_token_account).mint != a.receive_token {
        Some(ScrtEscrowErrors::AssetMismatch)
    } else if tok(m, a.initializer_receive_token_account).owner != a.initializer {
        Some(ScrtEscrowErrors::Unauthorized)
    } else if !is_token(m, a.initializer_fee_paying_token_account) {
        Some(ScrtEscrowErrors::NotFound)
    } else if tok(m, a.initializer_fee_paying_token_account).mint != regv.fee_token {
        Some(ScrtEscrowErrors::AssetMismatch)
    } else if tok(m, a.initializer_fee_paying_token_account).owner != a.initializer {
        Some(ScrtEscrowErrors::Unauthorized)
    } else if !is_token(m, a.fee_collect_token_account) {
        Some(ScrtEscrowErrors::NotFound)
    } else if tok(m, a.fee_collect_token_account).mint != regv.fee_token {
        Some(ScrtEscrowErrors::AssetMismatch)
    } else if !is_token(m, regv.vault_fee_account) {
        Some(ScrtEscrowErrors::NotFound)
    } else if tok(m, regv.vault_fee_account).mint != regv.fee_token {
        Some(ScrtEscrowErrors::AssetMismatch)
    } else {
        None
    }
}

/// Checks [`initialize_accounts_error`] and hands back the balances of
/// the two accounts that will be debited.
fn check_initialize_accounts(ledger: &Ledger, a: &Initialize, regv: &PdaAccount) -> (r: Result<
    (u64, u64),
    ScrtEscrowErrors,
>)
    requires
        ledger.wf(),
    ensures
        match r {
            Ok(balances) => initialize_accounts_error(ledger@, a@, regv@) is None && balances.0
                == tok(ledger@, a@.initializer_fee_paying_token_account).balance && balances.1
                == tok(ledger@, a@.initializer_deposit_token_account).balance,
            Err(e) => initialize_accounts_error(ledger@, a@, regv@) == Some(e),
        },
{
    let deposit = match read_token(ledger, &a.initializer_deposit_token_account) {
        Ok(t) => t,
        Err(e) => {
            return Err(e);
        },
    };
    if !bytes_eq(&deposit.mint, &a.deposit_token) {
        return Err(ScrtEscrowErrors::AssetMismatch);
    }
    if !bytes_eq(&deposit.owner, &a.initializer) {
        return Err(ScrtEscrowErrors::Unauthorized);
    }
    let receive = match read_token(ledger, &a.initializer_receive_token_account) {
        Ok(t) => t,
        Err(e) => {
            return Err(e);
        },
    };
    if !bytes_eq(&receive.mint, &a.receive_token) {
        return Err(ScrtEscrowErrors::AssetMismatch);
    }
    if !bytes_eq(&receive.owner, &a.initializer) {
        return Err(ScrtEscrowErrors::Unauthorized);
    }
    let fee_paying = match read_token(ledger, &a.initializer_fee_paying_token_account) {
        Ok(t) => t,
        Err(e) => {
            return Err(e);
        },
    };
    if !bytes_eq(&fee_paying.mint, &regv.fee_token) {
        return Err(ScrtEscrowErrors::AssetMismatch);
    }
    if !bytes_eq(&fee_paying.owner, &a.initializer) {
        return Err(ScrtEscrowErrors::Unauthorized);
    }
    let fee_collect = match read_token(ledger, &a.fee_collect_token_account) {
        Ok(t) => t,
        Err(e) => {
            return Err(e);
        },
    };
    if !bytes_eq(&fee_collect.mint, &regv.fee_token) {
        return Err(ScrtEscrowErrors::AssetMismatch);
    }
    let fee_vault = match read_token(ledger, &regv.vault_fee_account) {
        Ok(t) => t,
        Err(e) => {
            return Err(e);
        },
    };
    if !bytes_eq(&fee_vault.mint, &regv.fee_token) {
        return Err(ScrtEscrowErrors::AssetMismatch);
    }
    Ok((fee_paying.balance, deposit.balance))
}

/// The escrow record that a successful `initialize` writes.
pub open spec fn spec_new_escrow_record(
    a: InitializeV,
    vault_addr: Seq<u8>,
    vault_auth: Seq<u8>,
) -> EscrowAccountV {
    EscrowAccountV {
        initializer_key: a.initializer,
        initializer_deposit_token_account: a.initializer_deposit_token_account,
        initializer_receive_token_account: a.initializer_receive_token_account,
        initializer_fee_paying_token_account: a.initializer_fee_paying_token_account,
        vault_account: vault_addr,
        vault_authority: vault_auth,
        deposit_token: a.deposit_token,
        receive_token: a.receive_token,
        fee_token: a.fee_token,
        initializer_amount: a.initializer_amount,
        taker_amount: a.taker_amount,
        state: EscrowState::Active,
        fee_collect_token_account: a.fee_collect_token_account,
        fee_amount_initializer: a.fee_amount_initializer,
        fee_amount_taker: a.fee_amount_taker,
    }
}

/// The event that a successful `initialize` emits.
pub open spec fn spec_initialize_event(a: InitializeV) -> InitializEventV {
    InitializEventV {
        initializer: a.initializer,
        deposit_token: a.deposit_token,
        receive_token: a.receive_token,
        fee_token: a.fee_token,
        fee_collector: a.fee_collect_token_account,
        deposit_amount: a.initializer_amount,
        receive_amount: a.taker_amount,
        initializer_fee_amount: a.fee_amount_initializer,
        taker_fee_amount: a.fee_amount_taker,
    }
}

/// The transition of escrow creation.
///
/// In order: both amounts must be positive; the fee registry for the fee
/// asset must exist; the routed accounts must pass
/// [`initialize_accounts_error`]; the record's and vault's derived
/// addresses must be free; the fee-paying account must cover the
/// initializer fee (plus the principal when both legs are drawn from the
/// same account, which is debited principal-first); the deposit account
/// must cover the principal. On success the record is written `Active`,
/// the vault is opened under the derived capability, the principal moves
/// into the vault, and a positive initializer fee moves into the
/// registry's fee vault.
pub open spec fn spec_initialize(
    m: Map<Seq<u8>, AccountDataV>,
    pid: Seq<u8>,
    a: InitializeV,
) -> Result<(Map<Seq<u8>, AccountDataV>, InitializEventV), ScrtEscrowErrors> {
    if a.initializer_amount == 0 {
        Err(ScrtEscrowErrors::InvalidInitializerTokenAmount)
    } else if a.taker_amount == 0 {
        Err(ScrtEscrowErrors::InvalidTakerTokenAmount)
    } else {
        match registry_addr_for(pid, a.fee_token) {
            None => Err(ScrtEscrowErrors::DerivationFailed),
            Some(reg_addr) => if !is_registry(m, reg_addr) {
                Err(ScrtEscrowErrors::NotFound)
            } else {
                let regv = reg(m, reg_addr);
                match initialize_accounts_error(m, a, regv) {
                    Some(e) => Err(e),
                    None => match escrow_addr_for(
                        pid,
                        a.initializer,
                        a.deposit_token,
                        a.receive_token,
                    ) {
                        None => Err(ScrtEscrowErrors::DerivationFailed),
                        Some(escrow_addr) => if m.contains_key(escrow_addr) {
                            Err(ScrtEscrowErrors::AlreadyExists)
                        } else {
                            match vault_addr_for(pid, escrow_addr) {
                                None => Err(ScrtEscrowErrors::DerivationFailed),
                                Some(vault_addr) => if m.contains_key(vault_addr) || vault_addr
                                    == escrow_addr {
                                    Err(ScrtEscrowErrors::AlreadyExists)
                                } else {
                                    match vault_authority_for(pid, escrow_addr) {
                                        None => Err(ScrtEscrowErrors::DerivationFailed),
                                        Some(vault_auth) => spec_initialize_funded(
                                            m,
                                            a,
                                            regv,
                                            escrow_addr,
                                            vault_addr,
                                            vault_auth,
                                        ),
                                    }
                                },
                            }
                        },
                    },
                }
            },
        }
    }
}

/// The funding tail of [`spec_initialize`]: the balance checks and the
/// all-or-nothing application.
pub open spec fn spec_initialize_funded(
    m: Map<Seq<u8>, AccountDataV>,
    a: InitializeV,
    regv: PdaAccountV,
    escrow_addr: Seq<u8>,
    vault_addr: Seq<u8>,
    vault_auth: Seq<u8>,
) -> Result<(Map<Seq<u8>, AccountDataV>, InitializEventV), ScrtEscrowErrors> {
    let fee_required = spec_required_initializer_payment(
        a.initializer_amount,
        a.fee_amount_initializer,
        a.initializer_fee_paying_token_account == a.initializer_deposit_token_account,
    );
    if tok(m, a.initializer_fee_paying_token_account).balance < fee_required {
        Err(ScrtEscrowErrors::InitializerFeeAmountInsufficient)
    } else if tok(m, a.initializer_deposit_token_account).balance < a.initializer_amount {
        Err(ScrtEscrowErrors::InitializerTokenAmountInsufficient)
    } else {
        let with_record = m.insert(
            escrow_addr,
            AccountDataV::Escrow(spec_new_escrow_record(a, vault_addr, vault_auth)),
        );
        match spec_open_vault(
            with_record,
            vault_addr,
            a.deposit_token,
            vault_auth,
            a.initializer_deposit_token_account,
            a.initializer_amount,
        ) {
            Err(e) => Err(e),
            Ok(funded) => if a.fee_amount_initializer == 0 {
                Ok((funded, spec_initialize_event(a)))
            } else {
                match spec_transfer(
                    funded,
                    a.initializer_fee_paying_token_account,
                    regv.vault_fee_account,
                    a.fee_amount_initializer,
                ) {
                    Err(e) => Err(e),
                    Ok(fee_paid) => Ok((fee_paid, spec_initialize_event(a))),
                }
            },
        }
    }
}

impl Engine {
    /// Creates and funds an escrow: writes the `Active` record, opens the
    /// principal vault under the derived capability, moves the principal
    /// in, and moves a positive initializer fee into the registry's fee
    /// vault. Commits exactly the transition of [`spec_initialize`], or
    /// returns its error with the ledger untouched.
    pub fn initialize(&mut self, a: &Initialize) -> (r: Result<InitializEvent, ScrtEscrowErrors>)
        requires
            old(self).wf(),
        ensures
            final(self).wf(),
            final(self).program_id@ == old(self).program_id@,
            match r {
                Ok(ev) => spec_initialize(old(self).ledger@, old(self).program_id@, a@) == Ok::<
                    _,
                    ScrtEscrowErrors,
                >((final(self).ledger@, ev@)),
                Err(e) => final(self).ledger@ == old(self).ledger@ && spec_initialize(
                    old(self).ledger@,
                    old(self).program_id@,
                    a@,
                ) == Err::<(Map<Seq<u8>, AccountDataV>, InitializEventV), _>(e),
            },
    {
        if a.initializer_amount == 0 {
            return Err(ScrtEscrowErrors::InvalidInitializerTokenAmount);
        }
        if a.taker_amount == 0 {
            return Err(ScrtEscrowErrors::InvalidTakerTokenAmount);
        }
        let reg_addr = match derive_registry_addr(&self.program_id, &a.fee_token) {
            Some(v) => v,
            None => {
                return Err(ScrtEscrowErrors::DerivationFailed);
            },
        };
        let regv: PdaAccount = match self.ledger.get_ref(&reg_addr) {
            Some(AccountData::Registry(p)) => p.duplicate(),
            _ => {
                return Err(ScrtEscrowErrors::NotFound);
            },
        };
        let balances = match check_initialize_accounts(&self.ledger, a, &regv) {
            Ok(b) => b,
            Err(e) => {
                return Err(e);
            },
        };
        let escrow_addr = match derive_escrow_addr(
            &self.program_id,
            &a.initializer,
            &a.deposit_token,
            &a.receive_token,
        ) {
            Some(v) => v,
            None => {
                return Err(ScrtEscrowErrors::DerivationFailed);
            },
        };
        if self.ledger.get_ref(&escrow_addr).is_some() {
            return Err(ScrtEscrowErrors::AlreadyExists);
        }
        let vault_addr = match derive_vault_addr(&self.program_id, &escrow_addr) {
            Some(v) => v,
            None => {
                return Err(ScrtEscrowErrors::DerivationFailed);
            },
        };
        if self.ledger.get_ref(&vault_addr).is_some() || bytes_eq(&vault_addr, &escrow_addr) {
            return Err(ScrtEscrowErrors::AlreadyExists);
        }
        let vault_auth = match derive_vault_authority(&self.program_id, &escrow_addr) {
            Some(v) => v,
            None => {
                return Err(ScrtEscrowErrors::DerivationFailed);
            },
        };
        let same_source = bytes_eq(
            &a.initializer_fee_paying_token_account,
            &a.initializer_deposit_token_account,
        );
        let fee_required = required_initializer_payment(
            a.initializer_amount,
            a.fee_amount_initializer,
            same_source,
        );
        if !validate_sufficient(balances.0, fee_required) {
            return Err(ScrtEscrowErrors::InitializerFeeAmountInsufficient);
        }
        if balances.1 < a.initializer_amount {
            return Err(ScrtEscrowErrors::InitializerTokenAmountInsufficient);
        }
        let mut staged = self.ledger.duplicate();
        let record = EscrowAccount {
            initializer_key: clone_bytes(&a.initializer),
            initializer_deposit_token_account: clone_bytes(&a.initializer_deposit_token_account),
            initializer_receive_token_account: clone_bytes(&a.initializer_receive_token_account),
            initializer_fee_paying_token_account: clone_bytes(
                &a.initializer_fee_paying_token_account,
            ),
            vault_account: clone_bytes(&vault_addr),
            vault_authority: clone_bytes(&vault_auth),
            deposit_token: clone_bytes(&a.deposit_token),
            receive_token: clone_bytes(&a.receive_token),
            fee_token: clone_bytes(&a.fee_token),
            initializer_amount: a.initializer_amount,
            taker_amount: a.taker_amount,
            state: EscrowState::Active,
            fee_collect_token_account: clone_bytes(&a.fee_collect_token_account),
            fee_amount_initializer: a.fee_amount_initializer,
            fee_amount_taker: a.fee_amount_taker,
        };
        staged.put(&escrow_addr, AccountData::Escrow(record));
        match open_vault(
            &mut staged,
            &vault_addr,
            &a.deposit_token,
            &vault_auth,
            &a.initializer_deposit_token_account,
            a.initializer_amount,
        ) {
            Ok(_) => (),
            Err(e) => {
                return Err(e);
            },
        }
        if a.fee_amount_initializer > 0 {
            match staged.transfer(
                &a.initializer_fee_paying_token_account,
                &regv.vault_fee_account,
                a.fee_amount_initializer,
            ) {
                Ok(_) => (),
                Err(e) => {
                    return Err(e);
                },
            }
        }
        self.ledger = staged;
        Ok(
            InitializEvent {
                initializer: clone_bytes(&a.initializer),
                deposit_token: clone_bytes(&a.deposit_token),
                receive_token: clone_bytes(&a.receive_token),
                fee_token: clone_bytes(&a.fee_token),
                fee_collector: clone_bytes(&a.fee_collect_token_account),
                deposit_amount: a.initializer_amount,
                receive_amount: a.taker_amount,
                initializer_fee_amount: a.fee_amount_initializer,
                taker_fee_amount: a.fee_amount_taker,
            },
        )
    }
}

/// The event that a successful `cancel` emits.
pub open spec fn spec_cancel_event(c: CancelV, recv: EscrowAccountV) -> CancelEventV {
    CancelEventV {
        initializer: c.initializer,
        deposit_token: recv.deposit_token,
        receive_token: recv.receive_token,
        deposit_amount: recv.initializer_amount,
        receive_amount: recv.taker_amount,
    }
}

/// The transition of escrow cancellation.
///
/// In order: the record must exist (`NotFound`) and be `Active`
/// (`AlreadyClosed` once terminal); the caller must be the record's
/// initializer (`Unauthorized`); the fee registry for the record's fee
/// asset must exist; the vault's capability is recomputed and presented;
/// then the full principal returns to the initializer's deposit account,
/// a positive initializer fee returns from the fee vault to the
/// initializer's fee-paying account, the emptied vault is closed, and the
/// record is marked `Closed`.
pub open spec fn spec_cancel(m: Map<Seq<u8>, AccountDataV>, pid: Seq<u8>, c: CancelV) -> Result<
    (Map<Seq<u8>, AccountDataV>, CancelEventV),
    ScrtEscrowErrors,
> {
    if !is_escrow(m, c.escrow_account) {
        Err(ScrtEscrowErrors::NotFound)
    } else {
        let recv = esc(m, c.escrow_account);
        if recv.state is Uninitialized {
            Err(ScrtEscrowErrors::NotFound)
        } else if recv.state is Closed {
            Err(ScrtEscrowErrors::AlreadyClosed)
        } else if recv.initializer_key != c.initializer {
            Err(ScrtEscrowErrors::Unauthorized)
        } else {
            match registry_addr_for(pid, recv.fee_token) {
                None => Err(ScrtEscrowErrors::DerivationFailed),
                Some(reg_addr) => if !is_registry(m, reg_addr) {
                    Err(ScrtEscrowErrors::NotFound)
                } else {
                    match vault_authority_for(pid, c.escrow_account) {
                        None => Err(ScrtEscrowErrors::DerivationFailed),
                        Some(vault_auth) => match spec_vault_release(
                            m,
                            recv.vault_account,
                            vault_auth,
                            recv.initializer_deposit_token_account,
                            recv.initializer_amount,
                        ) {
                            Err(e) => Err(e),
                            Ok(principal_back) => match spec_fee_vault_release(
                                principal_back,
                                pid,
                                reg(m, reg_addr),
                                reg_addr,
                                recv.initializer_fee_paying_token_account,
                                recv.fee_amount_initializer,
                            ) {
                                Err(e) => Err(e),
                                Ok(fee_back) => match spec_close(fee_back, recv.vault_account) {
                                    Err(e) => Err(e),
                                    Ok(closed) => Ok(
                                        (
                                            closed.insert(
                                                c.escrow_account,
                                                AccountDataV::Escrow(
                                                    EscrowAccountV {
                                                        state: EscrowState::Closed,
                                                        ..recv
                                                    },
                                                ),
                                            ),
                                            spec_cancel_event(c, recv),
                                        ),
                                    ),
                                },
                            },
                        },
                    }
                },
            }
        }
    }
}

impl Engine {
    /// Cancels an `Active` escrow on behalf of its initializer: returns
    /// the full principal to the initializer's deposit account, returns a
    /// positive initializer fee from the fee vault, closes the vault, and
    /// marks the record `Closed`. Commits exactly the transition of
    /// [`spec_cancel`], or returns its error with the ledger untouched.
    pub fn cancel(&mut self, c: &Cancel) -> (r: Result<CancelEvent, ScrtEscrowErrors>)
        requires
            old(self).wf(),
        ensures
            final(self).wf(),
            final(self).program_id@ == old(self).program_id@,
            match r {
                Ok(ev) => spec_cancel(old(self).ledger@, old(self).program_id@, c@) == Ok::<
                    _,
                    ScrtEscrowErrors,
                >((final(self).ledger@, ev@)),
                Err(e) => final(self).ledger@ == old(self).ledger@ && spec_cancel(
                    old(self).ledger@,
                    old(self).program_id@,
                    c@,
                ) == Err::<(Map<Seq<u8>, AccountDataV>, CancelEventV), _>(e),
            },
    {
        let recv: EscrowAccount = match self.ledger.get_ref(&c.escrow_account) {
            Some(AccountData::Escrow(e)) => e.duplicate(),
            _ => {
                return Err(ScrtEscrowErrors::NotFound);
            },
        };
        match recv.state {
            EscrowState::Uninitialized => {
                return Err(ScrtEscrowErrors::NotFound);
            },
            EscrowState::Closed => {
                return Err(ScrtEscrowErrors::AlreadyClosed);
            },
            EscrowState::Active => {},
        }
        if !bytes_eq(&recv.initializer_key, &c.initializer) {
            return Err(ScrtEscrowErrors::Unauthorized);
        }
        let reg_addr = match derive_registry_addr(&self.program_id, &recv.fee_token) {
            Some(v) => v,
            None => {
                return Err(ScrtEscrowErrors::DerivationFailed);
            },
        };
        let regv: PdaAccount = match self.ledger.get_ref(&reg_addr) {
            Some(AccountData::Registry(p)) => p.duplicate(),
            _ => {
                return Err(ScrtEscrowErrors::NotFound);
            },
        };
        let vault_auth = match derive_vault_authority(&self.program_id, &c.escrow_account) {
            Some(v) => v,
            None => {
                return Err(ScrtEscrowErrors::DerivationFailed);
            },
        };
        let mut staged = self.ledger.duplicate();
        match release_from_vault(
            &mut staged,
            &recv.vault_account,
            &vault_auth,
            &recv.initializer_deposit_token_account,
            recv.initializer_amount,
        ) {
            Ok(_) => (),
            Err(e) => {
                return Err(e);
            },
        }
        match release_fee_vault(
            &mut staged,
            &self.program_id,
            &regv,
            &reg_addr,
            &recv.initializer_fee_paying_token_account,
            recv.fee_amount_initializer,
        ) {
            Ok(_) => (),
            Err(e) => {
                return Err(e);
            },
        }
        match staged.close_token(&recv.vault_account) {
            Ok(_) => (),
            Err(e) => {
                return Err(e);
            },
        }
        let mut closed_rec = recv.duplicate();
        closed_rec.state = EscrowState::Closed;
        staged.put(&c.escrow_account, AccountData::Escrow(closed_rec));
        self.ledger = staged;
        Ok(
            CancelEvent {
                initializer: clone_bytes(&c.initializer),
                deposit_token: recv.deposit_token,
                receive_token: recv.receive_token,
                deposit_amount: recv.initializer_amount,
                receive_amount: recv.taker_amount,
            },
        )
    }
}

/// The first violated constraint among the taker's three accounts, if
/// any: each must exist and hold a token account, be owned by the taker,
/// and hold the asset of the leg it serves.
pub open spec fn exchange_accounts_error(
    m: Map<Seq<u8>, AccountDataV>,
    x: ExchangeV,
    recv: EscrowAccountV,
    regv: PdaAccountV,
) -> Option<ScrtEscrowErrors> {
    if !is_token(m, x.taker_deposit_token_account) {
        Some(ScrtEscrowErrors::NotFound)
    } else if tok(m, x.taker_deposit_token_account).owner != x.taker {
        Some(ScrtEscrowErrors::Unauthorized)
    } else if tok(m, x.taker_deposit_token_account).mint != recv.receive_token {
        Some(ScrtEscrowErrors::AssetMismatch)
    } else if !is_token(m, x.taker_receive_token_account) {
        Some(ScrtEscrowErrors::NotFound)
    } else if tok(m, x.taker_receive_token_account).owner != x.taker {
        Some(ScrtEscrowErrors::Unauthorized)
    } else if tok(m, x.taker_receive_token_account).mint != recv.deposit_token {
        Some(ScrtEscrowErrors::AssetMismatch)
    } else if !is_token(m, x.taker_fee_paying_token_account) {
        Some(ScrtEscrowErrors::NotFound)
    } else if tok(m, x.taker_fee_paying_token_account).owner != x.taker {
        Some(ScrtEscrowErrors::Unauthorized)
    } else if tok(m, x.taker_fee_paying_token_account).mint != regv.fee_token {
        Some(ScrtEscrowErrors::AssetMismatch)
    } else {
        None
    }
}

/// Checks [`exchange_accounts_error`] and hands back the balances of the
/// taker's fee-paying and deposit accounts.
fn check_exchange_accounts(
    ledger: &Ledger,
    x: &Exchange,
    recv: &EscrowAccount,
    regv: &PdaAccount,
) -> (r: Result<(u64, u64), ScrtEscrowErrors>)
    requires
        ledger.wf(),
    ensures
        match r {
            Ok(balances) => exchange_accounts_error(ledger@, x@, recv@, regv@) is None
                && balances.0 == tok(ledger@, x@.taker_fee_paying_token_account).balance
                && balances.1 == tok(ledger@, x@.taker_deposit_token_account).balance,
            Err(e) => exchange_accounts_error(ledger@, x@, recv@, regv@) == Some(e),
        },
{
    let deposit = match read_token(ledger, &x.taker_deposit_token_account) {
        Ok(t) => t,
        Err(e) => {
            return Err(e);
        },
    };
    if !bytes_eq(&deposit.owner, &x.taker) {
        return Err(ScrtEscrowErrors::Unauthorized);
    }
    if !bytes_eq(&deposit.mint, &recv.receive_token) {
        return Err(ScrtEscrowErrors::AssetMismatch);
    }
    let receive = match read_token(ledger, &x.taker_receive_token_account) {
        Ok(t) => t,
        Err(e) => {
            return Err(e);
        },
    };
    if !bytes_eq(&receive.owner, &x.taker) {
        return Err(ScrtEscrowErrors::Unauthorized);
    }
    if !bytes_eq(&receive.mint, &recv.deposit_token) {
        return Err(ScrtEscrowErrors::AssetMismatch);
    }
    let fee_paying = match read_token(ledger, &x.taker_fee_paying_token_account) {
        Ok(t) => t,
        Err(e) => {
            return Err(e);
        },
    };
    if !bytes_eq(&fee_paying.owner, &x.taker) {
        return Err(ScrtEscrowErrors::Unauthorized);
    }
    if !bytes_eq(&fee_paying.mint, &regv.fee_token) {
        return Err(ScrtEscrowErrors::AssetMismatch);
    }
    Ok((fee_paying.balance, deposit.balance))
}

/// The event that a successful `exchange` emits.
pub open spec fn spec_exchange_event(x: ExchangeV, recv: EscrowAccountV) -> ExchangeEventV {
    ExchangeEventV {
        initializer: recv.initializer_key,
        taker: x.taker,
        deposit_token: recv.deposit_token,
        receive_token: recv.receive_token,
        deposit_amount: recv.initializer_amount,
        receive_amount: recv.taker_amount,
    }
}

/// The settlement tail of [`spec_exchange`]: the ordered transfer
/// sequence. In this order: the taker's fee to the fee collector
/// (skipped at zero), the initializer's fee from the fee vault to the
/// fee collector (skipped at zero), the taker's counter payment to the
/// initializer's receive account, the vault's principal to the taker's
/// receive account under the recomputed capability, then the vault is
/// closed and the record marked `Closed`.
pub open spec fn spec_exchange_settle(
    m: Map<Seq<u8>, AccountDataV>,
    pid: Seq<u8>,
    x: ExchangeV,
    recv: EscrowAccountV,
    regv: PdaAccountV,
    reg_addr: Seq<u8>,
    vault_auth: Seq<u8>,
) -> Result<(Map<Seq<u8>, AccountDataV>, ExchangeEventV), ScrtEscrowErrors> {
    let taker_fee_step: Result<Map<Seq<u8>, AccountDataV>, ScrtEscrowErrors> = if recv.fee_amount_taker == 0 {
        Ok(m)
    } else {
        spec_transfer(
            m,
            x.taker_fee_paying_token_account,
            recv.fee_collect_token_account,
            recv.fee_amount_taker,
        )
    };
    match taker_fee_step {
        Err(e) => Err(e),
        Ok(taker_fee_paid) => match spec_fee_vault_release(
            taker_fee_paid,
            pid,
            regv,
            reg_addr,
            recv.fee_collect_token_account,
            recv.fee_amount_initializer,
        ) {
            Err(e) => Err(e),
            Ok(fees_paid) => match spec_transfer(
                fees_paid,
                x.taker_deposit_token_account,
                recv.initializer_receive_token_account,
                recv.taker_amount,
            ) {
                Err(e) => Err(e),
                Ok(counter_paid) => match spec_vault_release(
                    counter_paid,
                    recv.vault_account,
                    vault_auth,
                    x.taker_receive_token_account,
                    recv.initializer_amount,
                ) {
                    Err(e) => Err(e),
                    Ok(principal_paid) => match spec_close(principal_paid, recv.vault_account) {
                        Err(e) => Err(e),
                        Ok(closed) => Ok(
                            (
                                closed.insert(
                                    x.escrow_account,
                                    AccountDataV::Escrow(
                                        EscrowAccountV { state: EscrowState::Closed, ..recv },
                                    ),
                                ),
                                spec_exchange_event(x, recv),
                            ),
                        ),
                    },
                },
            },
        },
    }
}

/// The transition of swap completion.
///
/// In order: the record must exist (`NotFound`) and be `Active`
/// (`AlreadyClosed` once terminal); the fee registry for the record's
/// fee asset must exist; the taker's accounts must pass
/// [`exchange_accounts_error`]; the taker's fee-paying account must
/// cover the taker fee; the taker's deposit account must cover the
/// counter amount (plus the taker fee when both legs are drawn from the
/// same account, which is debited fee-first); then the settlement
/// sequence of [`spec_exchange_settle`] runs all-or-nothing.
pub open spec fn spec_exchange(m: Map<Seq<u8>, AccountDataV>, pid: Seq<u8>, x: ExchangeV) -> Result<
    (Map<Seq<u8>, AccountDataV>, ExchangeEventV),
    ScrtEscrowErrors,
> {
    if !is_escrow(m, x.escrow_account) {
        Err(ScrtEscrowErrors::NotFound)
    } else {
        let recv = esc(m, x.escrow_account);
        if recv.state is Uninitialized {
            Err(ScrtEscrowErrors::NotFound)
        } else if recv.state is Closed {
            Err(ScrtEscrowErrors::AlreadyClosed)
        } else {
            match registry_addr_for(pid, recv.fee_token) {
                None => Err(ScrtEscrowErrors::DerivationFailed),
                Some(reg_addr) => if !is_registry(m, reg_addr) {
                    Err(ScrtEscrowErrors::NotFound)
                } else {
                    let regv = reg(m, reg_addr);
                    match exchange_accounts_error(m, x, recv, regv) {
                        Some(e) => Err(e),
                        None => if tok(m, x.taker_fee_paying_token_account).balance
                            < recv.fee_amount_taker {
                            Err(ScrtEscrowErrors::TakerFeeAmountInsufficient)
                        } else if tok(m, x.taker_deposit_token_account).balance
                            < spec_required_taker_payment(
                            recv.taker_amount,
                            recv.fee_amount_taker,
                            x.taker_deposit_token_account == x.taker_fee_paying_token_account,
                        ) {
                            Err(ScrtEscrowErrors::TakerTokenAmountInsufficient)
                        } else {
                            match vault_authority_for(pid, x.escrow_account) {
                                None => Err(ScrtEscrowErrors::DerivationFailed),
                                Some(vault_auth) => spec_exchange_settle(
                                    m,
                                    pid,
                                    x,
                                    recv,
                                    regv,
                                    reg_addr,
                                    vault_auth,
                                ),
                            }
                        },
                    }
                },
            }
        }
    }
}

impl Engine {
    /// Completes an `Active` escrow on behalf of a taker: collects both
    /// fees, pays the taker's counter amount to the initializer, releases
    /// the vault's full principal to the taker, closes the vault, and
    /// marks the record `Closed`. Commits exactly the transition of
    /// [`spec_exchange`], or returns its error with the ledger untouched.
    pub fn exchange(&mut self, x: &Exchange) -> (r: Result<ExchangeEvent, ScrtEscrowErrors>)
        requires
            old(self).wf(),
        ensures
            final(self).wf(),
            final(self).program_id@ == old(self).program_id@,
            match r {
                Ok(ev) => spec_exchange(old(self).ledger@, old(self).program_id@, x@) == Ok::<
                    _,
                    ScrtEscrowErrors,
                >((final(self).ledger@, ev@)),
                Err(e) => final(self).ledger@ == old(self).ledger@ && spec_exchange(
                    old(self).ledger@,
                    old(self).program_id@,
                    x@,
                ) == Err::<(Map<Seq<u8>, AccountDataV>, ExchangeEventV), _>(e),
            },
    {
        let recv: EscrowAccount = match self.ledger.get_ref(&x.escrow_account) {
            Some(AccountData::Escrow(e)) => e.duplicate(),
            _ => {
                return Err(ScrtEscrowErrors::NotFound);
            },
        };
        match recv.state {
            EscrowState::Uninitialized => {
                return Err(ScrtEscrowErrors::NotFound);
            },
            EscrowState::Closed => {
                return Err(ScrtEscrowErrors::AlreadyClosed);
            },
            EscrowState::Active => {},
        }
        let reg_addr = match derive_registry_addr(&self.program_id, &recv.fee_token) {
            Some(v) => v,
            None => {
                return Err(ScrtEscrowErrors::DerivationFailed);
            },
        };
        let regv: PdaAccount = match self.ledger.get_ref(&reg_addr) {
            Some(AccountData::Registry(p)) => p.duplicate(),
            _ => {
                return Err(ScrtEscrowErrors::NotFound);
            },
        };
        let balances = match check_exchange_accounts(&self.ledger, x, &recv, &regv) {
            Ok(b) => b,
            Err(e) => {
                return Err(e);
            },
        };
        if balances.0 < recv.fee_amount_taker {
            return Err(ScrtEscrowErrors::TakerFeeAmountInsufficient);
        }
        let same_source = bytes_eq(
            &x.taker_deposit_token_account,
            &x.taker_fee_paying_token_account,
        );
        let required = required_taker_payment(recv.taker_amount, recv.fee_amount_taker, same_source);
        if !validate_sufficient(balances.1, required) {
            return Err(ScrtEscrowErrors::TakerTokenAmountInsufficient);
        }
        let vault_auth = match derive_vault_authority(&self.program_id, &x.escrow_account) {
            Some(v) => v,
            None => {
                return Err(ScrtEscrowErrors::DerivationFailed);
            },
        };
        let mut staged = self.ledger.duplicate();
        if recv.fee_amount_taker > 0 {
            match staged.transfer(
                &x.taker_fee_paying_token_account,
                &recv.fee_collect_token_account,
                recv.fee_amount_taker,
            ) {
                Ok(_) => (),
                Err(e) => {
                    return Err(e);
                },
            }
        }
        match release_fee_vault(
            &mut staged,
            &self.program_id,
            &regv,
            &reg_addr,
            &recv.fee_collect_token_account,
            recv.fee_amount_initializer,
        ) {
            Ok(_) => (),
            Err(e) => {
                return Err(e);
            },
        }
        match staged.transfer(
            &x.taker_deposit_token_account,
            &recv.initializer_receive_token_account,
            recv.taker_amount,
        ) {
            Ok(_) => (),
            Err(e) => {
                return Err(e);
            },
        }
        match release_from_vault(
            &mut staged,
            &recv.vault_account,
            &vault_auth,
            &x.taker_receive_token_account,
            recv.initializer_amount,
        ) {
            Ok(_) => (),
            Err(e) => {
                return Err(e);
            },
        }
        match staged.close_token(&recv.vault_account) {
            Ok(_) => (),
            Err(e) => {
                return Err(e);
            },
        }
        let mut closed_rec = recv.duplicate();
        closed_rec.state = EscrowState::Closed;
        staged.put(&x.escrow_account, AccountData::Escrow(closed_rec));
        self.ledger = staged;
        Ok(
            ExchangeEvent {
                initializer: recv.initializer_key,
                taker: clone_bytes(&x.taker),
                deposit_token: recv.deposit_token,
                receive_token: recv.receive_token,
                deposit_amount: recv.initializer_amount,
                receive_amount: recv.taker_amount,
            },
        )
    }
}

} // verus!
