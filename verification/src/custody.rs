//! Vault custody.
//!
//! A vault is a token account whose controlling identity is a derived
//! capability, not any party's address. Opening a vault creates the
//! account under that capability and funds it from a caller-declared
//! account; releasing from a vault demands that the recomputed capability
//! match the vault's recorded controlling authority, and fails with
//! `AuthorityMismatch` otherwise.

use vstd::prelude::*;

use crate::account::AccountDataV;
use crate::account::PdaAccount;
use crate::account::PdaAccountV;
use crate::account::TokenAccount;
use crate::account::TokenAccountV;
use crate::account::clone_bytes;
use crate::derivation::derive_fee_vault_authority;
use crate::derivation::fee_vault_authority_for;
use crate::error::ScrtEscrowErrors;
use crate::ledger::Ledger;
use crate::ledger::bytes_eq;
use crate::ledger::is_token;
use crate::ledger::read_token;
use crate::ledger::spec_transfer;
use crate::ledger::tok;

verus! {

/// Opening a vault at the free address `vault_addr`: a fresh account for
/// `owner_asset` is created under the capability `authority` and funded
/// with `amount` debited from `funding`. Fails with `InsufficientBalance`
/// when the funding account holds less than `amount` and with
/// `AssetMismatch` when the funding account's asset differs from
/// `owner_asset`.
pub open spec fn spec_open_vault(
    m: Map<Seq<u8>, AccountDataV>,
    vault_addr: Seq<u8>,
    owner_asset: Seq<u8>,
    authority: Seq<u8>,
    funding: Seq<u8>,
    amount: u64,
) -> Result<Map<Seq<u8>, AccountDataV>, ScrtEscrowErrors> {
    let with_vault = m.insert(
        vault_addr,
        AccountDataV::Token(TokenAccountV { mint: owner_asset, owner: authority, balance: 0 }),
    );
    spec_transfer(with_vault, funding, vault_addr, amount)
}

/// Performs [`spec_open_vault`] on `staged`. On an error the vault
/// account has been created but nothing moved; the callers stage every
/// operation and discard the staged ledger wholesale on any error.
pub(crate) fn open_vault(
    staged: &mut Ledger,
    vault_addr: &Vec<u8>,
    owner_asset: &Vec<u8>,
    authority: &Vec<u8>,
    funding: &Vec<u8>,
    amount: u64,
) -> (r: Result<(), ScrtEscrowErrors>)
    requires
        old(staged).wf(),
    ensures
        final(staged).wf(),
        match r {
            Ok(_) => spec_open_vault(
                old(staged)@,
                vault_addr@,
                owner_asset@,
                authority@,
                funding@,
                amount,
            ) == Ok::<_, ScrtEscrowErrors>(final(staged)@),
            Err(e) => spec_open_vault(
                old(staged)@,
                vault_addr@,
                owner_asset@,
                authority@,
                funding@,
                amount,
            ) == Err::<Map<Seq<u8>, AccountDataV>, _>(e),
        },
{
    let vault = TokenAccount {
        mint: clone_bytes(owner_asset),
        owner: clone_bytes(authority),
        balance: 0,
    };
    staged.put(vault_addr, crate::account::AccountData::Token(vault));
    staged.transfer(funding, vault_addr, amount)
}

/// Releasing `amount` from a custodial vault to `dest`, authorized by
/// presenting the capability `cap`: fails with `AuthorityMismatch` when
/// the capability does not match the vault's recorded controlling
/// authority, and otherwise moves the amount.
pub open spec fn spec_vault_release(
    m: Map<Seq<u8>, AccountDataV>,
    vault: Seq<u8>,
    cap: Seq<u8>,
    dest: Seq<u8>,
    amount: u64,
) -> Result<Map<Seq<u8>, AccountDataV>, ScrtEscrowErrors> {
    if !is_token(m, vault) {
        Err(ScrtEscrowErrors::NotFound)
    } else if tok(m, vault).owner != cap {
        Err(ScrtEscrowErrors::AuthorityMismatch)
    } else {
        spec_transfer(m, vault, dest, amount)
    }
}

/// Releasing a positive `amount` from the registry's fee vault to `dest`,
/// authorized by recomputing the fee vault's capability; an amount of
/// zero skips the step entirely.
pub open spec fn spec_fee_vault_release(
    m: Map<Seq<u8>, AccountDataV>,
    pid: Seq<u8>,
    regv: PdaAccountV,
    reg_addr: Seq<u8>,
    dest: Seq<u8>,
    amount: u64,
) -> Result<Map<Seq<u8>, AccountDataV>, ScrtEscrowErrors> {
    if amount == 0 {
        Ok(m)
    } else {
        match fee_vault_authority_for(pid, reg_addr) {
            None => Err(ScrtEscrowErrors::DerivationFailed),
            Some(fee_auth) => spec_vault_release(m, regv.vault_fee_account, fee_auth, dest, amount),
        }
    }
}

/// Performs [`spec_vault_release`] on `staged`; an error leaves it
/// untouched.
pub(crate) fn release_from_vault(
    staged: &mut Ledger,
    vault: &Vec<u8>,
    cap: &Vec<u8>,
    dest: &Vec<u8>,
    amount: u64,
) -> (r: Result<(), ScrtEscrowErrors>)
    requires
        old(staged).wf(),
    ensures
        final(staged).wf(),
        match r {
            Ok(_) => spec_vault_release(old(staged)@, vault@, cap@, dest@, amount) == Ok::<
                _,
                ScrtEscrowErrors,
            >(final(staged)@),
            Err(e) => final(staged)@ == old(staged)@ && spec_vault_release(
                old(staged)@,
                vault@,
                cap@,
                dest@,
                amount,
            ) == Err::<Map<Seq<u8>, AccountDataV>, _>(e),
        },
{
    let vault_tok = match read_token(staged, vault) {
        Ok(t) => t,
        Err(e) => {
            return Err(e);
        },
    };
    if !bytes_eq(&vault_tok.owner, cap) {
        return Err(ScrtEscrowErrors::AuthorityMismatch);
    }
    staged.transfer(vault, dest, amount)
}

/// Performs [`spec_fee_vault_release`] on `staged`; an error leaves it
/// untouched.
pub(crate) fn release_fee_vault(
    staged: &mut Ledger,
    program_id: &Vec<u8>,
    regv: &PdaAccount,
    reg_addr: &Vec<u8>,
    dest: &Vec<u8>,
    amount: u64,
) -> (r: Result<(), ScrtEscrowErrors>)
    requires
        old(staged).wf(),
        program_id@.len() == 32,
    ensures
        final(staged).wf(),
        match r {
            Ok(_) => spec_fee_vault_release(
                old(staged)@,
                program_id@,
                regv@,
                reg_addr@,
                dest@,
                amount,
            ) == Ok::<_, ScrtEscrowErrors>(final(staged)@),
            Err(e) => final(staged)@ == old(staged)@ && spec_fee_vault_release(
                old(staged)@,
                program_id@,
                regv@,
                reg_addr@,
                dest@,
                amount,
            ) == Err::<Map<Seq<u8>, AccountDataV>, _>(e),
        },
{
    if amount == 0 {
        return Ok(());
    }
    let fee_auth = match derive_fee_vault_authority(program_id, reg_addr) {
        Some(v) => v,
        None => {
            return Err(ScrtEscrowErrors::DerivationFailed);
        },
    };
    release_from_vault(staged, &regv.vault_fee_account, &fee_auth, dest, amount)
}

} // verus!
