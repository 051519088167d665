//! The engine's laws: properties of the transition functions that every
//! operation's contract commits it to.
//!
//! Each law is stated over the spec-level transitions
//! ([`spec_initialize`], [`spec_cancel`], [`spec_exchange`]), which the
//! executable operations are proven to implement exactly.

use vstd::prelude::*;

use crate::account::AccountDataV;
use crate::account::EscrowState;
use crate::derivation::escrow_addr_for;
use crate::derivation::fee_vault_authority_for;
use crate::derivation::registry_addr_for;
use crate::derivation::vault_addr_for;
use crate::derivation::vault_authority_for;
use crate::engine::spec_cancel;
use crate::engine::spec_exchange;
use crate::engine::spec_initialize;
use crate::engine::spec_new_escrow_record;
use crate::error::ScrtEscrowErrors;
use crate::instructions::CancelV;
use crate::instructions::ExchangeV;
use crate::instructions::InitializeV;
use crate::ledger::esc;
use crate::ledger::is_escrow;
use crate::ledger::is_registry;
use crate::ledger::is_token;
use crate::ledger::reg;
use crate::ledger::spec_transfer;
use crate::ledger::tok;

verus! {

/// An `initialize` request with a zero principal or a zero counter amount
/// is rejected before anything is looked up or moved: the transition is
/// the corresponding validation error, and the operation's contract then
/// guarantees the ledger is left untouched.
pub proof fn lemma_initialize_zero_amount_rejected(
    m: Map<Seq<u8>, AccountDataV>,
    pid: Seq<u8>,
    a: InitializeV,
)
    requires
        a.initializer_amount == 0 || a.taker_amount == 0,
    ensures
        spec_initialize(m, pid, a) == Err::<
            (Map<Seq<u8>, AccountDataV>, crate::events::InitializEventV),
            _,
        >(
            if a.initializer_amount == 0 {
                ScrtEscrowErrors::InvalidInitializerTokenAmount
            } else {
                ScrtEscrowErrors::InvalidTakerTokenAmount
            },
        ),
{
}

/// Every successful `initialize` leaves the escrow record `Active` with
/// the requested terms, and leaves the vault holding exactly the
/// principal amount of the deposit asset; when a positive initializer fee
/// is charged and the fee vault is an account of its own, the fee vault
/// has grown by exactly that fee.
pub proof fn lemma_initialize_funds_vault(
    m: Map<Seq<u8>, AccountDataV>,
    pid: Seq<u8>,
    a: InitializeV,
)
    requires
        spec_initialize(m, pid, a) is Ok,
    ensures
        ({
            let post = spec_initialize(m, pid, a)->Ok_0.0;
            let escrow_addr = escrow_addr_for(
                pid,
                a.initializer,
                a.deposit_token,
                a.receive_token,
            )->Some_0;
            let vault_addr = vault_addr_for(pid, escrow_addr)->Some_0;
            let fee_vault = reg(m, registry_addr_for(pid, a.fee_token)->Some_0).vault_fee_account;
            &&& escrow_addr_for(pid, a.initializer, a.deposit_token, a.receive_token) is Some
            &&& vault_addr_for(pid, escrow_addr) is Some
            &&& registry_addr_for(pid, a.fee_token) is Some
            &&& is_escrow(post, escrow_addr)
            &&& esc(post, escrow_addr).state is Active
            &&& esc(post, escrow_addr).initializer_amount == a.initializer_amount
            &&& esc(post, escrow_addr).taker_amount == a.taker_amount
            &&& is_token(post, vault_addr)
            &&& tok(post, vault_addr).mint == a.deposit_token
            &&& tok(post, vault_addr).balance == a.initializer_amount
            &&& a.fee_amount_initializer > 0 && fee_vault
                != a.initializer_deposit_token_account && fee_vault
                != a.initializer_fee_paying_token_account ==> is_token(post, fee_vault) && tok(
                post,
                fee_vault,
            ).balance == tok(m, fee_vault).balance + a.fee_amount_initializer
        }),
{
    let reg_addr = registry_addr_for(pid, a.fee_token)->Some_0;
    let regv = reg(m, reg_addr);
    let escrow_addr = escrow_addr_for(pid, a.initializer, a.deposit_token, a.receive_token)->Some_0;
    let vault_addr = vault_addr_for(pid, escrow_addr)->Some_0;
    let vault_auth = vault_authority_for(pid, escrow_addr)->Some_0;
    let dep = a.initializer_deposit_token_account;
    let fee_src = a.initializer_fee_paying_token_account;
    assert(is_token(m, dep));
    assert(is_token(m, fee_src));
    assert(is_token(m, regv.vault_fee_account));
    assert(!m.contains_key(escrow_addr));
    assert(!m.contains_key(vault_addr));
    assert(dep != escrow_addr && dep != vault_addr);
    assert(fee_src != escrow_addr && fee_src != vault_addr);
    assert(regv.vault_fee_account != escrow_addr && regv.vault_fee_account != vault_addr);
    let with_record = m.insert(
        escrow_addr,
        AccountDataV::Escrow(spec_new_escrow_record(a, vault_addr, vault_auth)),
    );
    let with_vault = with_record.insert(
        vault_addr,
        AccountDataV::Token(
            crate::account::TokenAccountV { mint: a.deposit_token, owner: vault_auth, balance: 0 },
        ),
    );
    let funded = spec_transfer(with_vault, dep, vault_addr, a.initializer_amount)->Ok_0;
    assert(tok(funded, vault_addr).balance == a.initializer_amount);
    assert(is_escrow(funded, escrow_addr));
    if a.fee_amount_initializer > 0 {
        let fee_paid = spec_transfer(
            funded,
            fee_src,
            regv.vault_fee_account,
            a.fee_amount_initializer,
        )->Ok_0;
        assert(tok(fee_paid, vault_addr).balance == a.initializer_amount);
        assert(is_escrow(fee_paid, escrow_addr));
        if regv.vault_fee_account != dep && regv.vault_fee_account != fee_src {
            assert(tok(funded, regv.vault_fee_account).balance == tok(
                m,
                regv.vault_fee_account,
            ).balance);
            assert(tok(fee_paid, regv.vault_fee_account).balance == tok(
                m,
                regv.vault_fee_account,
            ).balance + a.fee_amount_initializer);
        }
    }
}

/// The triple (initializer, deposit asset, counter asset) is the
/// uniqueness key of escrow records: once an `initialize` for a triple
/// has succeeded, no `initialize` for the same triple can succeed again,
/// whatever its other inputs.
pub proof fn lemma_initialize_unique_per_triple(
    m: Map<Seq<u8>, AccountDataV>,
    pid: Seq<u8>,
    a1: InitializeV,
    a2: InitializeV,
)
    requires
        spec_initialize(m, pid, a1) is Ok,
        a2.initializer == a1.initializer,
        a2.deposit_token == a1.deposit_token,
        a2.receive_token == a1.receive_token,
    ensures
        !(spec_initialize(spec_initialize(m, pid, a1)->Ok_0.0, pid, a2) is Ok),
{
    let post = spec_initialize(m, pid, a1)->Ok_0.0;
    let escrow_addr = escrow_addr_for(pid, a1.initializer, a1.deposit_token, a1.receive_token)->Some_0;
    lemma_initialize_funds_vault(m, pid, a1);
    assert(post.contains_key(escrow_addr));
}

/// Terminal transitions are mutually exclusive: after a successful
/// `cancel`, any `exchange` addressed at the same record fails with
/// `AlreadyClosed`, whatever its other inputs.
pub proof fn lemma_cancel_then_exchange_excluded(
    m: Map<Seq<u8>, AccountDataV>,
    pid: Seq<u8>,
    c: CancelV,
    x: ExchangeV,
)
    requires
        spec_cancel(m, pid, c) is Ok,
        x.escrow_account == c.escrow_account,
    ensures
        spec_exchange(spec_cancel(m, pid, c)->Ok_0.0, pid, x) == Err::<
            (Map<Seq<u8>, AccountDataV>, crate::events::ExchangeEventV),
            _,
        >(ScrtEscrowErrors::AlreadyClosed),
{
    let post = spec_cancel(m, pid, c)->Ok_0.0;
    assert(is_escrow(post, x.escrow_account));
    assert(esc(post, x.escrow_account).state is Closed);
}

/// And symmetrically: after a successful `exchange`, any `cancel`
/// addressed at the same record fails with `AlreadyClosed`.
pub proof fn lemma_exchange_then_cancel_excluded(
    m: Map<Seq<u8>, AccountDataV>,
    pid: Seq<u8>,
    x: ExchangeV,
    c: CancelV,
)
    requires
        spec_exchange(m, pid, x) is Ok,
        c.escrow_account == x.escrow_account,
    ensures
        spec_cancel(spec_exchange(m, pid, x)->Ok_0.0, pid, c) == Err::<
            (Map<Seq<u8>, AccountDataV>, crate::events::CancelEventV),
            _,
        >(ScrtEscrowErrors::AlreadyClosed),
{
    let post = spec_exchange(m, pid, x)->Ok_0.0;
    assert(is_escrow(post, c.escrow_account));
    assert(esc(post, c.escrow_account).state is Closed);
}

/// The accounts an exchange routes between are seven distinct addresses:
/// the vault, the taker's three accounts, the initializer's receive
/// account, the fee collector, and the registry's fee vault.
pub open spec fn exchange_accounts_disjoint(
    x: ExchangeV,
    recv: crate::account::EscrowAccountV,
    fee_vault: Seq<u8>,
) -> bool {
    &&& recv.vault_account != x.taker_deposit_token_account
    &&& recv.vault_account != x.taker_receive_token_account
    &&& recv.vault_account != x.taker_fee_paying_token_account
    &&& recv.vault_account != recv.initializer_receive_token_account
    &&& recv.vault_account != recv.fee_collect_token_account
    &&& recv.vault_account != fee_vault
    &&& x.taker_deposit_token_account != x.taker_receive_token_account
    &&& x.taker_deposit_token_account != x.taker_fee_paying_token_account
    &&& x.taker_deposit_token_account != recv.initializer_receive_token_account
    &&& x.taker_deposit_token_account != recv.fee_collect_token_account
    &&& x.taker_deposit_token_account != fee_vault
    &&& x.taker_receive_token_account != x.taker_fee_paying_token_account
    &&& x.taker_receive_token_account != recv.initializer_receive_token_account
    &&& x.taker_receive_token_account != recv.fee_collect_token_account
    &&& x.taker_receive_token_account != fee_vault
    &&& x.taker_fee_paying_token_account != recv.initializer_receive_token_account
    &&& x.taker_fee_paying_token_account != recv.fee_collect_token_account
    &&& x.taker_fee_paying_token_account != fee_vault
    &&& recv.initializer_receive_token_account != recv.fee_collect_token_account
    &&& recv.initializer_receive_token_account != fee_vault
    &&& recv.fee_collect_token_account != fee_vault
}

/// Conservation at exchange time, for an exchange between seven distinct
/// accounts: exactly the principal leaves the vault (which held exactly
/// the principal, and is then closed); exactly the counter amount plus
/// the taker fee leaves the taker; the initializer receives exactly the
/// counter amount, the fee collector exactly the two fees, and the fee
/// vault gives up exactly the initializer fee. No other address changes.
#[verifier::rlimit(30)]
pub proof fn lemma_exchange_conservation(m: Map<Seq<u8>, AccountDataV>, pid: Seq<u8>, x: ExchangeV)
    requires
        spec_exchange(m, pid, x) is Ok,
        exchange_accounts_disjoint(
            x,
            esc(m, x.escrow_account),
            reg(
                m,
                registry_addr_for(pid, esc(m, x.escrow_account).fee_token)->Some_0,
            ).vault_fee_account,
        ),
    ensures
        ({
            let recv = esc(m, x.escrow_account);
            let fv = reg(m, registry_addr_for(pid, recv.fee_token)->Some_0).vault_fee_account;
            let post = spec_exchange(m, pid, x)->Ok_0.0;
            &&& tok(m, recv.vault_account).balance == recv.initializer_amount
            &&& !post.contains_key(recv.vault_account)
            &&& is_token(post, x.taker_receive_token_account) && tok(
                post,
                x.taker_receive_token_account,
            ).balance == tok(m, x.taker_receive_token_account).balance + recv.initializer_amount
            &&& is_token(post, x.taker_deposit_token_account) && tok(
                post,
                x.taker_deposit_token_account,
            ).balance == tok(m, x.taker_deposit_token_account).balance - recv.taker_amount
            &&& is_token(post, x.taker_fee_paying_token_account) && tok(
                post,
                x.taker_fee_paying_token_account,
            ).balance == tok(m, x.taker_fee_paying_token_account).balance - recv.fee_amount_taker
            &&& is_token(post, recv.initializer_receive_token_account) && tok(
                post,
                recv.initializer_receive_token_account,
            ).balance == tok(m, recv.initializer_receive_token_account).balance + recv.taker_amount
            &&& recv.fee_amount_taker > 0 || recv.fee_amount_initializer > 0 ==> is_token(
                post,
                recv.fee_collect_token_account,
            ) && tok(post, recv.fee_collect_token_account).balance == tok(
                m,
                recv.fee_collect_token_account,
            ).balance + recv.fee_amount_taker + recv.fee_amount_initializer
            &&& recv.fee_amount_initializer > 0 ==> is_token(post, fv) && tok(post, fv).balance
                == tok(m, fv).balance - recv.fee_amount_initializer
            &&& is_escrow(post, x.escrow_account) && esc(post, x.escrow_account).state is Closed
            &&& forall|k: Seq<u8>|
                #![auto]
                k != recv.vault_account && k != x.taker_receive_token_account && k
                    != x.taker_deposit_token_account && k != x.taker_fee_paying_token_account && k
                    != recv.initializer_receive_token_account && k
                    != recv.fee_collect_token_account && k != fv && k != x.escrow_account ==> (
                post.contains_key(k) == m.contains_key(k) && (m.contains_key(k) ==> post[k]
                    == m[k]))
        }),
{
    let recv = esc(m, x.escrow_account);
    let reg_addr = registry_addr_for(pid, recv.fee_token)->Some_0;
    let regv = reg(m, reg_addr);
    let fv = regv.vault_fee_account;
    let vault = recv.vault_account;
    let td = x.taker_deposit_token_account;
    let tr = x.taker_receive_token_account;
    let tf = x.taker_fee_paying_token_account;
    let ir = recv.initializer_receive_token_account;
    let fc = recv.fee_collect_token_account;
    let m1 = if recv.fee_amount_taker == 0 {
        m
    } else {
        spec_transfer(m, tf, fc, recv.fee_amount_taker)->Ok_0
    };
    let m2 = if recv.fee_amount_initializer == 0 {
        m1
    } else {
        spec_transfer(m1, fv, fc, recv.fee_amount_initializer)->Ok_0
    };
    let m3 = spec_transfer(m2, td, ir, recv.taker_amount)->Ok_0;
    let m4 = spec_transfer(m3, vault, tr, recv.initializer_amount)->Ok_0;
    let m5 = crate::ledger::spec_close(m4, vault)->Ok_0;
    assert(tok(m4, vault).balance == 0);
    assert(tok(m3, vault).balance == tok(m, vault).balance);
    assert(spec_exchange(m, pid, x)->Ok_0.0 == m5.insert(
        x.escrow_account,
        AccountDataV::Escrow(crate::account::EscrowAccountV { state: EscrowState::Closed, ..recv }),
    ));
}

/// Round trip: an `initialize` followed at once by the initializer's
/// `cancel` has no net economic effect. The cancel succeeds, and the
/// ledger returns to exactly its prior state at every address but the
/// escrow record's own, where the consumed record remains with state
/// `Closed`. In particular the initializer's deposit and fee-paying
/// accounts hold their pre-`initialize` balances again.
///
/// When a positive fee is charged the registry's fee vault must be
/// controlled by its derived capability — what `initialize_pda`
/// establishes — and must not be the very account the principal is drawn
/// from (a fee vault doubling as the deposit account can leave the
/// returning principal with no headroom).
#[verifier::rlimit(100)]
pub proof fn lemma_initialize_then_cancel_round_trip(
    m: Map<Seq<u8>, AccountDataV>,
    pid: Seq<u8>,
    a: InitializeV,
    c: CancelV,
)
    requires
        spec_initialize(m, pid, a) is Ok,
        c.initializer == a.initializer,
        escrow_addr_for(pid, a.initializer, a.deposit_token, a.receive_token) == Some(
            c.escrow_account,
        ),
        a.fee_amount_initializer > 0 ==> ({
            let reg_addr = registry_addr_for(pid, a.fee_token)->Some_0;
            let fv = reg(m, reg_addr).vault_fee_account;
            &&& fee_vault_authority_for(pid, reg_addr) is Some
            &&& tok(m, fv).owner == fee_vault_authority_for(pid, reg_addr)->Some_0
            &&& fv != a.initializer_deposit_token_account
        }),
    ensures
        ({
            let post_init = spec_initialize(m, pid, a)->Ok_0.0;
            &&& spec_cancel(post_init, pid, c) is Ok
            &&& ({
                let post = spec_cancel(post_init, pid, c)->Ok_0.0;
                &&& is_token(post, a.initializer_deposit_token_account) && tok(
                    post,
                    a.initializer_deposit_token_account,
                ).balance == tok(m, a.initializer_deposit_token_account).balance
                &&& is_token(post, a.initializer_fee_paying_token_account) && tok(
                    post,
                    a.initializer_fee_paying_token_account,
                ).balance == tok(m, a.initializer_fee_paying_token_account).balance
                &&& is_escrow(post, c.escrow_account) && esc(post, c.escrow_account).state
                    is Closed
                &&& forall|k: Seq<u8>|
                    #![auto]
                    k != c.escrow_account ==> (post.contains_key(k) == m.contains_key(k) && (
                    m.contains_key(k) ==> post[k] == m[k]))
            })
        }),
{
    let reg_addr = registry_addr_for(pid, a.fee_token)->Some_0;
    let regv = reg(m, reg_addr);
    let fv = regv.vault_fee_account;
    let escrow_addr = c.escrow_account;
    let vault_addr = vault_addr_for(pid, escrow_addr)->Some_0;
    let vault_auth = vault_authority_for(pid, escrow_addr)->Some_0;
    let dep = a.initializer_deposit_token_account;
    let fee_src = a.initializer_fee_paying_token_account;
    let principal = a.initializer_amount;
    let fee = a.fee_amount_initializer;
    assert(is_token(m, dep) && is_token(m, fee_src) && is_token(m, fv));
    assert(is_registry(m, reg_addr));
    assert(!m.contains_key(escrow_addr) && !m.contains_key(vault_addr));
    assert(vault_addr != escrow_addr);
    let record = spec_new_escrow_record(a, vault_addr, vault_auth);
    let with_record = m.insert(escrow_addr, AccountDataV::Escrow(record));
    let with_vault = with_record.insert(
        vault_addr,
        AccountDataV::Token(
            crate::account::TokenAccountV { mint: a.deposit_token, owner: vault_auth, balance: 0 },
        ),
    );
    let funded = spec_transfer(with_vault, dep, vault_addr, principal)->Ok_0;
    let post_init = if fee == 0 {
        funded
    } else {
        spec_transfer(funded, fee_src, fv, fee)->Ok_0
    };
    assert(spec_initialize(m, pid, a)->Ok_0.0 == post_init);
    assert(esc(post_init, escrow_addr) == record);
    assert(is_registry(post_init, reg_addr) && reg(post_init, reg_addr) == regv);
    // the principal returns in full
    assert(is_token(post_init, vault_addr) && tok(post_init, vault_addr).owner == vault_auth);
    assert(tok(post_init, vault_addr).balance == principal);
    assert(tok(post_init, dep).balance <= tok(m, dep).balance - principal);
    let m1 = spec_transfer(post_init, vault_addr, dep, principal)->Ok_0;
    assert(spec_transfer(post_init, vault_addr, dep, principal) is Ok);
    // a positive fee returns in full
    let m2 = if fee == 0 {
        m1
    } else {
        spec_transfer(m1, fv, fee_src, fee)->Ok_0
    };
    if fee > 0 {
        assert(is_token(m1, fv) && tok(m1, fv).owner == fee_vault_authority_for(
            pid,
            reg_addr,
        )->Some_0);
        if fee_src == fv {
            assert(tok(m1, fv).balance >= fee);
        } else {
            assert(tok(m1, fv).balance == tok(m, fv).balance + fee);
            assert(tok(m1, fee_src).balance <= tok(m, fee_src).balance - fee);
        }
        assert(spec_transfer(m1, fv, fee_src, fee) is Ok);
        assert(crate::custody::spec_fee_vault_release(m1, pid, regv, reg_addr, fee_src, fee)
            == Ok::<_, ScrtEscrowErrors>(m2));
    }
    // the emptied vault closes
    assert(tok(m1, vault_addr).balance == 0);
    assert(tok(m2, vault_addr).balance == 0);
    let m3 = crate::ledger::spec_close(m2, vault_addr)->Ok_0;
    assert(m3 == m2.remove(vault_addr));
    let post = m3.insert(
        escrow_addr,
        AccountDataV::Escrow(crate::account::EscrowAccountV { state: EscrowState::Closed, ..record }),
    );
    assert(spec_cancel(post_init, pid, c) is Ok);
    assert(spec_cancel(post_init, pid, c)->Ok_0.0 == post);
    // every address but the record's returns to its prior state
    assert(tok(post, dep).balance == tok(m, dep).balance);
    assert(tok(post, fee_src).balance == tok(m, fee_src).balance);
    assert(post[dep] == m[dep]);
    assert(post[fee_src] == m[fee_src]);
    if fee > 0 {
        assert(post[fv] == m[fv]);
    }
    assert forall|k: Seq<u8>|
        k != escrow_addr implies (post.contains_key(k) == m.contains_key(k) && (m.contains_key(k)
        ==> post[k] == m[k])) by {
        if k == vault_addr {
        } else if k == dep || k == fee_src {
        } else if k == fv {
        } else {
        }
    }
}

} // verus!
