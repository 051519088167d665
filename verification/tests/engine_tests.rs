use scrt_escrow::account::EscrowState;
use scrt_escrow::derivation::derive_escrow_addr;
use scrt_escrow::derivation::derive_registry_addr;
use scrt_escrow::derivation::derive_vault_addr;
use scrt_escrow::engine::Engine;
use scrt_escrow::error::ScrtEscrowErrors;
use scrt_escrow::instructions::Cancel;
use scrt_escrow::instructions::Exchange;
use scrt_escrow::instructions::Initialize;
use scrt_escrow::instructions::InitializePda;

fn addr(tag: u8) -> Vec<u8> {
    vec![tag; 32]
}

struct World {
    engine: Engine,
    mint_x: Vec<u8>,
    mint_y: Vec<u8>,
    initializer: Vec<u8>,
    taker: Vec<u8>,
    init_deposit: Vec<u8>,
    init_receive: Vec<u8>,
    init_fee: Vec<u8>,
    fee_collect: Vec<u8>,
    taker_deposit: Vec<u8>,
    taker_receive: Vec<u8>,
    taker_fee: Vec<u8>,
    fee_vault: Vec<u8>,
    escrow_addr: Vec<u8>,
    vault_addr: Vec<u8>,
}

/// A ledger with a fee registry for asset X, the initializer's three
/// accounts, the taker's three accounts and a fee collector, all funded
/// as the individual tests expect. Asset X is the deposit and fee asset;
/// asset Y is the counter asset.
fn setup(taker_deposit_balance: u64) -> World {
    let pid = addr(1);
    let mint_x = addr(2);
    let mint_y = addr(3);
    let initializer = addr(4);
    let taker = addr(5);
    let init_deposit = addr(10);
    let init_receive = addr(11);
    let init_fee = addr(12);
    let fee_collect = addr(13);
    let taker_deposit = addr(20);
    let taker_receive = addr(21);
    let taker_fee = addr(22);

    let mut engine = Engine::new(pid.clone());
    engine
        .initialize_pda(&InitializePda { initializer: initializer.clone(), fee_token: mint_x.clone() })
        .unwrap();
    let reg_addr = derive_registry_addr(&pid, &mint_x).unwrap();
    let fee_vault = engine.registry_record(&reg_addr).unwrap().vault_fee_account;

    engine.create_token_account(&init_deposit, &mint_x, &initializer, 5000).unwrap();
    engine.create_token_account(&init_receive, &mint_y, &initializer, 0).unwrap();
    engine.create_token_account(&init_fee, &mint_x, &initializer, 100).unwrap();
    engine.create_token_account(&fee_collect, &mint_x, &initializer, 0).unwrap();
    engine.create_token_account(&taker_deposit, &mint_y, &taker, taker_deposit_balance).unwrap();
    engine.create_token_account(&taker_receive, &mint_x, &taker, 0).unwrap();
    engine.create_token_account(&taker_fee, &mint_x, &taker, 50).unwrap();

    let escrow_addr = derive_escrow_addr(&pid, &initializer, &mint_x, &mint_y).unwrap();
    let vault_addr = derive_vault_addr(&pid, &escrow_addr).unwrap();

    World {
        engine,
        mint_x,
        mint_y,
        initializer,
        taker,
        init_deposit,
        init_receive,
        init_fee,
        fee_collect,
        taker_deposit,
        taker_receive,
        taker_fee,
        fee_vault,
        escrow_addr,
        vault_addr,
    }
}

fn standard_initialize(w: &World) -> Initialize {
    Initialize {
        initializer: w.initializer.clone(),
        deposit_token: w.mint_x.clone(),
        receive_token: w.mint_y.clone(),
        fee_token: w.mint_x.clone(),
        initializer_deposit_token_account: w.init_deposit.clone(),
        initializer_receive_token_account: w.init_receive.clone(),
        initializer_fee_paying_token_account: w.init_fee.clone(),
        fee_collect_token_account: w.fee_collect.clone(),
        initializer_amount: 1000,
        taker_amount: 500,
        fee_amount_initializer: 10,
        fee_amount_taker: 5,
    }
}

fn standard_exchange(w: &World) -> Exchange {
    Exchange {
        taker: w.taker.clone(),
        escrow_account: w.escrow_addr.clone(),
        taker_deposit_token_account: w.taker_deposit.clone(),
        taker_receive_token_account: w.taker_receive.clone(),
        taker_fee_paying_token_account: w.taker_fee.clone(),
    }
}

#[test]
fn initialize_funds_vault_and_activates_record() {
    let mut w = setup(2000);
    let ev = w.engine.initialize(&standard_initialize(&w)).unwrap();
    assert_eq!(ev.deposit_amount, 1000);
    assert_eq!(ev.receive_amount, 500);
    assert_eq!(ev.initializer_fee_amount, 10);
    assert_eq!(ev.taker_fee_amount, 5);
    // the vault holds exactly the principal; the fee vault exactly the fee
    assert_eq!(w.engine.balance_of(&w.vault_addr), Some(1000));
    assert_eq!(w.engine.balance_of(&w.fee_vault), Some(10));
    assert_eq!(w.engine.balance_of(&w.init_deposit), Some(4000));
    assert_eq!(w.engine.balance_of(&w.init_fee), Some(90));
    let rec = w.engine.escrow_record(&w.escrow_addr).unwrap();
    assert_eq!(rec.state, EscrowState::Active);
    assert_eq!(rec.initializer_amount, 1000);
    assert_eq!(rec.taker_amount, 500);
    assert_eq!(rec.vault_account, w.vault_addr);
}

#[test]
fn zero_principal_rejected_without_effect() {
    let mut w = setup(2000);
    let mut a = standard_initialize(&w);
    a.initializer_amount = 0;
    let r = w.engine.initialize(&a);
    assert_eq!(r.unwrap_err(), ScrtEscrowErrors::InvalidInitializerTokenAmount);
    assert_eq!(w.engine.balance_of(&w.init_deposit), Some(5000));
    assert_eq!(w.engine.balance_of(&w.init_fee), Some(100));
    assert!(w.engine.balance_of(&w.vault_addr).is_none());
    assert!(w.engine.escrow_record(&w.escrow_addr).is_none());
}

#[test]
fn zero_counter_amount_rejected_without_effect() {
    let mut w = setup(2000);
    let mut a = standard_initialize(&w);
    a.taker_amount = 0;
    let r = w.engine.initialize(&a);
    assert_eq!(r.unwrap_err(), ScrtEscrowErrors::InvalidTakerTokenAmount);
    assert!(w.engine.balance_of(&w.vault_addr).is_none());
    assert!(w.engine.escrow_record(&w.escrow_addr).is_none());
}

#[test]
fn cancel_returns_principal_and_fee() {
    let mut w = setup(2000);
    w.engine.initialize(&standard_initialize(&w)).unwrap();
    let ev = w
        .engine
        .cancel(&Cancel { initializer: w.initializer.clone(), escrow_account: w.escrow_addr.clone() })
        .unwrap();
    assert_eq!(ev.deposit_amount, 1000);
    assert_eq!(ev.receive_amount, 500);
    // round trip: every balance returns to its pre-initialize value
    assert_eq!(w.engine.balance_of(&w.init_deposit), Some(5000));
    assert_eq!(w.engine.balance_of(&w.init_fee), Some(100));
    assert_eq!(w.engine.balance_of(&w.fee_vault), Some(0));
    assert!(w.engine.balance_of(&w.vault_addr).is_none());
    let rec = w.engine.escrow_record(&w.escrow_addr).unwrap();
    assert_eq!(rec.state, EscrowState::Closed);
}

#[test]
fn exchange_settles_swap_and_fees() {
    let mut w = setup(2000);
    w.engine.initialize(&standard_initialize(&w)).unwrap();
    let ev = w.engine.exchange(&standard_exchange(&w)).unwrap();
    assert_eq!(ev.deposit_amount, 1000);
    assert_eq!(ev.receive_amount, 500);
    assert_eq!(ev.initializer, w.initializer);
    assert_eq!(ev.taker, w.taker);
    // initializer receives the full counter amount
    assert_eq!(w.engine.balance_of(&w.init_receive), Some(500));
    // taker receives the full principal and pays counter amount plus fee
    assert_eq!(w.engine.balance_of(&w.taker_receive), Some(1000));
    assert_eq!(w.engine.balance_of(&w.taker_deposit), Some(1500));
    assert_eq!(w.engine.balance_of(&w.taker_fee), Some(45));
    // the fee collector holds both fees; the fee vault is drained
    assert_eq!(w.engine.balance_of(&w.fee_collect), Some(15));
    assert_eq!(w.engine.balance_of(&w.fee_vault), Some(0));
    // the vault is closed and the record consumed
    assert!(w.engine.balance_of(&w.vault_addr).is_none());
    let rec = w.engine.escrow_record(&w.escrow_addr).unwrap();
    assert_eq!(rec.state, EscrowState::Closed);
}

#[test]
fn cancel_then_exchange_fails_already_closed() {
    let mut w = setup(2000);
    w.engine.initialize(&standard_initialize(&w)).unwrap();
    w.engine
        .cancel(&Cancel { initializer: w.initializer.clone(), escrow_account: w.escrow_addr.clone() })
        .unwrap();
    let r = w.engine.exchange(&standard_exchange(&w));
    assert_eq!(r.unwrap_err(), ScrtEscrowErrors::AlreadyClosed);
}

#[test]
fn exchange_then_cancel_fails_already_closed() {
    let mut w = setup(2000);
    w.engine.initialize(&standard_initialize(&w)).unwrap();
    w.engine.exchange(&standard_exchange(&w)).unwrap();
    let r = w
        .engine
        .cancel(&Cancel { initializer: w.initializer.clone(), escrow_account: w.escrow_addr.clone() });
    assert_eq!(r.unwrap_err(), ScrtEscrowErrors::AlreadyClosed);
}

#[test]
fn exchange_with_underfunded_taker_deposit_changes_nothing() {
    let mut w = setup(499);
    w.engine.initialize(&standard_initialize(&w)).unwrap();
    let r = w.engine.exchange(&standard_exchange(&w));
    assert_eq!(r.unwrap_err(), ScrtEscrowErrors::TakerTokenAmountInsufficient);
    // the record remains Active and no balance moved
    let rec = w.engine.escrow_record(&w.escrow_addr).unwrap();
    assert_eq!(rec.state, EscrowState::Active);
    assert_eq!(w.engine.balance_of(&w.vault_addr), Some(1000));
    assert_eq!(w.engine.balance_of(&w.taker_deposit), Some(499));
    assert_eq!(w.engine.balance_of(&w.taker_fee), Some(50));
    assert_eq!(w.engine.balance_of(&w.init_receive), Some(0));
    assert_eq!(w.engine.balance_of(&w.fee_collect), Some(0));
}

#[test]
fn exchange_with_underfunded_taker_fee_account_fails() {
    let mut w = setup(2000);
    let mut a = standard_initialize(&w);
    a.fee_amount_taker = 51;
    w.engine.initialize(&a).unwrap();
    let r = w.engine.exchange(&standard_exchange(&w));
    assert_eq!(r.unwrap_err(), ScrtEscrowErrors::TakerFeeAmountInsufficient);
    assert_eq!(w.engine.escrow_record(&w.escrow_addr).unwrap().state, EscrowState::Active);
}

#[test]
fn initialize_with_underfunded_deposit_fails() {
    let mut w = setup(2000);
    let mut a = standard_initialize(&w);
    a.initializer_amount = 5001;
    let r = w.engine.initialize(&a);
    assert_eq!(r.unwrap_err(), ScrtEscrowErrors::InitializerTokenAmountInsufficient);
}

#[test]
fn initialize_with_underfunded_fee_account_fails() {
    let mut w = setup(2000);
    let mut a = standard_initialize(&w);
    a.fee_amount_initializer = 101;
    let r = w.engine.initialize(&a);
    assert_eq!(r.unwrap_err(), ScrtEscrowErrors::InitializerFeeAmountInsufficient);
}

#[test]
fn initialize_twice_fails_already_exists() {
    let mut w = setup(2000);
    w.engine.initialize(&standard_initialize(&w)).unwrap();
    let r = w.engine.initialize(&standard_initialize(&w));
    assert_eq!(r.unwrap_err(), ScrtEscrowErrors::AlreadyExists);
}

#[test]
fn initialize_pda_twice_fails_already_exists() {
    let mut w = setup(2000);
    let r = w.engine.initialize_pda(&InitializePda {
        initializer: w.initializer.clone(),
        fee_token: w.mint_x.clone(),
    });
    assert_eq!(r.unwrap_err(), ScrtEscrowErrors::AlreadyExists);
}

#[test]
fn initialize_without_registry_fails_not_found() {
    let mut w = setup(2000);
    let mut a = standard_initialize(&w);
    // no registry was ever created for asset Y
    a.fee_token = w.mint_y.clone();
    let r = w.engine.initialize(&a);
    assert_eq!(r.unwrap_err(), ScrtEscrowErrors::NotFound);
}

#[test]
fn cancel_of_unknown_record_fails_not_found() {
    let mut w = setup(2000);
    let r = w
        .engine
        .cancel(&Cancel { initializer: w.initializer.clone(), escrow_account: addr(99) });
    assert_eq!(r.unwrap_err(), ScrtEscrowErrors::NotFound);
}

#[test]
fn cancel_by_stranger_fails_unauthorized() {
    let mut w = setup(2000);
    w.engine.initialize(&standard_initialize(&w)).unwrap();
    let r = w
        .engine
        .cancel(&Cancel { initializer: w.taker.clone(), escrow_account: w.escrow_addr.clone() });
    assert_eq!(r.unwrap_err(), ScrtEscrowErrors::Unauthorized);
    assert_eq!(w.engine.escrow_record(&w.escrow_addr).unwrap().state, EscrowState::Active);
    assert_eq!(w.engine.balance_of(&w.vault_addr), Some(1000));
}

#[test]
fn initialize_with_wrong_deposit_mint_fails_asset_mismatch() {
    let mut w = setup(2000);
    let mut a = standard_initialize(&w);
    // declare asset Y while the deposit account holds asset X
    a.deposit_token = w.mint_y.clone();
    a.receive_token = w.mint_x.clone();
    let r = w.engine.initialize(&a);
    assert_eq!(r.unwrap_err(), ScrtEscrowErrors::AssetMismatch);
}

#[test]
fn initialize_with_foreign_deposit_account_fails_unauthorized() {
    let mut w = setup(2000);
    let mut a = standard_initialize(&w);
    a.initializer_deposit_token_account = w.taker_receive.clone();
    let r = w.engine.initialize(&a);
    assert_eq!(r.unwrap_err(), ScrtEscrowErrors::Unauthorized);
}

#[test]
fn initialize_pda_with_overlong_fee_token_fails_derivation() {
    let pid = addr(1);
    let mut engine = Engine::new(pid);
    // a 33-byte seed exceeds the derivation substrate's seed-length bound
    let r = engine.initialize_pda(&InitializePda { initializer: addr(4), fee_token: vec![7u8; 33] });
    assert_eq!(r.unwrap_err(), ScrtEscrowErrors::DerivationFailed);
}

#[test]
fn zero_fee_escrow_skips_fee_legs() {
    let mut w = setup(2000);
    let mut a = standard_initialize(&w);
    a.fee_amount_initializer = 0;
    a.fee_amount_taker = 0;
    w.engine.initialize(&a).unwrap();
    assert_eq!(w.engine.balance_of(&w.fee_vault), Some(0));
    assert_eq!(w.engine.balance_of(&w.init_fee), Some(100));
    w.engine.exchange(&standard_exchange(&w)).unwrap();
    assert_eq!(w.engine.balance_of(&w.fee_collect), Some(0));
    assert_eq!(w.engine.balance_of(&w.taker_fee), Some(50));
    assert_eq!(w.engine.balance_of(&w.taker_receive), Some(1000));
    assert_eq!(w.engine.balance_of(&w.init_receive), Some(500));
}

#[test]
fn create_token_account_refuses_occupied_address() {
    let mut w = setup(2000);
    let taker = w.taker.clone();
    let mint = w.mint_x.clone();
    let occupied = w.init_deposit.clone();
    let r = w.engine.create_token_account(&occupied, &mint, &taker, 1);
    assert_eq!(r.unwrap_err(), ScrtEscrowErrors::AlreadyExists);
}
