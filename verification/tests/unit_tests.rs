use scrt_escrow::account::AccountData;
use scrt_escrow::account::TokenAccount;
use scrt_escrow::derivation::derive_escrow_addr;
use scrt_escrow::derivation::derive_registry_addr;
use scrt_escrow::derivation::derive_vault_authority;
use scrt_escrow::error::ScrtEscrowErrors;
use scrt_escrow::fees::required_initializer_payment;
use scrt_escrow::fees::required_taker_payment;
use scrt_escrow::fees::validate_sufficient;
use scrt_escrow::ledger::Ledger;

fn addr(tag: u8) -> Vec<u8> {
    vec![tag; 32]
}

fn token(mint: u8, owner: u8, balance: u64) -> AccountData {
    AccountData::Token(TokenAccount { mint: addr(mint), owner: addr(owner), balance })
}

#[test]
fn required_initializer_payment_stacks_only_on_shared_account() {
    assert_eq!(required_initializer_payment(1000, 10, false), 10);
    assert_eq!(required_initializer_payment(1000, 10, true), 1010);
    assert_eq!(required_initializer_payment(0, 0, true), 0);
    // the sum is computed in a width that cannot overflow
    assert_eq!(
        required_initializer_payment(u64::MAX, u64::MAX, true),
        u64::MAX as u128 + u64::MAX as u128
    );
}

#[test]
fn required_taker_payment_stacks_only_on_shared_account() {
    assert_eq!(required_taker_payment(500, 5, false), 500);
    assert_eq!(required_taker_payment(500, 5, true), 505);
    assert_eq!(
        required_taker_payment(u64::MAX, u64::MAX, true),
        u64::MAX as u128 + u64::MAX as u128
    );
}

#[test]
fn validate_sufficient_is_exact() {
    assert!(validate_sufficient(10, 10));
    assert!(!validate_sufficient(10, 11));
    assert!(validate_sufficient(u64::MAX, u64::MAX as u128));
    assert!(!validate_sufficient(u64::MAX, u64::MAX as u128 + 1));
}

#[test]
fn derivation_is_deterministic_and_32_bytes() {
    let pid = addr(1);
    let fee_token = addr(2);
    let first = derive_registry_addr(&pid, &fee_token).unwrap();
    let second = derive_registry_addr(&pid, &fee_token).unwrap();
    assert_eq!(first, second);
    assert_eq!(first.len(), 32);
}

#[test]
fn derivation_depends_on_every_seed() {
    let pid = addr(1);
    let a = derive_escrow_addr(&pid, &addr(4), &addr(2), &addr(3)).unwrap();
    let b = derive_escrow_addr(&pid, &addr(4), &addr(3), &addr(2)).unwrap();
    let c = derive_escrow_addr(&pid, &addr(5), &addr(2), &addr(3)).unwrap();
    assert_ne!(a, b);
    assert_ne!(a, c);
}

#[test]
fn derived_authority_differs_from_its_seeds() {
    let pid = addr(1);
    let escrow = addr(9);
    let authority = derive_vault_authority(&pid, &escrow).unwrap();
    assert_eq!(authority.len(), 32);
    assert_ne!(authority, escrow);
    assert_ne!(authority, pid);
}

#[test]
fn transfer_moves_exactly_the_amount() {
    let mut ledger = Ledger::new();
    ledger.put(&addr(10), token(2, 4, 700));
    ledger.put(&addr(11), token(2, 5, 40));
    ledger.transfer(&addr(10), &addr(11), 300).unwrap();
    match ledger.get_ref(&addr(10)).unwrap() {
        AccountData::Token(t) => assert_eq!(t.balance, 400),
        _ => panic!("expected a token account"),
    }
    match ledger.get_ref(&addr(11)).unwrap() {
        AccountData::Token(t) => assert_eq!(t.balance, 340),
        _ => panic!("expected a token account"),
    }
}

#[test]
fn transfer_to_self_keeps_the_balance() {
    let mut ledger = Ledger::new();
    ledger.put(&addr(10), token(2, 4, 700));
    ledger.transfer(&addr(10), &addr(10), 300).unwrap();
    match ledger.get_ref(&addr(10)).unwrap() {
        AccountData::Token(t) => assert_eq!(t.balance, 700),
        _ => panic!("expected a token account"),
    }
}

#[test]
fn transfer_with_insufficient_source_fails() {
    let mut ledger = Ledger::new();
    ledger.put(&addr(10), token(2, 4, 100));
    ledger.put(&addr(11), token(2, 5, 0));
    let r = ledger.transfer(&addr(10), &addr(11), 101);
    assert_eq!(r.unwrap_err(), ScrtEscrowErrors::InsufficientBalance);
}

#[test]
fn transfer_between_assets_fails() {
    let mut ledger = Ledger::new();
    ledger.put(&addr(10), token(2, 4, 100));
    ledger.put(&addr(11), token(3, 5, 0));
    let r = ledger.transfer(&addr(10), &addr(11), 1);
    assert_eq!(r.unwrap_err(), ScrtEscrowErrors::AssetMismatch);
}

#[test]
fn transfer_to_missing_account_fails() {
    let mut ledger = Ledger::new();
    ledger.put(&addr(10), token(2, 4, 100));
    let r = ledger.transfer(&addr(10), &addr(11), 1);
    assert_eq!(r.unwrap_err(), ScrtEscrowErrors::NotFound);
}

#[test]
fn transfer_overflowing_destination_fails() {
    let mut ledger = Ledger::new();
    ledger.put(&addr(10), token(2, 4, 100));
    ledger.put(&addr(11), token(2, 5, u64::MAX));
    let r = ledger.transfer(&addr(10), &addr(11), 1);
    assert_eq!(r.unwrap_err(), ScrtEscrowErrors::AmountOverflow);
}

#[test]
fn close_of_nonempty_account_fails() {
    let mut ledger = Ledger::new();
    ledger.put(&addr(10), token(2, 4, 1));
    let r = ledger.close_token(&addr(10));
    assert_eq!(r.unwrap_err(), ScrtEscrowErrors::VaultNotEmpty);
}

#[test]
fn close_frees_the_address() {
    let mut ledger = Ledger::new();
    ledger.put(&addr(10), token(2, 4, 0));
    ledger.close_token(&addr(10)).unwrap();
    assert!(ledger.get_ref(&addr(10)).is_none());
}
