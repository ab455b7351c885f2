use escrow::errors::EscrowError;
use escrow::instructions::{
    cancel_escrow, deposit_escrow, initialize_escrow, release_escrow, CancelEscrow, DepositEscrow,
    InitializeEscrow, ReleaseEscrow,
};
use escrow::state::{Account, Escrow, Identity};
use escrow::store::EscrowStore;

fn id(b: u8) -> Identity {
    Identity::new([b; 32])
}

fn store_with_record(amount: u64) -> (EscrowStore, usize) {
    let mut store = EscrowStore::new();
    let ctx = InitializeEscrow { initializer: id(1), receiver: id(2) };
    let h = store.initialize_escrow(&ctx, amount).unwrap();
    (store, h)
}

#[test]
fn identity_comparison_is_bytewise() {
    let mut bytes = [7u8; 32];
    assert!(Identity::new(bytes).same_as(&Identity::new(bytes)));
    bytes[31] = 8;
    assert!(!Identity::new(bytes).same_as(&Identity::new([7u8; 32])));
    assert!(!id(1).same_as(&id(2)));
}

#[test]
fn create_sets_fields() {
    let (store, h) = store_with_record(100);
    assert_eq!(h, 0);
    assert_eq!(store.len(), 1);
    let e = store.get(h);
    assert_eq!(e.initializer, id(1));
    assert_eq!(e.receiver, id(2));
    assert_eq!(e.amount, 100);
    assert_eq!(e.balance, 0);
    assert!(!e.is_released);
}

#[test]
fn second_create_for_same_pair_fails() {
    let (mut store, h) = store_with_record(100);
    let before = store.get(h);
    let ctx = InitializeEscrow { initializer: id(1), receiver: id(2) };
    assert_eq!(store.initialize_escrow(&ctx, 500), Err(EscrowError::AlreadyExists));
    assert_eq!(store.len(), 1);
    assert_eq!(store.get(h), before);
}

#[test]
fn other_pairs_get_their_own_records() {
    let (mut store, _) = store_with_record(100);
    let swapped = InitializeEscrow { initializer: id(2), receiver: id(1) };
    assert_eq!(store.initialize_escrow(&swapped, 5), Ok(1));
    let other = InitializeEscrow { initializer: id(1), receiver: id(3) };
    assert_eq!(store.initialize_escrow(&other, 6), Ok(2));
    assert_eq!(store.find(&id(2), &id(1)), Some(1));
    assert_eq!(store.find(&id(1), &id(3)), Some(2));
    assert_eq!(store.find(&id(1), &id(2)), Some(0));
    assert_eq!(store.find(&id(3), &id(1)), None);
}

#[test]
fn fund_moves_exactly_the_amount() {
    let (mut store, h) = store_with_record(100);
    let mut a = Account::new(id(1), 250);
    assert_eq!(store.deposit(h, &mut a), Ok(()));
    assert_eq!(a.lamports, 150);
    assert_eq!(store.get(h).balance, 100);
    assert_eq!(store.deposit(h, &mut a), Ok(()));
    assert_eq!(a.lamports, 50);
    assert_eq!(store.get(h).balance, 200);
}

#[test]
fn fund_with_too_little_is_refused() {
    let (mut store, h) = store_with_record(100);
    let mut a = Account::new(id(1), 99);
    assert_eq!(store.deposit(h, &mut a), Err(EscrowError::InsufficientBalance));
    assert_eq!(a.lamports, 99);
    assert_eq!(store.get(h).balance, 0);
}

#[test]
fn fund_by_other_party_is_unauthorized() {
    let (mut store, h) = store_with_record(100);
    let mut c = Account::new(id(3), 1000);
    assert_eq!(store.deposit(h, &mut c), Err(EscrowError::Unauthorized));
    assert_eq!(c.lamports, 1000);
    assert_eq!(store.get(h).balance, 0);
}

#[test]
fn release_pays_receiver_then_cancel_fails() {
    let (mut store, h) = store_with_record(100);
    let mut a = Account::new(id(1), 100);
    let mut b = Account::new(id(2), 10);
    assert_eq!(store.deposit(h, &mut a), Ok(()));
    assert_eq!(store.get(h).balance, 100);
    assert_eq!(store.release(h, &a, &mut b), Ok(()));
    assert_eq!(b.lamports, 110);
    assert_eq!(store.get(h).balance, 0);
    assert!(store.get(h).is_released);
    assert_eq!(store.cancel(h, &mut a), Err(EscrowError::AlreadyReleased));
    assert_eq!(a.lamports, 0);
    assert_eq!(b.lamports, 110);
    assert_eq!(store.get(h).balance, 0);
}

#[test]
fn cancel_refunds_initializer_then_release_fails() {
    let (mut store, h) = store_with_record(100);
    let mut a = Account::new(id(1), 300);
    let mut b = Account::new(id(2), 0);
    assert_eq!(store.deposit(h, &mut a), Ok(()));
    assert_eq!(a.lamports, 200);
    assert_eq!(store.cancel(h, &mut a), Ok(()));
    assert_eq!(a.lamports, 300);
    assert!(store.get(h).is_released);
    assert_eq!(store.get(h).balance, 0);
    assert_eq!(store.release(h, &a, &mut b), Err(EscrowError::AlreadyReleased));
    assert_eq!(b.lamports, 0);
}

#[test]
fn fund_by_stranger_scenario() {
    let (mut store, h) = store_with_record(100);
    let mut a = Account::new(id(1), 100);
    let mut c = Account::new(id(3), 100);
    assert_eq!(store.deposit(h, &mut c), Err(EscrowError::Unauthorized));
    assert_eq!(c.lamports, 100);
    assert_eq!(a.lamports, 100);
    assert_eq!(store.get(h).balance, 0);
    assert_eq!(store.deposit(h, &mut a), Ok(()));
}

#[test]
fn settlement_by_stranger_is_unauthorized() {
    let (mut store, h) = store_with_record(100);
    let mut a = Account::new(id(1), 100);
    let mut b = Account::new(id(2), 0);
    let mut c = Account::new(id(3), 0);
    assert_eq!(store.deposit(h, &mut a), Ok(()));
    assert_eq!(store.release(h, &c, &mut b), Err(EscrowError::Unauthorized));
    assert_eq!(store.cancel(h, &mut c), Err(EscrowError::Unauthorized));
    assert_eq!(b.lamports, 0);
    assert_eq!(c.lamports, 0);
    assert_eq!(store.get(h).balance, 100);
    assert!(!store.get(h).is_released);
}

#[test]
fn release_to_other_account_is_refused() {
    let (mut store, h) = store_with_record(100);
    let mut a = Account::new(id(1), 100);
    let mut c = Account::new(id(3), 0);
    assert_eq!(store.deposit(h, &mut a), Ok(()));
    assert_eq!(store.release(h, &a, &mut c), Err(EscrowError::Unauthorized));
    assert_eq!(c.lamports, 0);
    assert_eq!(store.get(h).balance, 100);
    let mut b = Account::new(id(2), 0);
    assert_eq!(store.release(h, &a, &mut b), Ok(()));
    assert_eq!(b.lamports, 100);
    assert_eq!(c.lamports, 0);
}

#[test]
fn settlement_before_funding_is_not_funded() {
    let (mut store, h) = store_with_record(100);
    let mut a = Account::new(id(1), 0);
    let mut b = Account::new(id(2), 0);
    assert_eq!(store.release(h, &a, &mut b), Err(EscrowError::NotFunded));
    assert_eq!(store.cancel(h, &mut a), Err(EscrowError::NotFunded));
    assert!(!store.get(h).is_released);
}

#[test]
fn settlement_of_underfunded_record_is_refused() {
    let e = Escrow { initializer: id(1), receiver: id(2), amount: 100, balance: 40, is_released: false };
    let mut ctx = CancelEscrow { initializer: Account::new(id(1), 0), escrow: e };
    assert_eq!(cancel_escrow(&mut ctx), Err(EscrowError::InsufficientBalance));
    assert_eq!(ctx.escrow, e);
    assert_eq!(ctx.initializer.lamports, 0);
}

#[test]
fn zero_amount_record_settles_without_funding() {
    let (mut store, h) = store_with_record(0);
    let a = Account::new(id(1), 0);
    let mut b = Account::new(id(2), 3);
    assert_eq!(store.release(h, &a, &mut b), Ok(()));
    assert_eq!(b.lamports, 3);
    assert!(store.get(h).is_released);
}

#[test]
fn fund_after_settlement_is_refused() {
    let (mut store, h) = store_with_record(100);
    let mut a = Account::new(id(1), 500);
    assert_eq!(store.deposit(h, &mut a), Ok(()));
    assert_eq!(store.cancel(h, &mut a), Ok(()));
    assert_eq!(store.deposit(h, &mut a), Err(EscrowError::AlreadyReleased));
    assert_eq!(a.lamports, 500);
    assert_eq!(store.get(h).balance, 0);
}

#[test]
fn every_operation_conserves_value() {
    let e = initialize_escrow(&InitializeEscrow { initializer: id(1), receiver: id(2) }, 70);
    assert_eq!(e.balance, 0);
    let mut dep = DepositEscrow { initializer: Account::new(id(1), 200), escrow: e };
    assert_eq!(deposit_escrow(&mut dep), Ok(()));
    assert_eq!(dep.escrow.balance + dep.initializer.lamports, 200);
    assert_eq!(dep.escrow.balance, 70);
    let mut rel = ReleaseEscrow {
        initializer: dep.initializer,
        receiver: Account::new(id(2), 30),
        escrow: dep.escrow,
    };
    assert_eq!(release_escrow(&mut rel), Ok(()));
    assert_eq!(rel.escrow.balance + rel.initializer.lamports + rel.receiver.lamports, 70 + 130 + 30);
    assert_eq!(rel.receiver.lamports, 100);
    assert_eq!(rel.initializer.lamports, 130);
    let mut can = CancelEscrow { initializer: rel.initializer, escrow: rel.escrow };
    assert_eq!(cancel_escrow(&mut can), Err(EscrowError::AlreadyReleased));
    assert_eq!(can.initializer.lamports, 130);
}

#[test]
fn large_balances_near_the_limit() {
    let e = Escrow { initializer: id(1), receiver: id(2), amount: u64::MAX, balance: 0, is_released: false };
    let mut dep = DepositEscrow { initializer: Account::new(id(1), u64::MAX), escrow: e };
    assert_eq!(deposit_escrow(&mut dep), Ok(()));
    assert_eq!(dep.escrow.balance, u64::MAX);
    assert_eq!(dep.initializer.lamports, 0);
    let mut can = CancelEscrow { initializer: dep.initializer, escrow: dep.escrow };
    assert_eq!(cancel_escrow(&mut can), Ok(()));
    assert_eq!(can.initializer.lamports, u64::MAX);
    assert_eq!(can.escrow.balance, 0);
}
