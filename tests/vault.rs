use time_vault_lock::ledger::Ledger;
use time_vault_lock::state::{CustomError, Vault, VAULT_LEN};
use time_vault_lock::{initialize, unlock, Initialize, Unlock};

fn funded(reserve: u64, owner: u64, amount: u64) -> Ledger {
    let mut l = Ledger::new(reserve);
    assert!(l.deposit(owner, amount));
    l
}

#[test]
fn lock_then_release_scenario() {
    let mut l = funded(0, 1, 10_000);
    let r = initialize(&mut l, Initialize { user: 1, clock: 1000, bump: 254 }, 3600, 5000);
    assert_eq!(r, Ok(()));
    assert_eq!(
        l.vault(1),
        Some(Vault { start_clock: 1000, end_clock: 3600, nbr_lamports: 5000, bump: 254 })
    );
    assert_eq!(l.balance(1), 5000);
    assert_eq!(l.vault_balance(1), 5000);

    assert_eq!(unlock(&mut l, Unlock { user: 1, clock: 4000 }), Err(CustomError::NotReached));
    assert_eq!(l.vault_balance(1), 5000);
    assert!(l.vault(1).is_some());

    assert_eq!(unlock(&mut l, Unlock { user: 1, clock: 4600 }), Ok(()));
    assert_eq!(l.balance(1), 10_000);
    assert_eq!(l.vault(1), None);
    assert_eq!(l.vault_balance(1), 0);

    assert_eq!(unlock(&mut l, Unlock { user: 1, clock: 4600 }), Err(CustomError::NotFound));
    assert_eq!(l.balance(1), 10_000);
}

#[test]
fn unlock_exactly_at_release_time() {
    let mut l = funded(0, 3, 100);
    assert_eq!(initialize(&mut l, Initialize { user: 3, clock: 10, bump: 0 }, 5, 40), Ok(()));
    assert_eq!(unlock(&mut l, Unlock { user: 3, clock: 14 }), Err(CustomError::NotReached));
    assert_eq!(unlock(&mut l, Unlock { user: 3, clock: 15 }), Ok(()));
    assert_eq!(l.balance(3), 100);
}

#[test]
fn second_initialize_is_refused_until_unlock() {
    let mut l = funded(0, 2, 1000);
    assert_eq!(initialize(&mut l, Initialize { user: 2, clock: 0, bump: 1 }, 10, 100), Ok(()));
    assert_eq!(
        initialize(&mut l, Initialize { user: 2, clock: 5, bump: 1 }, 1, 1),
        Err(CustomError::AlreadyExists)
    );
    assert_eq!(l.balance(2), 900);
    assert_eq!(l.vault(2).map(|v| v.nbr_lamports), Some(100));
    assert_eq!(unlock(&mut l, Unlock { user: 2, clock: 10 }), Ok(()));
    assert_eq!(initialize(&mut l, Initialize { user: 2, clock: 11, bump: 1 }, 1, 1), Ok(()));
    assert_eq!(l.balance(2), 999);
}

#[test]
fn failed_transfer_leaves_no_record() {
    let mut l = funded(0, 4, 99);
    assert_eq!(
        initialize(&mut l, Initialize { user: 4, clock: 0, bump: 0 }, 10, 100),
        Err(CustomError::TransferFailure)
    );
    assert_eq!(l.vault(4), None);
    assert_eq!(l.balance(4), 99);
    assert_eq!(l.vault_balance(4), 0);
}

#[test]
fn reserve_is_charged_and_refunded() {
    let mut l = funded(7, 5, 107);
    assert_eq!(l.reserve(), 7);
    assert_eq!(initialize(&mut l, Initialize { user: 5, clock: 0, bump: 0 }, 0, 100), Ok(()));
    assert_eq!(l.balance(5), 0);
    assert_eq!(l.vault_balance(5), 100);
    assert_eq!(unlock(&mut l, Unlock { user: 5, clock: 0 }), Ok(()));
    assert_eq!(l.balance(5), 107);
}

#[test]
fn reserve_counts_toward_funds_needed() {
    let mut l = funded(7, 6, 106);
    assert_eq!(
        initialize(&mut l, Initialize { user: 6, clock: 0, bump: 0 }, 0, 100),
        Err(CustomError::TransferFailure)
    );
    assert_eq!(l.vault(6), None);
    assert_eq!(l.balance(6), 106);
}

#[test]
fn unlock_without_vault_is_not_found() {
    let mut l = Ledger::new(0);
    assert_eq!(unlock(&mut l, Unlock { user: 9, clock: 0 }), Err(CustomError::NotFound));
}

#[test]
fn owners_are_independent() {
    let mut l = funded(0, 1, 50);
    assert!(l.deposit(2, 60));
    assert_eq!(initialize(&mut l, Initialize { user: 1, clock: 0, bump: 0 }, 100, 50), Ok(()));
    assert_eq!(initialize(&mut l, Initialize { user: 2, clock: 0, bump: 0 }, 1, 60), Ok(()));
    assert_eq!(unlock(&mut l, Unlock { user: 2, clock: 1 }), Ok(()));
    assert_eq!(l.balance(2), 60);
    assert_eq!(l.vault_balance(1), 50);
    assert_eq!(unlock(&mut l, Unlock { user: 1, clock: 1 }), Err(CustomError::NotReached));
}

#[test]
fn unlock_refused_when_owner_balance_would_overflow() {
    let mut l = funded(0, 8, 10);
    assert_eq!(initialize(&mut l, Initialize { user: 8, clock: 0, bump: 0 }, 0, 10), Ok(()));
    assert!(l.deposit(8, u64::MAX));
    assert_eq!(unlock(&mut l, Unlock { user: 8, clock: 0 }), Err(CustomError::TransferFailure));
    assert_eq!(l.vault_balance(8), 10);
    assert_eq!(l.balance(8), u64::MAX);
}

#[test]
fn deposit_refuses_overflow() {
    let mut l = funded(0, 1, u64::MAX);
    assert!(!l.deposit(1, 1));
    assert_eq!(l.balance(1), u64::MAX);
    assert!(l.deposit(1, 0));
}

#[test]
fn guard_uses_the_exact_sum() {
    let v = Vault::new(i64::MAX, i64::MAX, 3, 0);
    assert!(!v.is_unlockable(i64::MAX));
    let w = Vault::new(i64::MIN, -1, 3, 0);
    assert!(w.is_unlockable(i64::MIN));
    let u = Vault::new(100, -50, 3, 0);
    assert!(u.is_unlockable(50));
    assert!(!u.is_unlockable(49));
}

#[test]
fn check_unlock_returns_the_amount() {
    let v = Vault::new(1000, 3600, 5000, 9);
    assert_eq!(v.check_unlock(4599), Err(CustomError::NotReached));
    assert_eq!(v.check_unlock(4600), Ok(5000));
}

#[test]
fn layout_bytes_are_little_endian() {
    let v = Vault::new(1000, -1, 0x0102030405060708, 0xfe);
    let b = v.to_bytes();
    assert_eq!(b.len(), VAULT_LEN);
    assert_eq!(&b[0..8], &[0xe8, 0x03, 0, 0, 0, 0, 0, 0]);
    assert_eq!(&b[8..16], &[0xff; 8]);
    assert_eq!(&b[16..24], &[8, 7, 6, 5, 4, 3, 2, 1]);
    assert_eq!(b[24], 0xfe);
}

#[test]
fn layout_round_trip() {
    let v = Vault::new(i64::MIN, i64::MAX, u64::MAX, 255);
    assert_eq!(Vault::from_bytes(&v.to_bytes()), Some(v));
    let w = Vault::new(-7, 3600, 5000, 0);
    assert_eq!(Vault::from_bytes(&w.to_bytes()), Some(w));
}

#[test]
fn layout_of_wrong_length_is_refused() {
    assert_eq!(Vault::from_bytes(&[0u8; 24]), None);
    assert_eq!(Vault::from_bytes(&[0u8; 26]), None);
    assert_eq!(Vault::from_bytes(&[]), None);
    assert_eq!(
        Vault::from_bytes(&[0u8; 25]),
        Some(Vault { start_clock: 0, end_clock: 0, nbr_lamports: 0, bump: 0 })
    );
}
