use alarm_locked::errors::{LedgerError, TimeLockError};
use alarm_locked::vault::VaultAccounts;

const PROGRAM_ID: [u8; 32] = [3; 32];
const OWNER: [u8; 32] = [1; 32];

fn initialized_vault(owner_balance: u64, unlock_time: i64, now: i64) -> VaultAccounts {
    let mut v = VaultAccounts::new(PROGRAM_ID, OWNER, owner_balance);
    v.initialize(unlock_time, now).expect("initialize");
    v
}

#[test]
fn initialize_sets_record_and_event() {
    let mut v = VaultAccounts::new(PROGRAM_ID, OWNER, 1_000);
    let ev = v.initialize(1_100, 1_000).expect("initialize");
    assert_eq!(ev.owner, OWNER);
    assert_eq!(ev.unlock_time, 1_100);
    assert_eq!(ev.timestamp, 1_000);
    let rec = v.record.expect("record");
    assert_eq!(rec.owner, OWNER);
    assert_eq!(rec.unlock_time, 1_100);
    assert!(rec.initialized);
    assert_eq!(v.owner_balance, 1_000);
    assert_eq!(v.funds_balance, 0);
}

#[test]
fn initialize_rejects_past_or_present_unlock_time() {
    let mut v = VaultAccounts::new(PROGRAM_ID, OWNER, 1_000);
    let e = v.initialize(1_000, 1_000).unwrap_err();
    assert_eq!(e, LedgerError::Program(TimeLockError::InvalidUnlockTime));
    assert!(v.record.is_none());
    let e = v.initialize(999, 1_000).unwrap_err();
    assert_eq!(e, LedgerError::Program(TimeLockError::InvalidUnlockTime));
    assert!(v.record.is_none());
}

#[test]
fn initialize_succeeds_exactly_once() {
    let mut v = initialized_vault(1_000, 1_100, 1_000);
    let e = v.initialize(2_000, 1_001).unwrap_err();
    assert_eq!(e, LedgerError::AccountInUse);
    let rec = v.record.expect("record");
    assert_eq!(rec.unlock_time, 1_100);
}

#[test]
fn deposit_succeeds_strictly_before_unlock_time() {
    let mut v = initialized_vault(1_000, 1_100, 1_000);
    let funds_addr = v.funds_addr;
    let ev = v.deposit(&OWNER, &funds_addr, 400, 1_099).expect("deposit");
    assert_eq!(ev.owner, OWNER);
    assert_eq!(ev.amount, 400);
    assert_eq!(ev.timestamp, 1_099);
    assert_eq!(v.owner_balance, 600);
    assert_eq!(v.funds_balance, 400);
}

#[test]
fn deposit_fails_expired_at_unlock_time() {
    let mut v = initialized_vault(1_000, 1_100, 1_000);
    let funds_addr = v.funds_addr;
    let e = v.deposit(&OWNER, &funds_addr, 400, 1_100).unwrap_err();
    assert_eq!(e, TimeLockError::VaultExpired);
    assert_eq!(v.owner_balance, 1_000);
    assert_eq!(v.funds_balance, 0);
}

#[test]
fn deposit_on_missing_record_fails_not_initialized() {
    let mut v = VaultAccounts::new(PROGRAM_ID, OWNER, 1_000);
    let funds_addr = v.funds_addr;
    let e = v.deposit(&OWNER, &funds_addr, 1, 0).unwrap_err();
    assert_eq!(e, TimeLockError::VaultNotInitialized);
}

#[test]
fn deposit_rejects_insufficient_owner_balance() {
    let mut v = initialized_vault(100, 1_100, 1_000);
    let funds_addr = v.funds_addr;
    let e = v.deposit(&OWNER, &funds_addr, 101, 1_050).unwrap_err();
    assert_eq!(e, TimeLockError::Overflow);
    assert_eq!(v.owner_balance, 100);
    assert_eq!(v.funds_balance, 0);
}

#[test]
fn deposit_rejects_funds_balance_overflow() {
    let mut v = initialized_vault(100, 1_100, 1_000);
    v.funds_balance = u64::MAX;
    let funds_addr = v.funds_addr;
    let e = v.deposit(&OWNER, &funds_addr, 1, 1_050).unwrap_err();
    assert_eq!(e, TimeLockError::Overflow);
    assert_eq!(v.funds_balance, u64::MAX);
    assert_eq!(v.owner_balance, 100);
}

#[test]
fn withdraw_fails_still_locked_one_before_unlock_time() {
    let mut v = initialized_vault(1_000, 1_100, 1_000);
    let funds_addr = v.funds_addr;
    v.deposit(&OWNER, &funds_addr, 500, 1_050).expect("deposit");
    let e = v.withdraw(&OWNER, &funds_addr, 1_099).unwrap_err();
    assert_eq!(e, TimeLockError::VaultStillLocked);
    assert_eq!(v.funds_balance, 500);
    assert_eq!(v.owner_balance, 500);
}

#[test]
fn withdraw_drains_entire_balance_at_unlock_time() {
    let mut v = initialized_vault(1_000, 1_100, 1_000);
    let funds_addr = v.funds_addr;
    v.deposit(&OWNER, &funds_addr, 500, 1_050).expect("deposit");
    let ev = v.withdraw(&OWNER, &funds_addr, 1_100).expect("withdraw");
    assert_eq!(ev.owner, OWNER);
    assert_eq!(ev.amount, 500);
    assert_eq!(ev.timestamp, 1_100);
    assert_eq!(v.funds_balance, 0);
    assert_eq!(v.owner_balance, 1_000);
}

#[test]
fn repeated_withdraw_is_a_zero_value_transfer() {
    let mut v = initialized_vault(1_000, 1_100, 1_000);
    let funds_addr = v.funds_addr;
    v.deposit(&OWNER, &funds_addr, 500, 1_050).expect("deposit");
    v.withdraw(&OWNER, &funds_addr, 1_100).expect("withdraw");
    let ev = v.withdraw(&OWNER, &funds_addr, 1_101).expect("second withdraw");
    assert_eq!(ev.amount, 0);
    assert_eq!(v.funds_balance, 0);
    assert_eq!(v.owner_balance, 1_000);
}

#[test]
fn withdraw_rejects_owner_balance_overflow() {
    let mut v = initialized_vault(u64::MAX, 1_100, 1_000);
    v.funds_balance = 1;
    let funds_addr = v.funds_addr;
    let e = v.withdraw(&OWNER, &funds_addr, 1_100).unwrap_err();
    assert_eq!(e, TimeLockError::Overflow);
    assert_eq!(v.funds_balance, 1);
    assert_eq!(v.owner_balance, u64::MAX);
}

#[test]
fn close_fails_not_empty_and_leaves_record_intact() {
    let mut v = initialized_vault(1_000, 1_100, 1_000);
    let funds_addr = v.funds_addr;
    v.deposit(&OWNER, &funds_addr, 500, 1_050).expect("deposit");
    let e = v.close_vault(&OWNER, &funds_addr, 1_060).unwrap_err();
    assert_eq!(e, TimeLockError::VaultNotEmpty);
    assert!(v.record.is_some());
    assert_eq!(v.funds_balance, 500);
}

#[test]
fn close_succeeds_on_empty_funds_account() {
    let mut v = initialized_vault(1_000, 1_100, 1_000);
    let funds_addr = v.funds_addr;
    let ev = v.close_vault(&OWNER, &funds_addr, 1_060).expect("close");
    assert_eq!(ev.owner, OWNER);
    assert_eq!(ev.timestamp, 1_060);
    assert!(v.record.is_none());
    assert_eq!(v.owner_balance, 1_000);
}

#[test]
fn full_lifecycle_scenario() {
    let now = 10_000i64;
    let mut v = VaultAccounts::new(PROGRAM_ID, OWNER, 1_000);
    v.initialize(now + 100, now).expect("initialize");
    let funds_addr = v.funds_addr;
    v.deposit(&OWNER, &funds_addr, 500, now).expect("deposit");
    let e = v.withdraw(&OWNER, &funds_addr, now + 50).unwrap_err();
    assert_eq!(e, TimeLockError::VaultStillLocked);
    let ev = v.withdraw(&OWNER, &funds_addr, now + 101).expect("withdraw");
    assert_eq!(ev.amount, 500);
    assert_eq!(v.funds_balance, 0);
    v.close_vault(&OWNER, &funds_addr, now + 102).expect("close");
    assert!(v.record.is_none());
}

#[test]
fn foreign_signer_is_unauthorized() {
    let mut v = initialized_vault(1_000, 1_100, 1_000);
    let funds_addr = v.funds_addr;
    let mallory: [u8; 32] = [7; 32];
    let e = v.deposit(&mallory, &funds_addr, 10, 1_050).unwrap_err();
    assert_eq!(e, TimeLockError::Unauthorized);
    let e = v.withdraw(&mallory, &funds_addr, 1_200).unwrap_err();
    assert_eq!(e, TimeLockError::Unauthorized);
    let e = v.close_vault(&mallory, &funds_addr, 1_200).unwrap_err();
    assert_eq!(e, TimeLockError::Unauthorized);
    assert!(v.record.is_some());
}

#[test]
fn wrong_funds_address_is_rejected_by_every_operation() {
    let mut v = initialized_vault(1_000, 1_100, 1_000);
    let wrong: [u8; 32] = [0xAB; 32];
    let e = v.deposit(&OWNER, &wrong, 10, 1_050).unwrap_err();
    assert_eq!(e, TimeLockError::Unauthorized);
    let e = v.withdraw(&OWNER, &wrong, 1_200).unwrap_err();
    assert_eq!(e, TimeLockError::Unauthorized);
    let e = v.close_vault(&OWNER, &wrong, 1_200).unwrap_err();
    assert_eq!(e, TimeLockError::Unauthorized);
    assert_eq!(v.owner_balance, 1_000);
    assert_eq!(v.funds_balance, 0);
    assert!(v.record.is_some());
}

#[test]
fn record_address_presented_as_funds_address_is_rejected() {
    let mut v = initialized_vault(1_000, 1_100, 1_000);
    let record_addr = v.record_addr;
    let e = v.deposit(&OWNER, &record_addr, 10, 1_050).unwrap_err();
    assert_eq!(e, TimeLockError::Unauthorized);
}

#[test]
fn two_owners_vaults_are_independent() {
    let owner_a: [u8; 32] = [1; 32];
    let owner_b: [u8; 32] = [2; 32];
    let mut va = VaultAccounts::new(PROGRAM_ID, owner_a, 1_000);
    let mut vb = VaultAccounts::new(PROGRAM_ID, owner_b, 2_000);
    va.initialize(1_100, 1_000).expect("initialize a");
    vb.initialize(1_200, 1_000).expect("initialize b");
    assert_ne!(va.record_addr, vb.record_addr);
    assert_ne!(va.funds_addr, vb.funds_addr);
    let fa = va.funds_addr;
    va.deposit(&owner_a, &fa, 300, 1_050).expect("deposit a");
    assert_eq!(vb.funds_balance, 0);
    assert_eq!(vb.owner_balance, 2_000);
    assert_eq!(vb.record.expect("record b").unlock_time, 1_200);
    let fb = vb.funds_addr;
    let e = vb.deposit(&owner_a, &fb, 1, 1_050).unwrap_err();
    assert_eq!(e, TimeLockError::Unauthorized);
}
