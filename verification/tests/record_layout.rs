use alarm_locked::state::VaultState;

fn sample_record(unlock_time: i64) -> VaultState {
    VaultState {
        owner: [9; 32],
        unlock_time,
        vault_bump: 254,
        state_bump: 253,
        initialized: true,
    }
}

#[test]
fn record_serializes_to_fixed_little_endian_layout() {
    let rec = sample_record(0x0102030405060708);
    let bytes = rec.to_bytes();
    assert_eq!(bytes.len(), 43);
    assert_eq!(&bytes[..32], &[9; 32]);
    assert_eq!(&bytes[32..40], &[8, 7, 6, 5, 4, 3, 2, 1]);
    assert_eq!(bytes[40], 254);
    assert_eq!(bytes[41], 253);
    assert_eq!(bytes[42], 1);
}

#[test]
fn record_round_trips_through_its_layout() {
    for unlock_time in [0i64, 1, -1, i64::MAX, i64::MIN, 1_700_000_000] {
        let rec = sample_record(unlock_time);
        let bytes = rec.to_bytes();
        let back = VaultState::from_bytes(&bytes).expect("decode");
        assert_eq!(back.owner, rec.owner);
        assert_eq!(back.unlock_time, rec.unlock_time);
        assert_eq!(back.vault_bump, rec.vault_bump);
        assert_eq!(back.state_bump, rec.state_bump);
        assert_eq!(back.initialized, rec.initialized);
    }
}

#[test]
fn uninitialized_record_round_trips() {
    let mut rec = sample_record(77);
    rec.initialized = false;
    let bytes = rec.to_bytes();
    assert_eq!(bytes[42], 0);
    let back = VaultState::from_bytes(&bytes).expect("decode");
    assert!(!back.initialized);
}

#[test]
fn wrong_length_is_rejected() {
    let rec = sample_record(77);
    let mut bytes = rec.to_bytes();
    bytes.push(0);
    assert!(VaultState::from_bytes(&bytes).is_none());
    assert!(VaultState::from_bytes(&bytes[..42]).is_none());
    assert!(VaultState::from_bytes(&[]).is_none());
}

#[test]
fn malformed_boolean_byte_is_rejected() {
    let rec = sample_record(77);
    let mut bytes = rec.to_bytes();
    bytes[42] = 2;
    assert!(VaultState::from_bytes(&bytes).is_none());
}
