use recordguard::errors::AccessError;
use recordguard::sync::{conflict_resolution_op_type, DeviceSyncCoordinator};
use recordguard::{MAX_DEVICE_ID_LENGTH, MAX_METADATA_LENGTH, MAX_RECORD_TYPE_LENGTH};

const NOW: i64 = 1_700_000_000;

fn key() -> Vec<u8> {
    vec![7u8; 32]
}

fn hash(fill: u8) -> Vec<u8> {
    vec![fill; 32]
}

/// A coordinator with devices `a`, `b` and `c` for owner 1, all sharing one key.
fn fleet() -> DeviceSyncCoordinator {
    let mut c = DeviceSyncCoordinator::new();
    assert_eq!(c.initialize_sync_state(1, b"a".to_vec(), key(), true, NOW), Ok(()));
    assert_eq!(c.initialize_sync_state(1, b"b".to_vec(), key(), false, NOW), Ok(()));
    assert_eq!(c.initialize_sync_state(1, b"c".to_vec(), key(), false, NOW), Ok(()));
    c
}

fn state_of<'a>(c: &'a DeviceSyncCoordinator, device: &[u8]) -> &'a recordguard::sync::SyncState {
    let i = c
        .find_state(1, &device.to_vec())
        .expect("device should be registered");
    &c.states[i]
}

#[test]
fn device_id_cap_boundary() {
    let mut c = DeviceSyncCoordinator::new();
    assert_eq!(
        c.initialize_sync_state(1, vec![b'd'; MAX_DEVICE_ID_LENGTH + 1], key(), false, NOW),
        Err(AccessError::DeviceIdTooLong)
    );
    assert_eq!(
        c.initialize_sync_state(1, vec![b'd'; MAX_DEVICE_ID_LENGTH], key(), false, NOW),
        Ok(())
    );
}

#[test]
fn duplicate_device_is_rejected() {
    let mut c = fleet();
    assert_eq!(
        c.initialize_sync_state(1, b"a".to_vec(), key(), false, NOW + 1),
        Err(AccessError::SyncStateAlreadyExists)
    );
    // The same device id under another owner is a different pair.
    assert_eq!(c.initialize_sync_state(2, b"a".to_vec(), key(), false, NOW + 1), Ok(()));
}

#[test]
fn fresh_states_start_at_version_one() {
    let c = fleet();
    let a = state_of(&c, b"a");
    assert_eq!(a.sync_version, 1);
    assert_eq!(a.sync_count, 0);
    assert_eq!(a.state_hash, vec![0u8; 32]);
    assert!(a.is_primary);
    assert!(!state_of(&c, b"b").is_primary);
}

#[test]
fn start_requires_matching_keys() {
    let mut c = fleet();
    assert_eq!(
        c.start_sync_operation(
            1,
            &b"a".to_vec(),
            &b"b".to_vec(),
            b"full_sync".to_vec(),
            &vec![8u8; 32],
            NOW + 1
        ),
        Err(AccessError::SyncKeyMismatch)
    );
}

#[test]
fn start_requires_registered_devices() {
    let mut c = fleet();
    assert_eq!(
        c.start_sync_operation(
            1,
            &b"a".to_vec(),
            &b"z".to_vec(),
            b"full_sync".to_vec(),
            &key(),
            NOW + 1
        ),
        Err(AccessError::SyncStateNotFound)
    );
    assert_eq!(
        c.start_sync_operation(
            1,
            &b"a".to_vec(),
            &b"a".to_vec(),
            b"full_sync".to_vec(),
            &key(),
            NOW + 1
        ),
        Err(AccessError::InvalidSyncOperation)
    );
}

#[test]
fn operation_type_cap_boundary() {
    let mut c = fleet();
    assert_eq!(
        c.start_sync_operation(
            1,
            &b"a".to_vec(),
            &b"b".to_vec(),
            vec![b't'; MAX_RECORD_TYPE_LENGTH + 1],
            &key(),
            NOW + 1
        ),
        Err(AccessError::RecordTypeTooLong)
    );
    assert_eq!(
        c.start_sync_operation(
            1,
            &b"a".to_vec(),
            &b"b".to_vec(),
            vec![b't'; MAX_RECORD_TYPE_LENGTH],
            &key(),
            NOW + 1
        ),
        Ok(())
    );
}

#[test]
fn convergence_after_conflict_resolution() {
    let mut c = fleet();
    // Devices a and b agree (both all-zero), so a plain sync may start.
    assert_eq!(
        c.start_sync_operation(
            1,
            &b"a".to_vec(),
            &b"b".to_vec(),
            b"full_sync".to_vec(),
            &key(),
            NOW + 1
        ),
        Ok(())
    );
    assert_eq!(
        c.complete_sync_operation(1, &b"a".to_vec(), &b"b".to_vec(), 5, hash(1), NOW + 2),
        Ok(())
    );
    assert_eq!(state_of(&c, b"a").state_hash, hash(1));
    assert_eq!(state_of(&c, b"b").state_hash, hash(1));
    // Device c still carries the zero hash: divergence against a.
    assert_eq!(
        c.start_sync_operation(
            1,
            &b"a".to_vec(),
            &b"c".to_vec(),
            b"full_sync".to_vec(),
            &key(),
            NOW + 3
        ),
        Err(AccessError::SyncConflict)
    );
    // The same call under the conflict-resolution type goes through.
    assert_eq!(
        c.start_sync_operation(
            1,
            &b"a".to_vec(),
            &b"c".to_vec(),
            conflict_resolution_op_type(),
            &key(),
            NOW + 3
        ),
        Ok(())
    );
    let a_version = state_of(&c, b"a").sync_version;
    let c_version = state_of(&c, b"c").sync_version;
    assert_eq!(
        c.complete_sync_operation(1, &b"a".to_vec(), &b"c".to_vec(), 9, hash(3), NOW + 4),
        Ok(())
    );
    // Both states converged on the new hash, each one version further on.
    assert_eq!(state_of(&c, b"a").state_hash, hash(3));
    assert_eq!(state_of(&c, b"c").state_hash, hash(3));
    assert_eq!(state_of(&c, b"a").sync_version, a_version + 1);
    assert_eq!(state_of(&c, b"c").sync_version, c_version + 1);
    assert_eq!(state_of(&c, b"a").last_sync_timestamp, NOW + 4);
    assert_eq!(state_of(&c, b"a").sync_count, 2);
    assert_eq!(state_of(&c, b"c").sync_count, 1);
}

#[test]
fn one_operation_in_flight_per_pair() {
    let mut c = fleet();
    assert_eq!(
        c.start_sync_operation(
            1,
            &b"a".to_vec(),
            &b"b".to_vec(),
            b"full_sync".to_vec(),
            &key(),
            NOW + 1
        ),
        Ok(())
    );
    assert_eq!(
        c.start_sync_operation(
            1,
            &b"a".to_vec(),
            &b"b".to_vec(),
            b"full_sync".to_vec(),
            &key(),
            NOW + 2
        ),
        Err(AccessError::SyncOperationInFlight)
    );
    // The reverse direction is its own pair.
    assert_eq!(
        c.start_sync_operation(
            1,
            &b"b".to_vec(),
            &b"a".to_vec(),
            b"full_sync".to_vec(),
            &key(),
            NOW + 2
        ),
        Ok(())
    );
}

#[test]
fn failed_operation_leaves_states_untouched() {
    let mut c = fleet();
    assert_eq!(
        c.start_sync_operation(
            1,
            &b"a".to_vec(),
            &b"b".to_vec(),
            b"full_sync".to_vec(),
            &key(),
            NOW + 1
        ),
        Ok(())
    );
    assert_eq!(
        c.fail_sync_operation(
            1,
            &b"a".to_vec(),
            &b"b".to_vec(),
            vec![b'e'; MAX_METADATA_LENGTH + 1],
            NOW + 2
        ),
        Err(AccessError::MetadataTooLong)
    );
    assert_eq!(
        c.fail_sync_operation(
            1,
            &b"a".to_vec(),
            &b"b".to_vec(),
            vec![b'e'; MAX_METADATA_LENGTH],
            NOW + 2
        ),
        Ok(())
    );
    // States stay as they were: version one, zero hash, no syncs counted.
    assert_eq!(state_of(&c, b"a").sync_version, 1);
    assert_eq!(state_of(&c, b"b").sync_version, 1);
    assert_eq!(state_of(&c, b"a").state_hash, vec![0u8; 32]);
    assert_eq!(state_of(&c, b"a").sync_count, 0);
    // The operation completed once; neither way of completing works again.
    assert_eq!(
        c.fail_sync_operation(1, &b"a".to_vec(), &b"b".to_vec(), Vec::new(), NOW + 3),
        Err(AccessError::InvalidSyncOperation)
    );
    assert_eq!(
        c.complete_sync_operation(1, &b"a".to_vec(), &b"b".to_vec(), 1, hash(1), NOW + 3),
        Err(AccessError::InvalidSyncOperation)
    );
    // But the pair may start afresh, replacing the completed record.
    assert_eq!(
        c.start_sync_operation(
            1,
            &b"a".to_vec(),
            &b"b".to_vec(),
            b"full_sync".to_vec(),
            &key(),
            NOW + 4
        ),
        Ok(())
    );
}

#[test]
fn complete_without_operation_fails() {
    let mut c = fleet();
    assert_eq!(
        c.complete_sync_operation(1, &b"a".to_vec(), &b"b".to_vec(), 1, hash(1), NOW + 1),
        Err(AccessError::SyncOperationNotFound)
    );
    assert_eq!(
        c.fail_sync_operation(1, &b"a".to_vec(), &b"b".to_vec(), Vec::new(), NOW + 1),
        Err(AccessError::SyncOperationNotFound)
    );
}

#[test]
fn operation_snapshots_versions() {
    let mut c = fleet();
    assert_eq!(
        c.start_sync_operation(
            1,
            &b"a".to_vec(),
            &b"b".to_vec(),
            b"full_sync".to_vec(),
            &key(),
            NOW + 1
        ),
        Ok(())
    );
    let k = c
        .find_operation(1, &b"a".to_vec(), &b"b".to_vec())
        .expect("operation should exist");
    let op = &c.operations[k];
    assert_eq!(op.source_version, 1);
    assert_eq!(op.target_version, 1);
    assert_eq!(op.records_synced, 0);
    assert!(!op.is_successful);
    assert!(!op.is_completed);
    assert_eq!(op.started_at, NOW + 1);
    assert_eq!(
        c.complete_sync_operation(1, &b"a".to_vec(), &b"b".to_vec(), 17, hash(2), NOW + 5),
        Ok(())
    );
    let op = &c.operations[k];
    assert!(op.is_successful);
    assert!(op.is_completed);
    assert_eq!(op.records_synced, 17);
    assert_eq!(op.completed_at, NOW + 5);
}

#[test]
fn primary_flag_flips_without_exclusivity() {
    let mut c = fleet();
    assert_eq!(c.update_sync_primary(1, &b"b".to_vec(), true), Ok(()));
    // Both a and b now carry the flag: no cross-device exclusivity.
    assert!(state_of(&c, b"a").is_primary);
    assert!(state_of(&c, b"b").is_primary);
    assert_eq!(c.update_sync_primary(1, &b"a".to_vec(), false), Ok(()));
    assert!(!state_of(&c, b"a").is_primary);
    assert_eq!(
        c.update_sync_primary(1, &b"z".to_vec(), true),
        Err(AccessError::SyncStateNotFound)
    );
}

#[test]
fn sync_counters_saturate_with_an_error() {
    let mut s = recordguard::sync::SyncState {
        owner: 1,
        device_id: b"a".to_vec(),
        sync_version: u64::MAX,
        encrypted_sync_key: key(),
        state_hash: vec![0u8; 32],
        last_sync_timestamp: 0,
        sync_count: 3,
        is_primary: false,
        created_at: NOW,
    };
    assert_eq!(
        s.update_sync_state(hash(1), NOW + 1),
        Err(AccessError::CounterOverflow)
    );
    // The failed call changed nothing.
    assert_eq!(s.sync_version, u64::MAX);
    assert_eq!(s.sync_count, 3);
    assert_eq!(s.state_hash, vec![0u8; 32]);
}
