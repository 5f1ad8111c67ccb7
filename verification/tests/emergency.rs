use recordguard::emergency::EmergencyStore;
use recordguard::errors::AccessError;
use recordguard::{EMERGENCY_ACCESS_DURATION, EMERGENCY_COOLDOWN, MAX_METADATA_LENGTH};

const NOW: i64 = 1_700_000_000;

fn reason() -> Vec<u8> {
    b"patient unresponsive".to_vec()
}

#[test]
fn configure_and_activate_by_contact() {
    let mut s = EmergencyStore::new();
    assert_eq!(s.configure_emergency_access(1, 2, NOW), Ok(()));
    assert_eq!(s.activate_emergency_access(1, 2, 2, reason(), NOW + 10), Ok(()));
    assert!(s.is_window_valid(1, 2, NOW + 10));
}

#[test]
fn owner_may_also_activate() {
    let mut s = EmergencyStore::new();
    assert_eq!(s.configure_emergency_access(1, 2, NOW), Ok(()));
    assert_eq!(s.activate_emergency_access(1, 2, 1, reason(), NOW + 10), Ok(()));
}

#[test]
fn stranger_may_not_activate() {
    let mut s = EmergencyStore::new();
    assert_eq!(s.configure_emergency_access(1, 2, NOW), Ok(()));
    assert_eq!(
        s.activate_emergency_access(1, 2, 9, reason(), NOW + 10),
        Err(AccessError::UnauthorizedAccess)
    );
}

#[test]
fn second_activation_while_active_fails() {
    let mut s = EmergencyStore::new();
    assert_eq!(s.configure_emergency_access(1, 2, NOW), Ok(()));
    assert_eq!(s.activate_emergency_access(1, 2, 2, reason(), NOW + 10), Ok(()));
    assert_eq!(
        s.activate_emergency_access(1, 2, 2, reason(), NOW + 20),
        Err(AccessError::EmergencyAccessAlreadyActive)
    );
}

#[test]
fn cooldown_blocks_then_releases() {
    let mut s = EmergencyStore::new();
    assert_eq!(s.configure_emergency_access(1, 2, NOW), Ok(()));
    let t1 = NOW + 100;
    assert_eq!(s.activate_emergency_access(1, 2, 2, reason(), t1), Ok(()));
    assert_eq!(s.deactivate_emergency_access(1, 2), Ok(()));
    // Less than a day after the first activation: refused.
    assert_eq!(
        s.activate_emergency_access(1, 2, 2, reason(), t1 + EMERGENCY_COOLDOWN - 1),
        Err(AccessError::EmergencyAccessCooldown)
    );
    // Exactly one day after: accepted.
    assert_eq!(
        s.activate_emergency_access(1, 2, 2, reason(), t1 + EMERGENCY_COOLDOWN),
        Ok(())
    );
}

#[test]
fn reason_cap_boundary() {
    let mut s = EmergencyStore::new();
    assert_eq!(s.configure_emergency_access(1, 2, NOW), Ok(()));
    assert_eq!(
        s.activate_emergency_access(1, 2, 2, vec![b'x'; MAX_METADATA_LENGTH + 1], NOW + 10),
        Err(AccessError::MetadataTooLong)
    );
    assert_eq!(
        s.activate_emergency_access(1, 2, 2, vec![b'x'; MAX_METADATA_LENGTH], NOW + 10),
        Ok(())
    );
}

#[test]
fn window_expires_lazily() {
    let mut s = EmergencyStore::new();
    assert_eq!(s.configure_emergency_access(1, 2, NOW), Ok(()));
    assert_eq!(s.activate_emergency_access(1, 2, 2, reason(), NOW + 10), Ok(()));
    // Just before the window ends it is still valid and the sweep clears nothing.
    let last_valid = NOW + 10 + EMERGENCY_ACCESS_DURATION - 1;
    assert_eq!(s.check_and_expire(1, 2, last_valid), Ok(false));
    assert!(s.is_window_valid(1, 2, last_valid));
    // At the end of the window the sweep reports and clears it.
    let at_expiry = NOW + 10 + EMERGENCY_ACCESS_DURATION;
    assert_eq!(s.check_and_expire(1, 2, at_expiry), Ok(true));
    assert!(!s.is_window_valid(1, 2, at_expiry));
    // A second sweep has nothing left to clear.
    assert_eq!(s.check_and_expire(1, 2, at_expiry + 1), Ok(false));
}

#[test]
fn deactivate_is_unconditional_and_keeps_cooldown() {
    let mut s = EmergencyStore::new();
    assert_eq!(s.configure_emergency_access(1, 2, NOW), Ok(()));
    // Deactivating an inactive window is fine.
    assert_eq!(s.deactivate_emergency_access(1, 2), Ok(()));
    let t1 = NOW + 100;
    assert_eq!(s.activate_emergency_access(1, 2, 2, reason(), t1), Ok(()));
    assert_eq!(s.deactivate_emergency_access(1, 2), Ok(()));
    assert!(!s.is_window_valid(1, 2, t1 + 1));
    // The activation timestamp survived: the cooldown still counts from t1.
    assert_eq!(
        s.activate_emergency_access(1, 2, 2, reason(), t1 + 100),
        Err(AccessError::EmergencyAccessCooldown)
    );
}

#[test]
fn unconfigured_pair_reports_not_configured() {
    let mut s = EmergencyStore::new();
    assert_eq!(
        s.activate_emergency_access(1, 2, 2, reason(), NOW),
        Err(AccessError::EmergencyAccessNotConfigured)
    );
    assert_eq!(
        s.deactivate_emergency_access(1, 2),
        Err(AccessError::EmergencyAccessNotConfigured)
    );
    assert_eq!(
        s.check_and_expire(1, 2, NOW),
        Err(AccessError::EmergencyAccessNotConfigured)
    );
    assert!(!s.is_window_valid(1, 2, NOW));
}

#[test]
fn configure_rejects_self_and_duplicates() {
    let mut s = EmergencyStore::new();
    assert_eq!(
        s.configure_emergency_access(1, 1, NOW),
        Err(AccessError::CannotGrantAccessToSelf)
    );
    assert_eq!(s.configure_emergency_access(1, 2, NOW), Ok(()));
    assert_eq!(
        s.configure_emergency_access(1, 2, NOW + 1),
        Err(AccessError::EmergencyAccessAlreadyConfigured)
    );
}

#[test]
fn reactivation_after_expiry_needs_the_sweep() {
    let mut s = EmergencyStore::new();
    assert_eq!(s.configure_emergency_access(1, 2, NOW), Ok(()));
    let t1 = NOW + 10;
    assert_eq!(s.activate_emergency_access(1, 2, 2, reason(), t1), Ok(()));
    // Expiry is lazy: long after the window ended the stored flag still
    // reads active, so activation is refused until someone sweeps.
    let t2 = t1 + EMERGENCY_ACCESS_DURATION + 1;
    assert_eq!(
        s.activate_emergency_access(1, 2, 2, reason(), t2),
        Err(AccessError::EmergencyAccessAlreadyActive)
    );
    assert_eq!(s.check_and_expire(1, 2, t2), Ok(true));
    assert_eq!(s.activate_emergency_access(1, 2, 2, reason(), t2), Ok(()));
}
