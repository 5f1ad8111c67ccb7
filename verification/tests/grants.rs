use recordguard::errors::AccessError;
use recordguard::grants::GrantStore;
use recordguard::{MAX_ACCESS_DURATION, PERMISSION_READ, PERMISSION_SHARE, PERMISSION_WRITE};

const NOW: i64 = 1_700_000_000;

#[test]
fn grant_is_valid_immediately_after_create() {
    let mut s = GrantStore::new();
    assert_eq!(s.grant_access(1, 2, NOW + 3600, PERMISSION_READ, NOW), Ok(()));
    assert_eq!(s.query_permission(1, 2, PERMISSION_READ, NOW), Ok(true));
}

#[test]
fn grant_expires_exactly_at_expiry() {
    let mut s = GrantStore::new();
    assert_eq!(s.grant_access(1, 2, NOW + 3600, PERMISSION_READ, NOW), Ok(()));
    assert_eq!(s.query_permission(1, 2, PERMISSION_READ, NOW + 3599), Ok(true));
    assert_eq!(s.query_permission(1, 2, PERMISSION_READ, NOW + 3600), Ok(false));
}

#[test]
fn query_reports_only_granted_bits() {
    let mut s = GrantStore::new();
    assert_eq!(
        s.grant_access(1, 2, NOW + 3600, PERMISSION_READ | PERMISSION_SHARE, NOW),
        Ok(())
    );
    assert_eq!(s.query_permission(1, 2, PERMISSION_READ, NOW), Ok(true));
    assert_eq!(s.query_permission(1, 2, PERMISSION_SHARE, NOW), Ok(true));
    assert_eq!(s.query_permission(1, 2, PERMISSION_WRITE, NOW), Ok(false));
}

#[test]
fn revoke_is_terminal_for_the_pair() {
    let mut s = GrantStore::new();
    assert_eq!(s.grant_access(1, 2, NOW + 3600, PERMISSION_READ, NOW), Ok(()));
    assert_eq!(s.grant_access(1, 3, NOW + 3600, PERMISSION_READ, NOW), Ok(()));
    assert_eq!(s.revoke_access(1, 2), Ok(()));
    assert_eq!(
        s.query_permission(1, 2, PERMISSION_READ, NOW),
        Err(AccessError::AccessGrantNotFound)
    );
    assert_eq!(
        s.query_permission(1, 2, PERMISSION_READ, NOW + 100_000),
        Err(AccessError::AccessGrantNotFound)
    );
    // The other pair is undisturbed, and a second revoke finds nothing.
    assert_eq!(s.query_permission(1, 3, PERMISSION_READ, NOW), Ok(true));
    assert_eq!(s.revoke_access(1, 2), Err(AccessError::AccessGrantNotFound));
    // Unrelated mutations never bring the revoked pair back.
    assert_eq!(
        s.update_permissions(1, 2, PERMISSION_READ, NOW + 10),
        Err(AccessError::AccessGrantNotFound)
    );
    assert_eq!(
        s.query_permission(1, 2, PERMISSION_READ, NOW + 10),
        Err(AccessError::AccessGrantNotFound)
    );
}

#[test]
fn self_grant_is_rejected() {
    let mut s = GrantStore::new();
    assert_eq!(
        s.grant_access(1, 1, NOW + 3600, PERMISSION_READ, NOW),
        Err(AccessError::CannotGrantAccessToSelf)
    );
}

#[test]
fn empty_and_out_of_set_masks_are_rejected() {
    let mut s = GrantStore::new();
    assert_eq!(
        s.grant_access(1, 2, NOW + 3600, 0, NOW),
        Err(AccessError::InvalidPermissions)
    );
    assert_eq!(
        s.grant_access(1, 2, NOW + 3600, 8, NOW),
        Err(AccessError::InvalidPermissions)
    );
    // The full grantable set is the largest accepted mask.
    assert_eq!(s.grant_access(1, 2, NOW + 3600, 7, NOW), Ok(()));
}

#[test]
fn expiry_window_boundaries() {
    let mut s = GrantStore::new();
    assert_eq!(
        s.grant_access(1, 2, NOW, PERMISSION_READ, NOW),
        Err(AccessError::InvalidTimestamp)
    );
    assert_eq!(
        s.grant_access(1, 2, NOW + MAX_ACCESS_DURATION + 1, PERMISSION_READ, NOW),
        Err(AccessError::InvalidAccessDuration)
    );
    // Exactly one year out is still accepted.
    assert_eq!(
        s.grant_access(1, 2, NOW + MAX_ACCESS_DURATION, PERMISSION_READ, NOW),
        Ok(())
    );
}

#[test]
fn duplicate_grant_is_rejected() {
    let mut s = GrantStore::new();
    assert_eq!(s.grant_access(1, 2, NOW + 3600, PERMISSION_READ, NOW), Ok(()));
    assert_eq!(
        s.grant_access(1, 2, NOW + 7200, PERMISSION_WRITE, NOW),
        Err(AccessError::AccessGrantAlreadyExists)
    );
}

#[test]
fn update_permissions_replaces_the_mask() {
    let mut s = GrantStore::new();
    assert_eq!(s.grant_access(1, 2, NOW + 3600, PERMISSION_READ, NOW), Ok(()));
    assert_eq!(s.update_permissions(1, 2, PERMISSION_WRITE, NOW + 10), Ok(()));
    assert_eq!(s.query_permission(1, 2, PERMISSION_READ, NOW + 20), Ok(false));
    assert_eq!(s.query_permission(1, 2, PERMISSION_WRITE, NOW + 20), Ok(true));
    assert_eq!(
        s.update_permissions(1, 2, 0, NOW + 30),
        Err(AccessError::InvalidPermissions)
    );
}

#[test]
fn extend_expiry_moves_the_window() {
    let mut s = GrantStore::new();
    assert_eq!(s.grant_access(1, 2, NOW + 100, PERMISSION_READ, NOW), Ok(()));
    assert_eq!(s.query_permission(1, 2, PERMISSION_READ, NOW + 200), Ok(false));
    assert_eq!(s.extend_expiry(1, 2, NOW + 1000, NOW + 200), Ok(()));
    assert_eq!(s.query_permission(1, 2, PERMISSION_READ, NOW + 500), Ok(true));
    assert_eq!(
        s.extend_expiry(1, 2, NOW + 200, NOW + 300),
        Err(AccessError::InvalidTimestamp)
    );
    assert_eq!(
        s.extend_expiry(1, 2, NOW + 300 + MAX_ACCESS_DURATION + 1, NOW + 300),
        Err(AccessError::InvalidAccessDuration)
    );
}
