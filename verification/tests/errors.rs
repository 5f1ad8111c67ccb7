use recordguard::errors::{AccessError, ErrorCategory};

#[test]
fn errors_sort_into_the_four_families() {
    assert_eq!(
        AccessError::UnauthorizedAccess.category(),
        ErrorCategory::Authorization
    );
    assert_eq!(
        AccessError::InsufficientPermissions.category(),
        ErrorCategory::Authorization
    );
    assert_eq!(
        AccessError::MetadataTooLong.category(),
        ErrorCategory::Validation
    );
    assert_eq!(
        AccessError::CannotGrantAccessToSelf.category(),
        ErrorCategory::Validation
    );
    assert_eq!(
        AccessError::AlreadyVoted.category(),
        ErrorCategory::StateConflict
    );
    assert_eq!(
        AccessError::SyncConflict.category(),
        ErrorCategory::StateConflict
    );
    assert_eq!(
        AccessError::EmergencyAccessCooldown.category(),
        ErrorCategory::Temporal
    );
    assert_eq!(
        AccessError::AccessGrantExpired.category(),
        ErrorCategory::Temporal
    );
}
