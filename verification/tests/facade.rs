use recordguard::errors::AccessError;
use recordguard::facade::{AccessDecision, AccessEngine, AllowReason};
use recordguard::{
    EMERGENCY_ACCESS_DURATION, MIN_RESEARCH_VOTES, PERMISSION_READ, PERMISSION_WRITE,
};

const NOW: i64 = 1_700_000_000;

#[test]
fn owner_may_do_anything() {
    let mut e = AccessEngine::new();
    assert_eq!(
        e.check_access(1, 1, PERMISSION_READ, NOW),
        AccessDecision::Allow(AllowReason::Owner)
    );
    assert_eq!(
        e.check_access(1, 1, PERMISSION_WRITE, NOW),
        AccessDecision::Allow(AllowReason::Owner)
    );
}

#[test]
fn stranger_is_denied() {
    let mut e = AccessEngine::new();
    assert_eq!(
        e.check_access(1, 2, PERMISSION_READ, NOW),
        AccessDecision::Deny(AccessError::UnauthorizedAccess)
    );
}

#[test]
fn delegate_gets_what_the_grant_covers() {
    let mut e = AccessEngine::new();
    assert_eq!(
        e.grants.grant_access(1, 2, NOW + 3600, PERMISSION_READ, NOW),
        Ok(())
    );
    assert_eq!(
        e.check_access(1, 2, PERMISSION_READ, NOW + 10),
        AccessDecision::Allow(AllowReason::Grant)
    );
    assert_eq!(
        e.check_access(1, 2, PERMISSION_WRITE, NOW + 10),
        AccessDecision::Deny(AccessError::InsufficientPermissions)
    );
}

#[test]
fn expired_grant_is_named_as_the_reason() {
    let mut e = AccessEngine::new();
    assert_eq!(
        e.grants.grant_access(1, 2, NOW + 100, PERMISSION_READ, NOW),
        Ok(())
    );
    assert_eq!(
        e.check_access(1, 2, PERMISSION_READ, NOW + 100),
        AccessDecision::Deny(AccessError::AccessGrantExpired)
    );
}

#[test]
fn revoked_grant_denies_again() {
    let mut e = AccessEngine::new();
    assert_eq!(
        e.grants.grant_access(1, 2, NOW + 3600, PERMISSION_READ, NOW),
        Ok(())
    );
    assert_eq!(e.grants.revoke_access(1, 2), Ok(()));
    assert_eq!(
        e.check_access(1, 2, PERMISSION_READ, NOW + 10),
        AccessDecision::Deny(AccessError::UnauthorizedAccess)
    );
}

#[test]
fn emergency_contact_may_read_while_the_window_is_open() {
    let mut e = AccessEngine::new();
    assert_eq!(e.emergency.configure_emergency_access(1, 2, NOW), Ok(()));
    assert_eq!(
        e.emergency
            .activate_emergency_access(1, 2, 2, b"icu".to_vec(), NOW + 10),
        Ok(())
    );
    assert_eq!(
        e.check_access(1, 2, PERMISSION_READ, NOW + 20),
        AccessDecision::Allow(AllowReason::Emergency)
    );
    // Break-glass access is read-only.
    assert_eq!(
        e.check_access(1, 2, PERMISSION_WRITE, NOW + 20),
        AccessDecision::Deny(AccessError::UnauthorizedAccess)
    );
}

#[test]
fn facade_sweeps_a_stale_window_before_deciding() {
    let mut e = AccessEngine::new();
    assert_eq!(e.emergency.configure_emergency_access(1, 2, NOW), Ok(()));
    assert_eq!(
        e.emergency
            .activate_emergency_access(1, 2, 2, b"icu".to_vec(), NOW + 10),
        Ok(())
    );
    let after_window = NOW + 10 + EMERGENCY_ACCESS_DURATION;
    assert_eq!(
        e.check_access(1, 2, PERMISSION_READ, after_window),
        AccessDecision::Deny(AccessError::UnauthorizedAccess)
    );
    // The stale window was cleared in storage, not just ignored.
    let i = e.emergency.find_emergency(1, 2).expect("pair is configured");
    assert!(!e.emergency.records[i].is_active);
}

#[test]
fn approved_researcher_may_read() {
    let mut e = AccessEngine::new();
    assert_eq!(
        e.governance
            .create_research_proposal(7, 42, b"topic".to_vec(), NOW),
        Ok(())
    );
    for v in 0..MIN_RESEARCH_VOTES {
        assert_eq!(
            e.governance
                .vote_on_research_proposal(7, 1000 + v, true, NOW + 1),
            Ok(())
        );
    }
    // Not approved yet: denied.
    assert_eq!(
        e.check_access(1, 42, PERMISSION_READ, NOW + 2),
        AccessDecision::Deny(AccessError::UnauthorizedAccess)
    );
    assert_eq!(e.governance.execute_research_proposal(7, NOW + 2), Ok(()));
    assert_eq!(
        e.check_access(1, 42, PERMISSION_READ, NOW + 3),
        AccessDecision::Allow(AllowReason::Research)
    );
    // Research access is read-only and personal.
    assert_eq!(
        e.check_access(1, 42, PERMISSION_WRITE, NOW + 3),
        AccessDecision::Deny(AccessError::UnauthorizedAccess)
    );
    assert_eq!(
        e.check_access(1, 43, PERMISSION_READ, NOW + 3),
        AccessDecision::Deny(AccessError::UnauthorizedAccess)
    );
}
