//! The access-decision facade: may principal P do action A on a resource
//! owned by O now?
//!
//! The facade composes the three access mechanisms. The owner may do
//! anything; a delegate may do what an unexpired grant's mask covers; an
//! emergency contact with an open, unexpired window may read; a researcher
//! with an approved proposal may read. Everything else is denied, with the
//! most specific reason available. Before reading the emergency window the
//! facade runs the lazy expiry sweep, so a stale window is also cleared in
//! storage.

use vstd::prelude::*;

use crate::emergency::EmergencyStore;
use crate::emergency::emergency_matches;
use crate::errors::AccessError;
use crate::governance::GovernanceStore;
use crate::grants::GrantStore;
use crate::grants::grant_matches;
use crate::grants::has_grant;
use crate::PERMISSION_READ;
use crate::valid_time;

verus! {

/// Which mechanism allowed an access.
#[derive(Clone, Copy, PartialEq, Eq, Structural, Debug)]
pub enum AllowReason {
    /// The principal owns the resource.
    Owner,
    /// An unexpired grant covers the requested permission.
    Grant,
    /// An open, unexpired emergency window; read only.
    Emergency,
    /// An approved research proposal names the principal; read only.
    Research,
}

/// The facade's answer: allowed with the mechanism that allowed it, or
/// denied with the most specific refusal.
#[derive(Clone, Copy, PartialEq, Eq, Structural, Debug)]
pub enum AccessDecision {
    /// Access is allowed, for this reason.
    Allow(AllowReason),
    /// Access is denied, for this reason.
    Deny(AccessError),
}

/// The engine: the three access mechanisms behind one decision point.
pub struct AccessEngine {
    /// The permission grants.
    pub grants: GrantStore,
    /// The break-glass records.
    pub emergency: EmergencyStore,
    /// The research proposals and votes.
    pub governance: GovernanceStore,
}

impl AccessEngine {
    /// Structural soundness of all three stores.
    pub open spec fn wf(self) -> bool {
        &&& self.grants.wf()
        &&& self.emergency.wf()
        &&& self.governance.wf()
    }

    /// An engine with empty stores.
    pub fn new() -> (e: AccessEngine)
        ensures
            e.wf(),
            e.grants.grants@.len() == 0,
            e.emergency.records@.len() == 0,
            e.governance.proposals@.len() == 0,
            e.governance.votes@.len() == 0,
    {
        AccessEngine {
            grants: GrantStore::new(),
            emergency: EmergencyStore::new(),
            governance: GovernanceStore::new(),
        }
    }

    /// The decision, over the state after the emergency sweep. The
    /// mechanisms are consulted in a fixed order — owner, grant,
    /// emergency, research — and a denial carries the most specific
    /// reason: an expired grant or one without the bit beats the generic
    /// refusal.
    pub open spec fn spec_decision(
        self,
        resource_owner: u64,
        principal: u64,
        permission: u8,
        now: i64,
    ) -> AccessDecision {
        if principal == resource_owner {
            AccessDecision::Allow(AllowReason::Owner)
        } else if exists|i: int|
            0 <= i < self.grants.grants@.len() && grant_matches(
                #[trigger] self.grants.grants@[i],
                resource_owner,
                principal,
            ) && self.grants.grants@[i].spec_has_permission(permission, now) {
            AccessDecision::Allow(AllowReason::Grant)
        } else if permission == PERMISSION_READ && exists|i: int|
            0 <= i < self.emergency.records@.len() && emergency_matches(
                #[trigger] self.emergency.records@[i],
                resource_owner,
                principal,
            ) && self.emergency.records@[i].spec_is_valid(now) {
            AccessDecision::Allow(AllowReason::Emergency)
        } else if permission == PERMISSION_READ && exists|i: int|
            0 <= i < self.governance.proposals@.len()
                && (#[trigger] self.governance.proposals@[i]).is_approved
                && self.governance.proposals@[i].researcher == principal {
            AccessDecision::Allow(AllowReason::Research)
        } else if exists|i: int|
            0 <= i < self.grants.grants@.len() && grant_matches(
                #[trigger] self.grants.grants@[i],
                resource_owner,
                principal,
            ) && !self.grants.grants@[i].spec_is_valid(now) {
            AccessDecision::Deny(AccessError::AccessGrantExpired)
        } else if has_grant(self.grants.grants@, resource_owner, principal) {
            AccessDecision::Deny(AccessError::InsufficientPermissions)
        } else {
            AccessDecision::Deny(AccessError::UnauthorizedAccess)
        }
    }

    /// Decide whether `principal` may exercise `permission` on a resource
    /// owned by `resource_owner` at `now`. Runs the emergency sweep for
    /// the (owner, principal) pair first — the one mutation — and then
    /// answers exactly [`Self::spec_decision`] over the swept state;
    /// grants and governance are never touched.
    pub fn check_access(
        &mut self,
        resource_owner: u64,
        principal: u64,
        permission: u8,
        now: i64,
    ) -> (d: AccessDecision)
        requires
            old(self).wf(),
            valid_time(now),
        ensures
            final(self).wf(),
            final(self).grants == old(self).grants,
            final(self).governance == old(self).governance,
            final(self).emergency.records@.len() == old(self).emergency.records@.len(),
            forall|i: int|
                0 <= i < old(self).emergency.records@.len() && !emergency_matches(
                    #[trigger] old(self).emergency.records@[i],
                    resource_owner,
                    principal,
                ) ==> final(self).emergency.records@[i] == old(self).emergency.records@[i],
            forall|i: int|
                0 <= i < old(self).emergency.records@.len() && emergency_matches(
                    #[trigger] old(self).emergency.records@[i],
                    resource_owner,
                    principal,
                ) ==> old(self).emergency.records@[i].sweeps_to(
                    final(self).emergency.records@[i],
                    now,
                ),
            d == final(self).spec_decision(resource_owner, principal, permission, now),
    {
        let _ = self.emergency.check_and_expire(resource_owner, principal, now);
        if principal == resource_owner {
            return AccessDecision::Allow(AllowReason::Owner);
        }
        match self.grants.query_permission(resource_owner, principal, permission, now) {
            Ok(true) => {
                return AccessDecision::Allow(AllowReason::Grant);
            },
            _ => {},
        }
        if permission == PERMISSION_READ && self.emergency.is_window_valid(
            resource_owner,
            principal,
            now,
        ) {
            return AccessDecision::Allow(AllowReason::Emergency);
        }
        if permission == PERMISSION_READ && self.governance.has_approved_proposal(principal) {
            return AccessDecision::Allow(AllowReason::Research);
        }
        match self.grants.find_grant(resource_owner, principal) {
            Some(i) => {
                if !self.grants.grants[i].is_valid(now) {
                    AccessDecision::Deny(AccessError::AccessGrantExpired)
                } else {
                    AccessDecision::Deny(AccessError::InsufficientPermissions)
                }
            },
            None => AccessDecision::Deny(AccessError::UnauthorizedAccess),
        }
    }
}

} // verus!
