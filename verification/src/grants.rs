//! Time-bounded, revocable permission grants between an owner and a
//! delegate.
//!
//! A grant carries a permission bitmask drawn from the grantable set (read,
//! write, share) and an expiry; it is created by the owner, mutated by
//! update and extend, and destroyed unconditionally by revoke, leaving no
//! tombstone. [`GrantStore`] keeps at most one grant per (owner, delegate)
//! pair.

use vstd::prelude::*;

use crate::errors::AccessError;
use crate::GRANTABLE_PERMISSIONS;
use crate::MAX_ACCESS_DURATION;
use crate::valid_time;

verus! {

/// One time-bounded permission grant from an owner to a delegate.
#[derive(Clone, Copy)]
pub struct AccessGrant {
    /// Owner of the guarded records.
    pub owner: u64,
    /// Delegate the permissions are granted to.
    pub grantee: u64,
    /// Time after which the grant no longer authorizes anything.
    pub expires_at: i64,
    /// Bitmask of granted permissions, within the grantable set.
    pub permissions: u8,
    /// Time the grant was created.
    pub created_at: i64,
    /// Time the grant was last created, updated or extended.
    pub last_updated: i64,
}

impl AccessGrant {
    /// Structural soundness of a grant: a real delegate, a non-empty mask
    /// within the grantable set, and an expiry after creation and at most
    /// the maximum duration past the last update.
    pub open spec fn wf(self) -> bool {
        &&& self.owner != self.grantee
        &&& 0 < self.permissions
        &&& self.permissions <= GRANTABLE_PERMISSIONS
        &&& 0 <= self.created_at
        &&& self.created_at <= self.last_updated
        &&& self.created_at < self.expires_at
        &&& self.expires_at <= self.last_updated + MAX_ACCESS_DURATION
    }

    /// A grant authorizes only while the clock is before its expiry.
    pub open spec fn spec_is_valid(self, now: i64) -> bool {
        now < self.expires_at
    }

    /// A grant covers a permission while it is valid and its mask holds the
    /// requested bit.
    pub open spec fn spec_has_permission(self, permission: u8, now: i64) -> bool {
        self.spec_is_valid(now) && self.permissions & permission != 0
    }

    /// Why creating a grant from these inputs fails, if it does. The checks
    /// run in this order: self-grant, expiry in the past, expiry too far
    /// out, bad permission mask.
    pub open spec fn spec_new_error(
        owner: u64,
        grantee: u64,
        expires_at: i64,
        permissions: u8,
        now: i64,
    ) -> Option<AccessError> {
        if grantee == owner {
            Some(AccessError::CannotGrantAccessToSelf)
        } else if expires_at <= now {
            Some(AccessError::InvalidTimestamp)
        } else if expires_at > now + MAX_ACCESS_DURATION {
            Some(AccessError::InvalidAccessDuration)
        } else if permissions == 0 || permissions > GRANTABLE_PERMISSIONS {
            Some(AccessError::InvalidPermissions)
        } else {
            None
        }
    }

    /// Create a grant, stamped with the current time. Fails exactly when
    /// the delegate is the owner, the expiry is not in `(now, now + one
    /// year]`, or the mask is empty or outside the grantable set. A freshly
    /// created grant is valid.
    pub fn new(
        owner: u64,
        grantee: u64,
        expires_at: i64,
        permissions: u8,
        now: i64,
    ) -> (r: Result<AccessGrant, AccessError>)
        requires
            valid_time(now),
        ensures
            match r {
                Ok(g) => {
                    &&& Self::spec_new_error(owner, grantee, expires_at, permissions, now)
                        is None
                    &&& g == (AccessGrant {
                        owner,
                        grantee,
                        expires_at,
                        permissions,
                        created_at: now,
                        last_updated: now,
                    })
                    &&& g.wf()
                    &&& g.spec_is_valid(now)
                },
                Err(e) => Some(e) == Self::spec_new_error(
                    owner,
                    grantee,
                    expires_at,
                    permissions,
                    now,
                ),
            },
    {
        if grantee == owner {
            return Err(AccessError::CannotGrantAccessToSelf);
        }
        if expires_at <= now {
            return Err(AccessError::InvalidTimestamp);
        }
        if expires_at > now + MAX_ACCESS_DURATION {
            return Err(AccessError::InvalidAccessDuration);
        }
        if permissions == 0 || permissions > GRANTABLE_PERMISSIONS {
            return Err(AccessError::InvalidPermissions);
        }
        Ok(AccessGrant { owner, grantee, expires_at, permissions, created_at: now, last_updated: now })
    }

    /// Whether the grant is still unexpired at `now`.
    pub fn is_valid(&self, now: i64) -> (r: bool)
        ensures
            r == self.spec_is_valid(now),
    {
        now < self.expires_at
    }

    /// Whether the grant currently covers `permission`.
    pub fn has_permission(&self, permission: u8, now: i64) -> (r: bool)
        ensures
            r == self.spec_has_permission(permission, now),
    {
        self.is_valid(now) && (self.permissions & permission) != 0
    }

    /// Replace the permission mask, re-running its validation and
    /// re-stamping `last_updated`. The grant is untouched on failure.
    pub fn update_permissions(&mut self, permissions: u8, now: i64) -> (r: Result<
        (),
        AccessError,
    >)
        requires
            old(self).wf(),
            valid_time(now),
            old(self).last_updated <= now,
        ensures
            final(self).wf(),
            match r {
                Ok(()) => {
                    &&& 0 < permissions <= GRANTABLE_PERMISSIONS
                    &&& *final(self) == (AccessGrant {
                        permissions,
                        last_updated: now,
                        ..*old(self)
                    })
                },
                Err(e) => {
                    &&& e == AccessError::InvalidPermissions
                    &&& !(0 < permissions <= GRANTABLE_PERMISSIONS)
                    &&& *final(self) == *old(self)
                },
            },
    {
        if permissions == 0 || permissions > GRANTABLE_PERMISSIONS {
            return Err(AccessError::InvalidPermissions);
        }
        self.permissions = permissions;
        self.last_updated = now;
        Ok(())
    }

    /// Why extending a grant to `new_expires_at` fails, if it does.
    pub open spec fn spec_extend_error(new_expires_at: i64, now: i64) -> Option<AccessError> {
        if new_expires_at <= now {
            Some(AccessError::InvalidTimestamp)
        } else if new_expires_at > now + MAX_ACCESS_DURATION {
            Some(AccessError::InvalidAccessDuration)
        } else {
            None
        }
    }

    /// Move the expiry, with the same window validation as creation, and
    /// re-stamp `last_updated`. The grant is untouched on failure.
    pub fn extend_expiry(&mut self, new_expires_at: i64, now: i64) -> (r: Result<(), AccessError>)
        requires
            old(self).wf(),
            valid_time(now),
            old(self).last_updated <= now,
        ensures
            final(self).wf(),
            match r {
                Ok(()) => {
                    &&& Self::spec_extend_error(new_expires_at, now) is None
                    &&& *final(self) == (AccessGrant {
                        expires_at: new_expires_at,
                        last_updated: now,
                        ..*old(self)
                    })
                },
                Err(e) => {
                    &&& Some(e) == Self::spec_extend_error(new_expires_at, now)
                    &&& *final(self) == *old(self)
                },
            },
    {
        if new_expires_at <= now {
            return Err(AccessError::InvalidTimestamp);
        }
        if new_expires_at > now + MAX_ACCESS_DURATION {
            return Err(AccessError::InvalidAccessDuration);
        }
        self.expires_at = new_expires_at;
        self.last_updated = now;
        Ok(())
    }
}

/// A grant's validity never outlives its expiry: whenever a grant reports
/// valid at `now`, the clock is strictly before `expires_at`.
pub proof fn lemma_valid_grant_unexpired(g: AccessGrant, now: i64)
    requires
        g.spec_is_valid(now),
    ensures
        now < g.expires_at,
{
}

/// Whether `g` is the grant for the (owner, grantee) pair.
pub open spec fn grant_matches(g: AccessGrant, owner: u64, grantee: u64) -> bool {
    g.owner == owner && g.grantee == grantee
}

/// Whether some grant for the pair is stored in `s`.
pub open spec fn has_grant(s: Seq<AccessGrant>, owner: u64, grantee: u64) -> bool {
    exists|i: int| 0 <= i < s.len() && grant_matches(s[i], owner, grantee)
}

/// Every stored grant is well formed and no two share a key.
pub open spec fn grants_wf(s: Seq<AccessGrant>) -> bool {
    &&& forall|i: int| 0 <= i < s.len() ==> (#[trigger] s[i]).wf()
    &&& forall|i: int, j: int|
        #![trigger s[i], s[j]]
        0 <= i < s.len() && 0 <= j < s.len() && grant_matches(s[i], s[j].owner, s[j].grantee)
            ==> i == j
}

/// Every stored grant was last touched at or before `now`; this is what the
/// monotonic clock guarantees between calls.
pub open spec fn grants_current(s: Seq<AccessGrant>, now: i64) -> bool {
    forall|i: int| 0 <= i < s.len() ==> (#[trigger] s[i]).last_updated <= now
}

/// Removing the grant stored for a pair leaves no grant for that pair and
/// none for any other pair disturbed: revocation is terminal until a new
/// grant for the same pair is created.
pub proof fn lemma_revoke_terminal(s: Seq<AccessGrant>, i: int, owner: u64, grantee: u64)
    requires
        grants_wf(s),
        0 <= i < s.len(),
        grant_matches(s[i], owner, grantee),
    ensures
        !has_grant(s.remove(i), owner, grantee),
        forall|o: u64, g: u64|
            !(o == owner && g == grantee) ==> has_grant(s.remove(i), o, g) == has_grant(s, o, g),
{
    s.remove_ensures(i);
    assert forall|o: u64, g: u64| !(o == owner && g == grantee) implies has_grant(s.remove(i), o, g)
        == has_grant(s, o, g) by {
        if has_grant(s, o, g) {
            let j = choose|j: int| 0 <= j < s.len() && grant_matches(s[j], o, g);
            if j < i {
                assert(s.remove(i)[j] == s[j]);
            } else {
                assert(j != i);
                assert(s.remove(i)[j - 1] == s[j]);
            }
        }
        if has_grant(s.remove(i), o, g) {
            let j = choose|j: int| 0 <= j < s.remove(i).len() && grant_matches(s.remove(i)[j], o, g);
            if j < i {
                assert(s.remove(i)[j] == s[j]);
            } else {
                assert(s.remove(i)[j] == s[j + 1]);
            }
        }
    }
    assert forall|j: int| 0 <= j < s.remove(i).len() implies !grant_matches(
        s.remove(i)[j],
        owner,
        grantee,
    ) by {
        if j < i {
            assert(s.remove(i)[j] == s[j]);
        } else {
            assert(s.remove(i)[j] == s[j + 1]);
        }
    }
}

/// The store of permission grants: at most one per (owner, delegate) pair.
pub struct GrantStore {
    /// The stored grants, unique by (owner, grantee).
    pub grants: Vec<AccessGrant>,
}

impl GrantStore {
    /// Structural soundness of the whole store.
    pub open spec fn wf(self) -> bool {
        grants_wf(self.grants@)
    }

    /// An empty store.
    pub fn new() -> (s: GrantStore)
        ensures
            s.wf(),
            s.grants@.len() == 0,
    {
        GrantStore { grants: Vec::new() }
    }

    /// Index of the grant for the pair, if one is stored.
    pub fn find_grant(&self, owner: u64, grantee: u64) -> (r: Option<usize>)
        ensures
            match r {
                Some(i) => i < self.grants@.len() && grant_matches(
                    self.grants@[i as int],
                    owner,
                    grantee,
                ),
                None => !has_grant(self.grants@, owner, grantee),
            },
    {
        let n = self.grants.len();
        let mut i: usize = 0;
        while i < n
            invariant
                n == self.grants@.len(),
                i <= n,
                forall|j: int| 0 <= j < i ==> !grant_matches(self.grants@[j], owner, grantee),
            decreases n - i,
        {
            if self.grants[i].owner == owner && self.grants[i].grantee == grantee {
                return Some(i);
            }
            i = i + 1;
        }
        None
    }

    /// Why creating a grant in this store fails, if it does: an existing
    /// grant for the pair wins over input validation.
    pub open spec fn spec_grant_access_error(
        s: Seq<AccessGrant>,
        owner: u64,
        grantee: u64,
        expires_at: i64,
        permissions: u8,
        now: i64,
    ) -> Option<AccessError> {
        if has_grant(s, owner, grantee) {
            Some(AccessError::AccessGrantAlreadyExists)
        } else {
            AccessGrant::spec_new_error(owner, grantee, expires_at, permissions, now)
        }
    }

    /// Create a grant for the pair. Fails exactly when a grant for the pair
    /// already exists or the inputs fail creation's validation; on failure
    /// the store is untouched, on success the new grant (stamped `now`) is
    /// appended and every other pair is undisturbed.
    pub fn grant_access(
        &mut self,
        owner: u64,
        grantee: u64,
        expires_at: i64,
        permissions: u8,
        now: i64,
    ) -> (r: Result<(), AccessError>)
        requires
            old(self).wf(),
            valid_time(now),
        ensures
            final(self).wf(),
            match r {
                Ok(()) => {
                    &&& Self::spec_grant_access_error(
                        old(self).grants@,
                        owner,
                        grantee,
                        expires_at,
                        permissions,
                        now,
                    ) is None
                    &&& final(self).grants@ == old(self).grants@.push(
                        AccessGrant {
                            owner,
                            grantee,
                            expires_at,
                            permissions,
                            created_at: now,
                            last_updated: now,
                        },
                    )
                    &&& has_grant(final(self).grants@, owner, grantee)
                },
                Err(e) => {
                    &&& Some(e) == Self::spec_grant_access_error(
                        old(self).grants@,
                        owner,
                        grantee,
                        expires_at,
                        permissions,
                        now,
                    )
                    &&& final(self).grants@ == old(self).grants@
                },
            },
    {
        if self.find_grant(owner, grantee).is_some() {
            return Err(AccessError::AccessGrantAlreadyExists);
        }
        let grant = match AccessGrant::new(owner, grantee, expires_at, permissions, now) {
            Ok(g) => g,
            Err(e) => {
                return Err(e);
            },
        };
        self.grants.push(grant);
        proof {
            let s = self.grants@;
            let olds = old(self).grants@;
            assert forall|i: int, j: int|
                #![trigger s[i], s[j]]
                0 <= i < s.len() && 0 <= j < s.len() && grant_matches(
                    s[i],
                    s[j].owner,
                    s[j].grantee,
                ) implies i == j by {
                if i < olds.len() && j < olds.len() {
                } else if i == olds.len() && j < olds.len() {
                    assert(grant_matches(olds[j], owner, grantee));
                } else if j == olds.len() && i < olds.len() {
                    assert(grant_matches(olds[i], owner, grantee));
                }
            }
            assert(grant_matches(s[s.len() - 1], owner, grantee));
        }
        Ok(())
    }

    /// Answer whether the pair's grant currently covers `permission`:
    /// not-found when no grant is stored, otherwise the pure validity test
    /// `now < expires_at && permissions & permission != 0` on the stored
    /// grant. Never mutates.
    pub fn query_permission(&self, owner: u64, grantee: u64, permission: u8, now: i64) -> (r:
        Result<bool, AccessError>)
        requires
            self.wf(),
        ensures
            match r {
                Ok(b) => {
                    &&& has_grant(self.grants@, owner, grantee)
                    &&& forall|i: int|
                        0 <= i < self.grants@.len() && grant_matches(
                            #[trigger] self.grants@[i],
                            owner,
                            grantee,
                        ) ==> b == self.grants@[i].spec_has_permission(permission, now)
                },
                Err(e) => {
                    &&& e == AccessError::AccessGrantNotFound
                    &&& !has_grant(self.grants@, owner, grantee)
                },
            },
    {
        match self.find_grant(owner, grantee) {
            Some(i) => Ok(self.grants[i].has_permission(permission, now)),
            None => Err(AccessError::AccessGrantNotFound),
        }
    }

    /// Replace the permission mask of the pair's grant. Fails exactly when
    /// no grant is stored (not-found wins) or the mask fails validation; on
    /// success only the pair's grant changes, taking the new mask and a
    /// fresh `last_updated`.
    pub fn update_permissions(&mut self, owner: u64, grantee: u64, permissions: u8, now: i64) -> (r:
        Result<(), AccessError>)
        requires
            old(self).wf(),
            valid_time(now),
            grants_current(old(self).grants@, now),
        ensures
            final(self).wf(),
            grants_current(final(self).grants@, now),
            match r {
                Ok(()) => {
                    &&& 0 < permissions <= GRANTABLE_PERMISSIONS
                    &&& exists|i: int|
                        0 <= i < old(self).grants@.len() && grant_matches(
                            #[trigger] old(self).grants@[i],
                            owner,
                            grantee,
                        ) && final(self).grants@ == old(self).grants@.update(
                            i,
                            AccessGrant {
                                permissions,
                                last_updated: now,
                                ..old(self).grants@[i]
                            },
                        )
                },
                Err(e) => {
                    &&& final(self).grants@ == old(self).grants@
                    &&& if !has_grant(old(self).grants@, owner, grantee) {
                        e == AccessError::AccessGrantNotFound
                    } else {
                        e == AccessError::InvalidPermissions && !(0 < permissions
                            <= GRANTABLE_PERMISSIONS)
                    }
                },
            },
    {
        let i = match self.find_grant(owner, grantee) {
            Some(i) => i,
            None => {
                return Err(AccessError::AccessGrantNotFound);
            },
        };
        let mut g = self.grants[i];
        let r = g.update_permissions(permissions, now);
        self.grants[i] = g;
        if r.is_err() {
            proof {
                assert(self.grants@ =~= old(self).grants@);
            }
        }
        r
    }

    /// Move the expiry of the pair's grant. Fails exactly when no grant is
    /// stored (not-found wins) or the new expiry fails the window
    /// validation; on success only the pair's grant changes.
    pub fn extend_expiry(&mut self, owner: u64, grantee: u64, new_expires_at: i64, now: i64) -> (r:
        Result<(), AccessError>)
        requires
            old(self).wf(),
            valid_time(now),
            grants_current(old(self).grants@, now),
        ensures
            final(self).wf(),
            grants_current(final(self).grants@, now),
            match r {
                Ok(()) => {
                    &&& AccessGrant::spec_extend_error(new_expires_at, now) is None
                    &&& exists|i: int|
                        0 <= i < old(self).grants@.len() && grant_matches(
                            #[trigger] old(self).grants@[i],
                            owner,
                            grantee,
                        ) && final(self).grants@ == old(self).grants@.update(
                            i,
                            AccessGrant {
                                expires_at: new_expires_at,
                                last_updated: now,
                                ..old(self).grants@[i]
                            },
                        )
                },
                Err(e) => {
                    &&& final(self).grants@ == old(self).grants@
                    &&& if !has_grant(old(self).grants@, owner, grantee) {
                        e == AccessError::AccessGrantNotFound
                    } else {
                        Some(e) == AccessGrant::spec_extend_error(new_expires_at, now)
                    }
                },
            },
    {
        let i = match self.find_grant(owner, grantee) {
            Some(i) => i,
            None => {
                return Err(AccessError::AccessGrantNotFound);
            },
        };
        let mut g = self.grants[i];
        let r = g.extend_expiry(new_expires_at, now);
        self.grants[i] = g;
        if r.is_err() {
            proof {
                assert(self.grants@ =~= old(self).grants@);
            }
        }
        r
    }

    /// Revoke the pair's grant: an unconditional, final delete. Fails
    /// exactly when no grant is stored; on success the pair has no grant
    /// any more and every other pair is undisturbed.
    pub fn revoke_access(&mut self, owner: u64, grantee: u64) -> (r: Result<(), AccessError>)
        requires
            old(self).wf(),
        ensures
            final(self).wf(),
            match r {
                Ok(()) => {
                    &&& has_grant(old(self).grants@, owner, grantee)
                    &&& !has_grant(final(self).grants@, owner, grantee)
                    &&& exists|i: int|
                        0 <= i < old(self).grants@.len() && grant_matches(
                            #[trigger] old(self).grants@[i],
                            owner,
                            grantee,
                        ) && final(self).grants@ == old(self).grants@.remove(i)
                    &&& forall|o: u64, g: u64|
                        !(o == owner && g == grantee) ==> has_grant(final(self).grants@, o, g)
                            == has_grant(old(self).grants@, o, g)
                },
                Err(e) => {
                    &&& e == AccessError::AccessGrantNotFound
                    &&& !has_grant(old(self).grants@, owner, grantee)
                    &&& final(self).grants@ == old(self).grants@
                },
            },
    {
        let i = match self.find_grant(owner, grantee) {
            Some(i) => i,
            None => {
                return Err(AccessError::AccessGrantNotFound);
            },
        };
        self.grants.remove(i);
        proof {
            lemma_revoke_terminal(old(self).grants@, i as int, owner, grantee);
            old(self).grants@.remove_ensures(i as int);
            assert forall|a: int, b: int|
                #![trigger self.grants@[a], self.grants@[b]]
                0 <= a < self.grants@.len() && 0 <= b < self.grants@.len() && grant_matches(
                    self.grants@[a],
                    self.grants@[b].owner,
                    self.grants@[b].grantee,
                ) implies a == b by {
                let s = old(self).grants@;
                let a0: int = if a < i { a } else { a + 1 };
                let b0: int = if b < i { b } else { b + 1 };
                assert(self.grants@[a] == s[a0]);
                assert(self.grants@[b] == s[b0]);
            }
        }
        Ok(())
    }
}

} // verus!
