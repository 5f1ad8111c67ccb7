//! Emergency break-glass access between an owner and a designated contact.
//!
//! Each (owner, contact) pair has at most one record, moving between
//! inactive and active. Activation opens a seven-day window, is refused
//! while a window is already open and during a one-day cooldown after the
//! previous activation, and records who activated and why. Expiry is lazy:
//! a stale window is cleared by [`EmergencyAccess::check_and_expire`], which
//! must run before any validity read.

use vstd::prelude::*;

use crate::errors::AccessError;
use crate::EMERGENCY_ACCESS_DURATION;
use crate::EMERGENCY_COOLDOWN;
use crate::MAX_METADATA_LENGTH;
use crate::valid_time;

verus! {

/// The break-glass record for one (owner, contact) pair.
pub struct EmergencyAccess {
    /// Owner of the guarded records.
    pub owner: u64,
    /// Contact who may break the glass.
    pub emergency_contact: u64,
    /// Whether a window is currently open.
    pub is_active: bool,
    /// Time of the most recent activation; zero before the first one.
    pub last_activated: i64,
    /// End of the open window; zero while inactive.
    pub expires_at: i64,
    /// Reason given for the current activation; empty while inactive.
    pub activation_reason: Vec<u8>,
    /// Principal who performed the current activation; zero while inactive.
    pub activated_by: u64,
    /// Time the pair was configured.
    pub created_at: i64,
}

impl EmergencyAccess {
    /// Structural soundness: a contact distinct from the owner,
    /// non-negative timestamps, a capped reason, and an open window that
    /// ends exactly one emergency duration after its activation.
    pub open spec fn wf(self) -> bool {
        &&& self.owner != self.emergency_contact
        &&& 0 <= self.created_at
        &&& 0 <= self.last_activated
        &&& self.activation_reason@.len() <= MAX_METADATA_LENGTH
        &&& self.is_active ==> self.expires_at == self.last_activated + EMERGENCY_ACCESS_DURATION
        &&& !self.is_active ==> self.expires_at == 0
    }

    /// A window authorizes only while it is active and the clock is before
    /// its expiry.
    pub open spec fn spec_is_valid(self, now: i64) -> bool {
        self.is_active && now < self.expires_at
    }

    /// Whether `post` is `self` with its window closed: the activation
    /// timestamp stays, so the cooldown keeps counting from the last
    /// activation.
    pub open spec fn deactivates_to(self, post: EmergencyAccess) -> bool {
        &&& post.owner == self.owner
        &&& post.emergency_contact == self.emergency_contact
        &&& post.created_at == self.created_at
        &&& post.last_activated == self.last_activated
        &&& !post.is_active
        &&& post.expires_at == 0
        &&& post.activation_reason@ == Seq::<u8>::empty()
        &&& post.activated_by == 0
    }

    /// Whether `post` is `self` after a lazy expiry sweep at `now`: an
    /// active window whose expiry has passed is cleared, anything else is
    /// untouched.
    pub open spec fn sweeps_to(self, post: EmergencyAccess, now: i64) -> bool {
        if self.is_active && now >= self.expires_at {
            self.deactivates_to(post)
        } else {
            post == self
        }
    }

    /// Configure break-glass access for a pair: an inactive record stamped
    /// with the current time. Fails exactly when the contact is the owner.
    pub fn new(owner: u64, emergency_contact: u64, now: i64) -> (r: Result<
        EmergencyAccess,
        AccessError,
    >)
        requires
            valid_time(now),
        ensures
            match r {
                Ok(e) => {
                    &&& owner != emergency_contact
                    &&& e.owner == owner
                    &&& e.emergency_contact == emergency_contact
                    &&& !e.is_active
                    &&& e.last_activated == 0
                    &&& e.expires_at == 0
                    &&& e.activation_reason@ == Seq::<u8>::empty()
                    &&& e.activated_by == 0
                    &&& e.created_at == now
                    &&& e.wf()
                },
                Err(err) => {
                    &&& err == AccessError::CannotGrantAccessToSelf
                    &&& owner == emergency_contact
                },
            },
    {
        if owner == emergency_contact {
            return Err(AccessError::CannotGrantAccessToSelf);
        }
        Ok(
            EmergencyAccess {
                owner,
                emergency_contact,
                is_active: false,
                last_activated: 0,
                expires_at: 0,
                activation_reason: Vec::new(),
                activated_by: 0,
                created_at: now,
            },
        )
    }

    /// Why activating this record fails, if it does: the cooldown is
    /// checked first, then the reason's byte cap. (Whether a window is
    /// already open, and who may activate, are the store's checks.)
    pub open spec fn spec_activate_error(self, reason: Seq<u8>, now: i64) -> Option<AccessError> {
        if now < self.last_activated + EMERGENCY_COOLDOWN {
            Some(AccessError::EmergencyAccessCooldown)
        } else if reason.len() > MAX_METADATA_LENGTH {
            Some(AccessError::MetadataTooLong)
        } else {
            None
        }
    }

    /// Open a window: fails exactly when the cooldown since the last
    /// activation has not elapsed or the reason is over its cap; on success
    /// the window opens now, for one emergency duration, recording the
    /// reason and the activating principal. The record is untouched on
    /// failure.
    pub fn activate(&mut self, reason: Vec<u8>, activated_by: u64, now: i64) -> (r: Result<
        (),
        AccessError,
    >)
        requires
            old(self).wf(),
            valid_time(now),
            old(self).last_activated <= now,
        ensures
            final(self).wf(),
            match r {
                Ok(()) => {
                    &&& old(self).spec_activate_error(reason@, now) is None
                    &&& final(self).is_active
                    &&& final(self).last_activated == now
                    &&& final(self).expires_at == now + EMERGENCY_ACCESS_DURATION
                    &&& final(self).activation_reason@ == reason@
                    &&& final(self).activated_by == activated_by
                    &&& final(self).owner == old(self).owner
                    &&& final(self).emergency_contact == old(self).emergency_contact
                    &&& final(self).created_at == old(self).created_at
                    &&& final(self).spec_is_valid(now)
                },
                Err(e) => {
                    &&& Some(e) == old(self).spec_activate_error(reason@, now)
                    &&& *final(self) == *old(self)
                },
            },
    {
        if now < self.last_activated + EMERGENCY_COOLDOWN {
            return Err(AccessError::EmergencyAccessCooldown);
        }
        if reason.len() > MAX_METADATA_LENGTH {
            return Err(AccessError::MetadataTooLong);
        }
        self.is_active = true;
        self.last_activated = now;
        self.expires_at = now + EMERGENCY_ACCESS_DURATION;
        self.activation_reason = reason;
        self.activated_by = activated_by;
        Ok(())
    }

    /// Close the window unconditionally. The activation timestamp stays, so
    /// the cooldown still runs from the last activation.
    pub fn deactivate(&mut self)
        ensures
            old(self).deactivates_to(*final(self)),
    {
        self.is_active = false;
        self.expires_at = 0;
        self.activation_reason = Vec::new();
        self.activated_by = 0;
        proof {
            assert(self.activation_reason@ =~= Seq::<u8>::empty());
        }
    }

    /// Whether the window authorizes at `now`. Callers must run
    /// [`Self::check_and_expire`] first, so a stale window is also cleared
    /// in storage; validity itself is a pure read.
    pub fn is_valid(&self, now: i64) -> (r: bool)
        ensures
            r == self.spec_is_valid(now),
    {
        self.is_active && now < self.expires_at
    }

    /// The lazy expiry sweep: clear an active window whose expiry has
    /// passed, and report whether that happened.
    pub fn check_and_expire(&mut self, now: i64) -> (expired: bool)
        ensures
            old(self).sweeps_to(*final(self), now),
            old(self).wf() ==> final(self).wf(),
            expired == (old(self).is_active && now >= old(self).expires_at),
    {
        if self.is_active && !(now < self.expires_at) {
            self.deactivate();
            return true;
        }
        false
    }
}

/// The cooldown bound, stated on its own: within one cooldown period of the
/// previous activation the record refuses to activate, whatever the reason
/// or actor; once the cooldown has elapsed the record itself no longer
/// objects (only an already-open window, checked by the store, still can).
pub proof fn lemma_activation_cooldown(e: EmergencyAccess, reason: Seq<u8>, now: i64)
    requires
        e.wf(),
    ensures
        now < e.last_activated + EMERGENCY_COOLDOWN ==> e.spec_activate_error(reason, now)
            == Some(AccessError::EmergencyAccessCooldown),
        now >= e.last_activated + EMERGENCY_COOLDOWN && reason.len() <= MAX_METADATA_LENGTH
            ==> e.spec_activate_error(reason, now) is None,
{
}

/// Whether `e` is the record for the (owner, contact) pair.
pub open spec fn emergency_matches(e: EmergencyAccess, owner: u64, contact: u64) -> bool {
    e.owner == owner && e.emergency_contact == contact
}

/// Whether some record for the pair is stored in `s`.
pub open spec fn has_emergency(s: Seq<EmergencyAccess>, owner: u64, contact: u64) -> bool {
    exists|i: int| 0 <= i < s.len() && emergency_matches(s[i], owner, contact)
}

/// Every stored record is well formed and no two share a key.
pub open spec fn emergencies_wf(s: Seq<EmergencyAccess>) -> bool {
    &&& forall|i: int| 0 <= i < s.len() ==> (#[trigger] s[i]).wf()
    &&& forall|i: int, j: int|
        #![trigger s[i], s[j]]
        0 <= i < s.len() && 0 <= j < s.len() && emergency_matches(
            s[i],
            s[j].owner,
            s[j].emergency_contact,
        ) ==> i == j
}

/// Every stored record was last activated at or before `now`; this is what
/// the monotonic clock guarantees between calls.
pub open spec fn emergencies_current(s: Seq<EmergencyAccess>, now: i64) -> bool {
    forall|i: int| 0 <= i < s.len() ==> (#[trigger] s[i]).last_activated <= now
}

/// The store of break-glass records: at most one per (owner, contact) pair.
pub struct EmergencyStore {
    /// The stored records, unique by (owner, emergency_contact).
    pub records: Vec<EmergencyAccess>,
}

impl EmergencyStore {
    /// Structural soundness of the whole store.
    pub open spec fn wf(self) -> bool {
        emergencies_wf(self.records@)
    }

    /// An empty store.
    pub fn new() -> (s: EmergencyStore)
        ensures
            s.wf(),
            s.records@.len() == 0,
    {
        EmergencyStore { records: Vec::new() }
    }

    /// Index of the record for the pair, if one is stored.
    pub fn find_emergency(&self, owner: u64, contact: u64) -> (r: Option<usize>)
        ensures
            match r {
                Some(i) => i < self.records@.len() && emergency_matches(
                    self.records@[i as int],
                    owner,
                    contact,
                ),
                None => !has_emergency(self.records@, owner, contact),
            },
    {
        let n = self.records.len();
        let mut i: usize = 0;
        while i < n
            invariant
                n == self.records@.len(),
                i <= n,
                forall|j: int| 0 <= j < i ==> !emergency_matches(self.records@[j], owner, contact),
            decreases n - i,
        {
            if self.records[i].owner == owner && self.records[i].emergency_contact == contact {
                return Some(i);
            }
            i = i + 1;
        }
        None
    }

    /// Why configuring a pair fails, if it does: an existing record for the
    /// pair wins over the self-reference check.
    pub open spec fn spec_configure_error(
        s: Seq<EmergencyAccess>,
        owner: u64,
        contact: u64,
    ) -> Option<AccessError> {
        if has_emergency(s, owner, contact) {
            Some(AccessError::EmergencyAccessAlreadyConfigured)
        } else if owner == contact {
            Some(AccessError::CannotGrantAccessToSelf)
        } else {
            None
        }
    }

    /// Configure break-glass access for the pair. Fails exactly when the
    /// pair is already configured or the contact is the owner; on success a
    /// fresh inactive record is appended and every other pair is
    /// undisturbed.
    pub fn configure_emergency_access(&mut self, owner: u64, contact: u64, now: i64) -> (r: Result<
        (),
        AccessError,
    >)
        requires
            old(self).wf(),
            valid_time(now),
        ensures
            final(self).wf(),
            match r {
                Ok(()) => {
                    &&& Self::spec_configure_error(old(self).records@, owner, contact) is None
                    &&& final(self).records@.len() == old(self).records@.len() + 1
                    &&& forall|j: int|
                        0 <= j < old(self).records@.len() ==> final(self).records@[j] == old(
                            self,
                        ).records@[j]
                    &&& {
                        let e = final(self).records@.last();
                        &&& emergency_matches(e, owner, contact)
                        &&& !e.is_active
                        &&& e.last_activated == 0
                        &&& e.created_at == now
                    }
                    &&& has_emergency(final(self).records@, owner, contact)
                },
                Err(e) => {
                    &&& Some(e) == Self::spec_configure_error(old(self).records@, owner, contact)
                    &&& final(self).records@ == old(self).records@
                },
            },
    {
        if self.find_emergency(owner, contact).is_some() {
            return Err(AccessError::EmergencyAccessAlreadyConfigured);
        }
        let record = match EmergencyAccess::new(owner, contact, now) {
            Ok(e) => e,
            Err(e) => {
                return Err(e);
            },
        };
        self.records.push(record);
        proof {
            let s = self.records@;
            let olds = old(self).records@;
            assert forall|i: int, j: int|
                #![trigger s[i], s[j]]
                0 <= i < s.len() && 0 <= j < s.len() && emergency_matches(
                    s[i],
                    s[j].owner,
                    s[j].emergency_contact,
                ) implies i == j by {
                if i == olds.len() && j < olds.len() {
                    assert(emergency_matches(olds[j], owner, contact));
                } else if j == olds.len() && i < olds.len() {
                    assert(emergency_matches(olds[i], owner, contact));
                }
            }
            assert(emergency_matches(s[s.len() - 1], owner, contact));
        }
        Ok(())
    }

    /// Why activating for a pair fails, if it does. The checks run in this
    /// order: record missing, window already open, actor neither the
    /// contact nor the owner, then the record's own cooldown and reason
    /// checks.
    pub open spec fn spec_activate_error(
        s: Seq<EmergencyAccess>,
        owner: u64,
        contact: u64,
        activator: u64,
        reason: Seq<u8>,
        now: i64,
        i: int,
    ) -> Option<AccessError> {
        if !has_emergency(s, owner, contact) {
            Some(AccessError::EmergencyAccessNotConfigured)
        } else if s[i].is_active {
            Some(AccessError::EmergencyAccessAlreadyActive)
        } else if activator != contact && activator != owner {
            Some(AccessError::UnauthorizedAccess)
        } else {
            s[i].spec_activate_error(reason, now)
        }
    }

    /// Open the pair's window on behalf of `activator`. Fails exactly when
    /// the pair is not configured, a window is already open, the activator
    /// is neither the contact nor the owner, the cooldown has not elapsed,
    /// or the reason is over its cap; on success only the pair's record
    /// changes, opening a window at `now` for one emergency duration.
    pub fn activate_emergency_access(
        &mut self,
        owner: u64,
        contact: u64,
        activator: u64,
        reason: Vec<u8>,
        now: i64,
    ) -> (r: Result<(), AccessError>)
        requires
            old(self).wf(),
            valid_time(now),
            emergencies_current(old(self).records@, now),
        ensures
            final(self).wf(),
            emergencies_current(final(self).records@, now),
            match r {
                Ok(()) => exists|i: int|
                    {
                        &&& 0 <= i < old(self).records@.len()
                        &&& emergency_matches(#[trigger] old(self).records@[i], owner, contact)
                        &&& Self::spec_activate_error(
                            old(self).records@,
                            owner,
                            contact,
                            activator,
                            reason@,
                            now,
                            i,
                        ) is None
                        &&& final(self).records@.len() == old(self).records@.len()
                        &&& (forall|j: int|
                            0 <= j < old(self).records@.len() && j != i ==> final(self).records@[j]
                                == old(self).records@[j])
                        &&& {
                            let e = final(self).records@[i];
                            &&& e.is_active
                            &&& e.last_activated == now
                            &&& e.expires_at == now + EMERGENCY_ACCESS_DURATION
                            &&& e.activation_reason@ == reason@
                            &&& e.activated_by == activator
                            &&& e.owner == owner
                            &&& e.emergency_contact == contact
                            &&& e.spec_is_valid(now)
                        }
                    },
                Err(e) => {
                    &&& final(self).records@ == old(self).records@
                    &&& if !has_emergency(old(self).records@, owner, contact) {
                        e == AccessError::EmergencyAccessNotConfigured
                    } else {
                        exists|i: int|
                            0 <= i < old(self).records@.len() && emergency_matches(
                                #[trigger] old(self).records@[i],
                                owner,
                                contact,
                            ) && Some(e) == Self::spec_activate_error(
                                old(self).records@,
                                owner,
                                contact,
                                activator,
                                reason@,
                                now,
                                i,
                            )
                    }
                },
            },
    {
        let i = match self.find_emergency(owner, contact) {
            Some(i) => i,
            None => {
                return Err(AccessError::EmergencyAccessNotConfigured);
            },
        };
        if self.records[i].is_active {
            return Err(AccessError::EmergencyAccessAlreadyActive);
        }
        if activator != contact && activator != owner {
            return Err(AccessError::UnauthorizedAccess);
        }
        let e = &mut self.records[i];
        e.activate(reason, activator, now)
    }

    /// Close the pair's window, callable at any time. Fails exactly when
    /// the pair is not configured; on success only the pair's record
    /// changes, keeping its activation timestamp for the cooldown.
    pub fn deactivate_emergency_access(&mut self, owner: u64, contact: u64) -> (r: Result<
        (),
        AccessError,
    >)
        requires
            old(self).wf(),
        ensures
            final(self).wf(),
            match r {
                Ok(()) => exists|i: int|
                    {
                        &&& 0 <= i < old(self).records@.len()
                        &&& emergency_matches(#[trigger] old(self).records@[i], owner, contact)
                        &&& final(self).records@.len() == old(self).records@.len()
                        &&& (forall|j: int|
                            0 <= j < old(self).records@.len() && j != i ==> final(self).records@[j]
                                == old(self).records@[j])
                        &&& old(self).records@[i].deactivates_to(final(self).records@[i])
                    },
                Err(e) => {
                    &&& e == AccessError::EmergencyAccessNotConfigured
                    &&& !has_emergency(old(self).records@, owner, contact)
                    &&& final(self).records@ == old(self).records@
                },
            },
    {
        let i = match self.find_emergency(owner, contact) {
            Some(i) => i,
            None => {
                return Err(AccessError::EmergencyAccessNotConfigured);
            },
        };
        let e = &mut self.records[i];
        e.deactivate();
        Ok(())
    }

    /// Run the lazy expiry sweep on the pair's record and report whether a
    /// stale window was cleared. Fails exactly when the pair is not
    /// configured. Callers must invoke this before reading validity.
    pub fn check_and_expire(&mut self, owner: u64, contact: u64, now: i64) -> (r: Result<
        bool,
        AccessError,
    >)
        requires
            old(self).wf(),
        ensures
            final(self).wf(),
            match r {
                Ok(expired) => exists|i: int|
                    {
                        &&& 0 <= i < old(self).records@.len()
                        &&& emergency_matches(#[trigger] old(self).records@[i], owner, contact)
                        &&& final(self).records@.len() == old(self).records@.len()
                        &&& (forall|j: int|
                            0 <= j < old(self).records@.len() && j != i ==> final(self).records@[j]
                                == old(self).records@[j])
                        &&& old(self).records@[i].sweeps_to(final(self).records@[i], now)
                        &&& expired == (old(self).records@[i].is_active && now >= old(
                            self,
                        ).records@[i].expires_at)
                    },
                Err(e) => {
                    &&& e == AccessError::EmergencyAccessNotConfigured
                    &&& !has_emergency(old(self).records@, owner, contact)
                    &&& final(self).records@ == old(self).records@
                },
            },
    {
        let i = match self.find_emergency(owner, contact) {
            Some(i) => i,
            None => {
                return Err(AccessError::EmergencyAccessNotConfigured);
            },
        };
        let e = &mut self.records[i];
        let expired = e.check_and_expire(now);
        Ok(expired)
    }

    /// Whether the pair's window, after the sweep the caller just ran,
    /// authorizes at `now`: false when the pair is not configured. A pure
    /// read.
    pub fn is_window_valid(&self, owner: u64, contact: u64, now: i64) -> (r: bool)
        requires
            self.wf(),
        ensures
            r == exists|i: int|
                0 <= i < self.records@.len() && emergency_matches(
                    #[trigger] self.records@[i],
                    owner,
                    contact,
                ) && self.records@[i].spec_is_valid(now),
    {
        match self.find_emergency(owner, contact) {
            Some(i) => {
                let v = self.records[i].is_valid(now);
                proof {
                    if !v {
                        assert forall|j: int|
                            0 <= j < self.records@.len() && emergency_matches(
                                #[trigger] self.records@[j],
                                owner,
                                contact,
                            ) implies !self.records@[j].spec_is_valid(now) by {
                            assert(j == i as int);
                        }
                    }
                }
                v
            },
            None => false,
        }
    }
}

} // verus!
