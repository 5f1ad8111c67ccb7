//! Multi-device synchronization with deterministic conflict detection.
//!
//! Each of an owner's devices has a [`SyncState`]: a monotonically growing
//! version, key material, and a state hash fingerprinting its content. A
//! [`SyncOperation`] is one attempted convergence between an ordered device
//! pair; it moves from in-flight to success or failure exactly once, and at
//! most one operation per pair is in flight. Conflict policy is hash
//! equality only: diverged hashes require an explicit conflict-resolution
//! operation, never a silent merge. Completing an operation updates both
//! device states to the same new hash — the convergence step — while a
//! failed operation leaves them untouched for the caller to retry.

use vstd::prelude::*;

use crate::bytes::bytes_eq;
use crate::bytes::copy_bytes;
use crate::bytes::spec_zero_hash;
use crate::bytes::zero_hash;
use crate::errors::AccessError;
use crate::HASH_LENGTH;
use crate::MAX_DEVICE_ID_LENGTH;
use crate::MAX_METADATA_LENGTH;
use crate::MAX_RECORD_TYPE_LENGTH;
use crate::SYNC_KEY_LENGTH;
use crate::valid_time;

verus! {

/// The operation type that may cross diverged hashes: the bytes of
/// `conflict_resolution`.
pub open spec fn conflict_resolution_type() -> Seq<u8> {
    seq![
        99u8, 111u8, 110u8, 102u8, 108u8, 105u8, 99u8, 116u8, 95u8, 114u8, 101u8, 115u8, 111u8,
        108u8, 117u8, 116u8, 105u8, 111u8, 110u8,
    ]
}

/// Build the `conflict_resolution` operation type tag.
pub fn conflict_resolution_op_type() -> (r: Vec<u8>)
    ensures
        r@ == conflict_resolution_type(),
{
    let r: Vec<u8> = vec![
        99u8, 111u8, 110u8, 102u8, 108u8, 105u8, 99u8, 116u8, 95u8, 114u8, 101u8, 115u8, 111u8,
        108u8, 117u8, 116u8, 105u8, 111u8, 110u8,
    ];
    proof {
        assert(r@ =~= conflict_resolution_type());
    }
    r
}

/// The sync record of one (owner, device) pair.
pub struct SyncState {
    /// Owner of the device.
    pub owner: u64,
    /// Device identifier.
    pub device_id: Vec<u8>,
    /// Monotonic sync version, starting at one.
    pub sync_version: u64,
    /// Encrypted key material both ends of a sync must present.
    pub encrypted_sync_key: Vec<u8>,
    /// Content fingerprint used for conflict detection.
    pub state_hash: Vec<u8>,
    /// Time of the last successful sync; zero before the first one.
    pub last_sync_timestamp: i64,
    /// Number of successful syncs.
    pub sync_count: u64,
    /// Whether this device is a primary sync source. Several devices may
    /// carry the flag at once: setting it clears no other device.
    pub is_primary: bool,
    /// Time the record was created.
    pub created_at: i64,
}

impl SyncState {
    /// Structural soundness: capped device id, fixed-size key and hash, a
    /// version of at least one, and non-negative timestamps.
    pub open spec fn wf(self) -> bool {
        &&& self.device_id@.len() <= MAX_DEVICE_ID_LENGTH
        &&& self.encrypted_sync_key@.len() == SYNC_KEY_LENGTH
        &&& self.state_hash@.len() == HASH_LENGTH
        &&& self.sync_version >= 1
        &&& 0 <= self.created_at
        &&& 0 <= self.last_sync_timestamp
    }

    /// Create the record for a device: version one, all-zero hash, zero
    /// counters. Fails exactly when the device id is over its byte cap.
    pub fn new(
        owner: u64,
        device_id: Vec<u8>,
        encrypted_sync_key: Vec<u8>,
        is_primary: bool,
        now: i64,
    ) -> (r: Result<SyncState, AccessError>)
        requires
            valid_time(now),
            encrypted_sync_key@.len() == SYNC_KEY_LENGTH,
        ensures
            match r {
                Ok(s) => {
                    &&& device_id@.len() <= MAX_DEVICE_ID_LENGTH
                    &&& s.owner == owner
                    &&& s.device_id@ == device_id@
                    &&& s.sync_version == 1
                    &&& s.encrypted_sync_key@ == encrypted_sync_key@
                    &&& s.state_hash@ == spec_zero_hash()
                    &&& s.last_sync_timestamp == 0
                    &&& s.sync_count == 0
                    &&& s.is_primary == is_primary
                    &&& s.created_at == now
                    &&& s.wf()
                },
                Err(e) => {
                    &&& e == AccessError::DeviceIdTooLong
                    &&& device_id@.len() > MAX_DEVICE_ID_LENGTH
                },
            },
    {
        if device_id.len() > MAX_DEVICE_ID_LENGTH {
            return Err(AccessError::DeviceIdTooLong);
        }
        Ok(
            SyncState {
                owner,
                device_id,
                sync_version: 1,
                encrypted_sync_key,
                state_hash: zero_hash(),
                last_sync_timestamp: 0,
                sync_count: 0,
                is_primary,
                created_at: now,
            },
        )
    }

    /// Whether `post` is `self` after absorbing a completed sync with hash
    /// `h` at `now`: version and count up by one, the new hash and
    /// timestamp taken, everything else kept.
    pub open spec fn updates_to(self, post: SyncState, h: Seq<u8>, now: i64) -> bool {
        &&& post.owner == self.owner
        &&& post.device_id@ == self.device_id@
        &&& post.sync_version == self.sync_version + 1
        &&& post.encrypted_sync_key@ == self.encrypted_sync_key@
        &&& post.state_hash@ == h
        &&& post.last_sync_timestamp == now
        &&& post.sync_count == self.sync_count + 1
        &&& post.is_primary == self.is_primary
        &&& post.created_at == self.created_at
    }

    /// Absorb a completed sync: take the new hash and timestamp and grow
    /// version and count by one. Fails exactly when a counter is at the
    /// top of its range; the record is untouched on failure.
    pub fn update_sync_state(&mut self, new_state_hash: Vec<u8>, now: i64) -> (r: Result<
        (),
        AccessError,
    >)
        requires
            old(self).wf(),
            valid_time(now),
            new_state_hash@.len() == HASH_LENGTH,
        ensures
            final(self).wf(),
            match r {
                Ok(()) => {
                    &&& old(self).sync_version < u64::MAX
                    &&& old(self).sync_count < u64::MAX
                    &&& old(self).updates_to(*final(self), new_state_hash@, now)
                },
                Err(e) => {
                    &&& e == AccessError::CounterOverflow
                    &&& (old(self).sync_version == u64::MAX || old(self).sync_count == u64::MAX)
                    &&& *final(self) == *old(self)
                },
            },
    {
        if self.sync_version == u64::MAX || self.sync_count == u64::MAX {
            return Err(AccessError::CounterOverflow);
        }
        self.sync_version = self.sync_version + 1;
        self.state_hash = new_state_hash;
        self.last_sync_timestamp = now;
        self.sync_count = self.sync_count + 1;
        Ok(())
    }

    /// Whether the presented key matches this device's stored key.
    pub fn validate_sync_key(&self, provided_key: &Vec<u8>) -> (r: bool)
        ensures
            r == (self.encrypted_sync_key@ == provided_key@),
    {
        bytes_eq(&self.encrypted_sync_key, provided_key)
    }

    /// Divergence test: this device's hash differs from the other's.
    pub open spec fn spec_detect_conflict(self, other_state_hash: Seq<u8>) -> bool {
        self.state_hash@ != other_state_hash
    }

    /// Whether this device's hash differs from `other_state_hash`.
    pub fn detect_conflict(&self, other_state_hash: &Vec<u8>) -> (r: bool)
        ensures
            r == self.spec_detect_conflict(other_state_hash@),
    {
        !bytes_eq(&self.state_hash, other_state_hash)
    }

    /// Flip the primary flag, unconditionally. No other device's flag is
    /// touched: primaries are not mutually exclusive.
    pub fn set_primary(&mut self, is_primary: bool)
        ensures
            final(self).is_primary == is_primary,
            *final(self) == (SyncState { is_primary, ..*old(self) }),
    {
        self.is_primary = is_primary;
    }
}

/// Convergence, stated on its own: two device states that absorb the same
/// completed sync — same hash, same time — end with equal hashes, report
/// no conflict against each other any more, and each carry a version
/// exactly one above its own old one.
pub proof fn lemma_sync_convergence(
    src: SyncState,
    src_after: SyncState,
    tgt: SyncState,
    tgt_after: SyncState,
    h: Seq<u8>,
    now: i64,
)
    requires
        src.updates_to(src_after, h, now),
        tgt.updates_to(tgt_after, h, now),
    ensures
        src_after.state_hash@ == tgt_after.state_hash@,
        !src_after.spec_detect_conflict(tgt_after.state_hash@),
        src_after.sync_version == src.sync_version + 1,
        tgt_after.sync_version == tgt.sync_version + 1,
{
}

/// One attempted convergence between an ordered device pair.
pub struct SyncOperation {
    /// Owner of both devices.
    pub owner: u64,
    /// Source device of the sync.
    pub source_device: Vec<u8>,
    /// Target device of the sync.
    pub target_device: Vec<u8>,
    /// Operation type tag, e.g. `full_sync` or `conflict_resolution`.
    pub operation_type: Vec<u8>,
    /// Source device's version when the operation started.
    pub source_version: u64,
    /// Target device's version when the operation started.
    pub target_version: u64,
    /// Number of records synced; set on success.
    pub records_synced: u64,
    /// Whether the operation completed successfully.
    pub is_successful: bool,
    /// Whether the operation has completed at all, either way.
    pub is_completed: bool,
    /// Error text of a failed operation; empty otherwise.
    pub error_message: Vec<u8>,
    /// Time the operation started.
    pub started_at: i64,
    /// Time the operation completed; zero while in flight.
    pub completed_at: i64,
}

impl SyncOperation {
    /// Structural soundness: capped ids and texts, distinct devices,
    /// non-negative timestamps, and success only on a completed operation.
    pub open spec fn wf(self) -> bool {
        &&& self.source_device@.len() <= MAX_DEVICE_ID_LENGTH
        &&& self.target_device@.len() <= MAX_DEVICE_ID_LENGTH
        &&& self.source_device@ != self.target_device@
        &&& self.operation_type@.len() <= MAX_RECORD_TYPE_LENGTH
        &&& self.error_message@.len() <= MAX_METADATA_LENGTH
        &&& 0 <= self.started_at
        &&& 0 <= self.completed_at
        &&& self.is_successful ==> self.is_completed
    }

    /// Why creating an operation fails, if it does: source id cap, target
    /// id cap, sameness, type tag cap, in that order.
    pub open spec fn spec_new_error(
        source_device: Seq<u8>,
        target_device: Seq<u8>,
        operation_type: Seq<u8>,
    ) -> Option<AccessError> {
        if source_device.len() > MAX_DEVICE_ID_LENGTH {
            Some(AccessError::DeviceIdTooLong)
        } else if target_device.len() > MAX_DEVICE_ID_LENGTH {
            Some(AccessError::DeviceIdTooLong)
        } else if source_device == target_device {
            Some(AccessError::InvalidSyncOperation)
        } else if operation_type.len() > MAX_RECORD_TYPE_LENGTH {
            Some(AccessError::RecordTypeTooLong)
        } else {
            None
        }
    }

    /// Start an operation: in flight, snapshotting both versions. Fails
    /// exactly when a device id or the type tag is over its cap, or source
    /// and target are the same device.
    pub fn new(
        owner: u64,
        source_device: Vec<u8>,
        target_device: Vec<u8>,
        operation_type: Vec<u8>,
        source_version: u64,
        target_version: u64,
        now: i64,
    ) -> (r: Result<SyncOperation, AccessError>)
        requires
            valid_time(now),
        ensures
            match r {
                Ok(o) => {
                    &&& Self::spec_new_error(source_device@, target_device@, operation_type@)
                        is None
                    &&& o.owner == owner
                    &&& o.source_device@ == source_device@
                    &&& o.target_device@ == target_device@
                    &&& o.operation_type@ == operation_type@
                    &&& o.source_version == source_version
                    &&& o.target_version == target_version
                    &&& o.records_synced == 0
                    &&& !o.is_successful
                    &&& !o.is_completed
                    &&& o.error_message@ == Seq::<u8>::empty()
                    &&& o.started_at == now
                    &&& o.completed_at == 0
                    &&& o.wf()
                },
                Err(e) => Some(e) == Self::spec_new_error(
                    source_device@,
                    target_device@,
                    operation_type@,
                ),
            },
    {
        if source_device.len() > MAX_DEVICE_ID_LENGTH {
            return Err(AccessError::DeviceIdTooLong);
        }
        if target_device.len() > MAX_DEVICE_ID_LENGTH {
            return Err(AccessError::DeviceIdTooLong);
        }
        if bytes_eq(&source_device, &target_device) {
            return Err(AccessError::InvalidSyncOperation);
        }
        if operation_type.len() > MAX_RECORD_TYPE_LENGTH {
            return Err(AccessError::RecordTypeTooLong);
        }
        Ok(
            SyncOperation {
                owner,
                source_device,
                target_device,
                operation_type,
                source_version,
                target_version,
                records_synced: 0,
                is_successful: false,
                is_completed: false,
                error_message: Vec::new(),
                started_at: now,
                completed_at: 0,
            },
        )
    }

    /// Whether `post` is `self` marked successfully completed at `now`
    /// with `records_synced` records.
    pub open spec fn completes_to(self, post: SyncOperation, records_synced: u64, now: i64) -> bool {
        &&& post == (SyncOperation {
            records_synced,
            is_successful: true,
            is_completed: true,
            completed_at: now,
            ..self
        })
    }

    /// Whether `post` is `self` marked failed at `now` with error text
    /// `error`.
    pub open spec fn fails_to(self, post: SyncOperation, error: Seq<u8>, now: i64) -> bool {
        &&& post.owner == self.owner
        &&& post.source_device@ == self.source_device@
        &&& post.target_device@ == self.target_device@
        &&& post.operation_type@ == self.operation_type@
        &&& post.source_version == self.source_version
        &&& post.target_version == self.target_version
        &&& post.records_synced == self.records_synced
        &&& !post.is_successful
        &&& post.is_completed
        &&& post.error_message@ == error
        &&& post.started_at == self.started_at
        &&& post.completed_at == now
    }

    /// Mark the operation successfully completed: the success half of the
    /// one start-to-completed transition. Fails exactly when the operation
    /// has already completed; untouched on failure.
    pub fn complete_successfully(&mut self, records_synced: u64, now: i64) -> (r: Result<
        (),
        AccessError,
    >)
        requires
            old(self).wf(),
            valid_time(now),
        ensures
            final(self).wf(),
            match r {
                Ok(()) => {
                    &&& !old(self).is_completed
                    &&& old(self).completes_to(*final(self), records_synced, now)
                },
                Err(e) => {
                    &&& e == AccessError::InvalidSyncOperation
                    &&& old(self).is_completed
                    &&& *final(self) == *old(self)
                },
            },
    {
        if self.is_completed {
            return Err(AccessError::InvalidSyncOperation);
        }
        self.records_synced = records_synced;
        self.is_successful = true;
        self.is_completed = true;
        self.completed_at = now;
        Ok(())
    }

    /// Why marking the operation failed does not go through, if it does
    /// not: already completed first, then the error text's cap.
    pub open spec fn spec_fail_error(self, error: Seq<u8>) -> Option<AccessError> {
        if self.is_completed {
            Some(AccessError::InvalidSyncOperation)
        } else if error.len() > MAX_METADATA_LENGTH {
            Some(AccessError::MetadataTooLong)
        } else {
            None
        }
    }

    /// Mark the operation failed: the failure half of the one
    /// start-to-completed transition. Fails exactly when the operation has
    /// already completed or the error text is over its cap; untouched on
    /// failure.
    pub fn complete_with_error(&mut self, error_message: Vec<u8>, now: i64) -> (r: Result<
        (),
        AccessError,
    >)
        requires
            old(self).wf(),
            valid_time(now),
        ensures
            final(self).wf(),
            match r {
                Ok(()) => {
                    &&& old(self).spec_fail_error(error_message@) is None
                    &&& old(self).fails_to(*final(self), error_message@, now)
                },
                Err(e) => {
                    &&& Some(e) == old(self).spec_fail_error(error_message@)
                    &&& *final(self) == *old(self)
                },
            },
    {
        if self.is_completed {
            return Err(AccessError::InvalidSyncOperation);
        }
        if error_message.len() > MAX_METADATA_LENGTH {
            return Err(AccessError::MetadataTooLong);
        }
        self.is_successful = false;
        self.is_completed = true;
        self.error_message = error_message;
        self.completed_at = now;
        Ok(())
    }
}

/// Whether `s` is the state of the (owner, device) pair.
pub open spec fn state_matches(s: SyncState, owner: u64, device: Seq<u8>) -> bool {
    s.owner == owner && s.device_id@ == device
}

/// Whether some state for the pair is stored in `states`.
pub open spec fn has_state(states: Seq<SyncState>, owner: u64, device: Seq<u8>) -> bool {
    exists|i: int| 0 <= i < states.len() && state_matches(states[i], owner, device)
}

/// Whether `o` is the operation of the ordered (owner, source, target)
/// triple.
pub open spec fn op_matches(o: SyncOperation, owner: u64, source: Seq<u8>, target: Seq<u8>) -> bool {
    o.owner == owner && o.source_device@ == source && o.target_device@ == target
}

/// Whether some operation for the triple is stored in `ops`.
pub open spec fn has_operation(
    ops: Seq<SyncOperation>,
    owner: u64,
    source: Seq<u8>,
    target: Seq<u8>,
) -> bool {
    exists|i: int| 0 <= i < ops.len() && op_matches(ops[i], owner, source, target)
}

/// Whether the triple's stored operation is still in flight.
pub open spec fn has_pending_operation(
    ops: Seq<SyncOperation>,
    owner: u64,
    source: Seq<u8>,
    target: Seq<u8>,
) -> bool {
    exists|i: int|
        0 <= i < ops.len() && op_matches(ops[i], owner, source, target) && !ops[i].is_completed
}

/// The coordinator of an owner's device fleet: per-device states keyed by
/// (owner, device) and per-pair operations keyed by the ordered device
/// pair, at most one of each, every operation's endpoints backed by stored
/// states.
pub struct DeviceSyncCoordinator {
    /// The stored device states, unique by (owner, device id).
    pub states: Vec<SyncState>,
    /// The stored operations, unique by (owner, source, target).
    pub operations: Vec<SyncOperation>,
}

impl DeviceSyncCoordinator {
    /// Structural soundness of the whole coordinator.
    pub open spec fn wf(self) -> bool {
        &&& forall|i: int| 0 <= i < self.states@.len() ==> (#[trigger] self.states@[i]).wf()
        &&& forall|i: int, j: int|
            #![trigger self.states@[i], self.states@[j]]
            0 <= i < self.states@.len() && 0 <= j < self.states@.len() && state_matches(
                self.states@[i],
                self.states@[j].owner,
                self.states@[j].device_id@,
            ) ==> i == j
        &&& forall|i: int| 0 <= i < self.operations@.len() ==> (#[trigger] self.operations@[i]).wf()
        &&& forall|i: int, j: int|
            #![trigger self.operations@[i], self.operations@[j]]
            0 <= i < self.operations@.len() && 0 <= j < self.operations@.len() && op_matches(
                self.operations@[i],
                self.operations@[j].owner,
                self.operations@[j].source_device@,
                self.operations@[j].target_device@,
            ) ==> i == j
        &&& forall|i: int|
            0 <= i < self.operations@.len() ==> has_state(
                self.states@,
                (#[trigger] self.operations@[i]).owner,
                self.operations@[i].source_device@,
            ) && has_state(self.states@, self.operations@[i].owner, self.operations@[i].target_device@)
    }

    /// An empty coordinator.
    pub fn new() -> (c: DeviceSyncCoordinator)
        ensures
            c.wf(),
            c.states@.len() == 0,
            c.operations@.len() == 0,
    {
        DeviceSyncCoordinator { states: Vec::new(), operations: Vec::new() }
    }

    /// Index of the (owner, device) pair's state, if one is stored.
    pub fn find_state(&self, owner: u64, device: &Vec<u8>) -> (r: Option<usize>)
        ensures
            match r {
                Some(i) => i < self.states@.len() && state_matches(
                    self.states@[i as int],
                    owner,
                    device@,
                ),
                None => !has_state(self.states@, owner, device@),
            },
    {
        let n = self.states.len();
        let mut i: usize = 0;
        while i < n
            invariant
                n == self.states@.len(),
                i <= n,
                forall|j: int| 0 <= j < i ==> !state_matches(self.states@[j], owner, device@),
            decreases n - i,
        {
            if self.states[i].owner == owner && bytes_eq(&self.states[i].device_id, device) {
                return Some(i);
            }
            i = i + 1;
        }
        None
    }

    /// Index of the ordered triple's operation, if one is stored.
    pub fn find_operation(&self, owner: u64, source: &Vec<u8>, target: &Vec<u8>) -> (r: Option<
        usize,
    >)
        ensures
            match r {
                Some(i) => i < self.operations@.len() && op_matches(
                    self.operations@[i as int],
                    owner,
                    source@,
                    target@,
                ),
                None => !has_operation(self.operations@, owner, source@, target@),
            },
    {
        let n = self.operations.len();
        let mut i: usize = 0;
        while i < n
            invariant
                n == self.operations@.len(),
                i <= n,
                forall|j: int|
                    0 <= j < i ==> !op_matches(self.operations@[j], owner, source@, target@),
            decreases n - i,
        {
            if self.operations[i].owner == owner && bytes_eq(
                &self.operations[i].source_device,
                source,
            ) && bytes_eq(&self.operations[i].target_device, target) {
                return Some(i);
            }
            i = i + 1;
        }
        None
    }

    /// Register a device: its state starts at version one with the
    /// all-zero hash. Fails exactly when the pair already has a state or
    /// the device id is over its cap; operations and other devices are
    /// undisturbed.
    pub fn initialize_sync_state(
        &mut self,
        owner: u64,
        device_id: Vec<u8>,
        encrypted_sync_key: Vec<u8>,
        is_primary: bool,
        now: i64,
    ) -> (r: Result<(), AccessError>)
        requires
            old(self).wf(),
            valid_time(now),
            encrypted_sync_key@.len() == SYNC_KEY_LENGTH,
        ensures
            final(self).wf(),
            final(self).operations@ == old(self).operations@,
            match r {
                Ok(()) => {
                    &&& !has_state(old(self).states@, owner, device_id@)
                    &&& device_id@.len() <= MAX_DEVICE_ID_LENGTH
                    &&& final(self).states@.len() == old(self).states@.len() + 1
                    &&& (forall|j: int|
                        0 <= j < old(self).states@.len() ==> final(self).states@[j] == old(
                            self,
                        ).states@[j])
                    &&& {
                        let s = final(self).states@.last();
                        &&& state_matches(s, owner, device_id@)
                        &&& s.sync_version == 1
                        &&& s.encrypted_sync_key@ == encrypted_sync_key@
                        &&& s.state_hash@ == spec_zero_hash()
                        &&& s.last_sync_timestamp == 0
                        &&& s.sync_count == 0
                        &&& s.is_primary == is_primary
                        &&& s.created_at == now
                    }
                    &&& has_state(final(self).states@, owner, device_id@)
                },
                Err(e) => {
                    &&& final(self).states@ == old(self).states@
                    &&& if has_state(old(self).states@, owner, device_id@) {
                        e == AccessError::SyncStateAlreadyExists
                    } else {
                        e == AccessError::DeviceIdTooLong && device_id@.len()
                            > MAX_DEVICE_ID_LENGTH
                    }
                },
            },
    {
        if self.find_state(owner, &device_id).is_some() {
            return Err(AccessError::SyncStateAlreadyExists);
        }
        let state = match SyncState::new(owner, device_id, encrypted_sync_key, is_primary, now) {
            Ok(s) => s,
            Err(e) => {
                return Err(e);
            },
        };
        let ghost device = state.device_id@;
        self.states.push(state);
        proof {
            let ss = self.states@;
            let olds = old(self).states@;
            assert forall|i: int, j: int|
                #![trigger ss[i], ss[j]]
                0 <= i < ss.len() && 0 <= j < ss.len() && state_matches(
                    ss[i],
                    ss[j].owner,
                    ss[j].device_id@,
                ) implies i == j by {
                if i == olds.len() && j < olds.len() {
                    assert(state_matches(olds[j], owner, device));
                } else if j == olds.len() && i < olds.len() {
                    assert(state_matches(olds[i], owner, device));
                }
            }
            assert forall|i: int|
                0 <= i < self.operations@.len() implies has_state(
                ss,
                (#[trigger] self.operations@[i]).owner,
                self.operations@[i].source_device@,
            ) && has_state(ss, self.operations@[i].owner, self.operations@[i].target_device@) by {
                let o = self.operations@[i];
                let m = choose|m: int|
                    0 <= m < olds.len() && state_matches(olds[m], o.owner, o.source_device@);
                assert(state_matches(ss[m], o.owner, o.source_device@));
                let k = choose|k: int|
                    0 <= k < olds.len() && state_matches(olds[k], o.owner, o.target_device@);
                assert(state_matches(ss[k], o.owner, o.target_device@));
            }
            assert(state_matches(ss[ss.len() - 1], owner, device));
        }
        Ok(())
    }

    /// Why starting an operation between two found device states fails, if
    /// it does: source key mismatch, target key mismatch, an operation for
    /// the pair still in flight, unresolved divergence, type tag over its
    /// cap, in that order.
    pub open spec fn spec_start_error(
        source_state: SyncState,
        target_state: SyncState,
        pending: bool,
        operation_type: Seq<u8>,
        sync_key: Seq<u8>,
    ) -> Option<AccessError> {
        if source_state.encrypted_sync_key@ != sync_key {
            Some(AccessError::SyncKeyMismatch)
        } else if target_state.encrypted_sync_key@ != sync_key {
            Some(AccessError::SyncKeyMismatch)
        } else if pending {
            Some(AccessError::SyncOperationInFlight)
        } else if source_state.spec_detect_conflict(target_state.state_hash@) && operation_type
            != conflict_resolution_type() {
            Some(AccessError::SyncConflict)
        } else if operation_type.len() > MAX_RECORD_TYPE_LENGTH {
            Some(AccessError::RecordTypeTooLong)
        } else {
            None
        }
    }

    /// Whether `o` is a freshly started operation for the triple: in
    /// flight, zero records, empty error, snapshotting the two versions.
    pub open spec fn fresh_operation(
        o: SyncOperation,
        owner: u64,
        source: Seq<u8>,
        target: Seq<u8>,
        operation_type: Seq<u8>,
        source_version: u64,
        target_version: u64,
        now: i64,
    ) -> bool {
        &&& op_matches(o, owner, source, target)
        &&& o.operation_type@ == operation_type
        &&& o.source_version == source_version
        &&& o.target_version == target_version
        &&& o.records_synced == 0
        &&& !o.is_successful
        &&& !o.is_completed
        &&& o.error_message@ == Seq::<u8>::empty()
        &&& o.started_at == now
        &&& o.completed_at == 0
    }

    /// Start a sync between two of an owner's devices. The presented key
    /// must match both stored keys; diverged hashes require the
    /// conflict-resolution type; at most one operation per ordered pair is
    /// in flight, and a completed operation for the pair is replaced by
    /// the new one. Fails exactly when the devices are the same, a state
    /// is missing, or the start checks refuse; device states are never
    /// touched, and on success the pair's operation is the fresh in-flight
    /// record snapshotting both versions while all other operations are
    /// undisturbed.
    pub fn start_sync_operation(
        &mut self,
        owner: u64,
        source_device: &Vec<u8>,
        target_device: &Vec<u8>,
        operation_type: Vec<u8>,
        sync_key: &Vec<u8>,
        now: i64,
    ) -> (r: Result<(), AccessError>)
        requires
            old(self).wf(),
            valid_time(now),
        ensures
            final(self).wf(),
            final(self).states@ == old(self).states@,
            match r {
                Ok(()) => exists|si: int, ti: int|
                    {
                        &&& 0 <= si < old(self).states@.len()
                        &&& 0 <= ti < old(self).states@.len()
                        &&& state_matches(#[trigger] old(self).states@[si], owner, source_device@)
                        &&& state_matches(#[trigger] old(self).states@[ti], owner, target_device@)
                        &&& Self::spec_start_error(
                            old(self).states@[si],
                            old(self).states@[ti],
                            has_pending_operation(
                                old(self).operations@,
                                owner,
                                source_device@,
                                target_device@,
                            ),
                            operation_type@,
                            sync_key@,
                        ) is None
                        &&& (forall|k: int|
                            0 <= k < final(self).operations@.len() && op_matches(
                                #[trigger] final(self).operations@[k],
                                owner,
                                source_device@,
                                target_device@,
                            ) ==> Self::fresh_operation(
                                final(self).operations@[k],
                                owner,
                                source_device@,
                                target_device@,
                                operation_type@,
                                old(self).states@[si].sync_version,
                                old(self).states@[ti].sync_version,
                                now,
                            ))
                        &&& has_operation(
                            final(self).operations@,
                            owner,
                            source_device@,
                            target_device@,
                        )
                        &&& if has_operation(
                            old(self).operations@,
                            owner,
                            source_device@,
                            target_device@,
                        ) {
                            final(self).operations@.len() == old(self).operations@.len()
                                && (forall|k: int|
                                0 <= k < old(self).operations@.len() && !op_matches(
                                    #[trigger] old(self).operations@[k],
                                    owner,
                                    source_device@,
                                    target_device@,
                                ) ==> final(self).operations@[k] == old(self).operations@[k])
                        } else {
                            final(self).operations@.len() == old(self).operations@.len() + 1
                                && (forall|k: int|
                                0 <= k < old(self).operations@.len() ==> final(self).operations@[k]
                                    == old(self).operations@[k])
                        }
                    },
                Err(e) => {
                    &&& final(self).operations@ == old(self).operations@
                    &&& if source_device@ == target_device@ {
                        e == AccessError::InvalidSyncOperation
                    } else if !has_state(old(self).states@, owner, source_device@) || !has_state(
                        old(self).states@,
                        owner,
                        target_device@,
                    ) {
                        e == AccessError::SyncStateNotFound
                    } else {
                        exists|si: int, ti: int|
                            {
                                &&& 0 <= si < old(self).states@.len()
                                &&& 0 <= ti < old(self).states@.len()
                                &&& state_matches(
                                    #[trigger] old(self).states@[si],
                                    owner,
                                    source_device@,
                                )
                                &&& state_matches(
                                    #[trigger] old(self).states@[ti],
                                    owner,
                                    target_device@,
                                )
                                &&& Some(e) == Self::spec_start_error(
                                    old(self).states@[si],
                                    old(self).states@[ti],
                                    has_pending_operation(
                                        old(self).operations@,
                                        owner,
                                        source_device@,
                                        target_device@,
                                    ),
                                    operation_type@,
                                    sync_key@,
                                )
                            }
                    }
                },
            },
    {
        if bytes_eq(source_device, target_device) {
            return Err(AccessError::InvalidSyncOperation);
        }
        let si = match self.find_state(owner, source_device) {
            Some(i) => i,
            None => {
                return Err(AccessError::SyncStateNotFound);
            },
        };
        let ti = match self.find_state(owner, target_device) {
            Some(i) => i,
            None => {
                return Err(AccessError::SyncStateNotFound);
            },
        };
        if !self.states[si].validate_sync_key(sync_key) {
            return Err(AccessError::SyncKeyMismatch);
        }
        if !self.states[ti].validate_sync_key(sync_key) {
            return Err(AccessError::SyncKeyMismatch);
        }
        let existing = self.find_operation(owner, source_device, target_device);
        match existing {
            Some(k) => {
                if !self.operations[k].is_completed {
                    proof {
                        assert(has_pending_operation(
                            self.operations@,
                            owner,
                            source_device@,
                            target_device@,
                        ));
                    }
                    return Err(AccessError::SyncOperationInFlight);
                }
            },
            None => {},
        }
        proof {
            if has_pending_operation(self.operations@, owner, source_device@, target_device@) {
                let k0 = choose|k0: int|
                    0 <= k0 < self.operations@.len() && op_matches(
                        self.operations@[k0],
                        owner,
                        source_device@,
                        target_device@,
                    ) && !self.operations@[k0].is_completed;
                assert(has_operation(self.operations@, owner, source_device@, target_device@));
            }
        }
        let resolution = conflict_resolution_op_type();
        if self.states[si].detect_conflict(&self.states[ti].state_hash) && !bytes_eq(
            &operation_type,
            &resolution,
        ) {
            return Err(AccessError::SyncConflict);
        }
        let op = match SyncOperation::new(
            owner,
            copy_bytes(source_device),
            copy_bytes(target_device),
            operation_type,
            self.states[si].sync_version,
            self.states[ti].sync_version,
            now,
        ) {
            Ok(o) => o,
            Err(e) => {
                proof {
                    assert(source_device@.len() <= MAX_DEVICE_ID_LENGTH);
                    assert(target_device@.len() <= MAX_DEVICE_ID_LENGTH);
                    assert(e == AccessError::RecordTypeTooLong);
                }
                return Err(e);
            },
        };
        match existing {
            Some(k) => {
                self.operations[k] = op;
                proof {
                    let os = self.operations@;
                    let olds = old(self).operations@;
                    assert forall|a: int, b: int|
                        #![trigger os[a], os[b]]
                        0 <= a < os.len() && 0 <= b < os.len() && op_matches(
                            os[a],
                            os[b].owner,
                            os[b].source_device@,
                            os[b].target_device@,
                        ) implies a == b by {
                        if a != k as int && b != k as int {
                            assert(os[a] == olds[a]);
                            assert(os[b] == olds[b]);
                        } else if a == k as int && b != k as int {
                            assert(os[b] == olds[b]);
                            assert(op_matches(olds[b], owner, source_device@, target_device@));
                        } else if b == k as int && a != k as int {
                            assert(os[a] == olds[a]);
                            assert(op_matches(olds[a], owner, source_device@, target_device@));
                        }
                    }
                    assert forall|i: int|
                        0 <= i < os.len() implies has_state(
                        self.states@,
                        (#[trigger] os[i]).owner,
                        os[i].source_device@,
                    ) && has_state(self.states@, os[i].owner, os[i].target_device@) by {
                        if i != k as int {
                            assert(os[i] == olds[i]);
                        } else {
                            assert(state_matches(self.states@[si as int], owner, source_device@));
                            assert(state_matches(self.states@[ti as int], owner, target_device@));
                        }
                    }
                    assert(op_matches(os[k as int], owner, source_device@, target_device@));
                }
            },
            None => {
                self.operations.push(op);
                proof {
                    let os = self.operations@;
                    let olds = old(self).operations@;
                    assert forall|a: int, b: int|
                        #![trigger os[a], os[b]]
                        0 <= a < os.len() && 0 <= b < os.len() && op_matches(
                            os[a],
                            os[b].owner,
                            os[b].source_device@,
                            os[b].target_device@,
                        ) implies a == b by {
                        if a == olds.len() && b < olds.len() {
                            assert(op_matches(olds[b], owner, source_device@, target_device@));
                        } else if b == olds.len() && a < olds.len() {
                            assert(op_matches(olds[a], owner, source_device@, target_device@));
                        }
                    }
                    assert forall|i: int|
                        0 <= i < os.len() implies has_state(
                        self.states@,
                        (#[trigger] os[i]).owner,
                        os[i].source_device@,
                    ) && has_state(self.states@, os[i].owner, os[i].target_device@) by {
                        if i < olds.len() {
                            assert(os[i] == olds[i]);
                        } else {
                            assert(state_matches(self.states@[si as int], owner, source_device@));
                            assert(state_matches(self.states@[ti as int], owner, target_device@));
                        }
                    }
                    assert(op_matches(os[os.len() - 1], owner, source_device@, target_device@));
                }
            },
        }
        Ok(())
    }
    /// Why completing the triple's found, in-flight operation fails, if it
    /// does: an operation that already completed, then a device counter at
    /// the top of its range.
    pub open spec fn spec_complete_error(
        op: SyncOperation,
        source_state: SyncState,
        target_state: SyncState,
    ) -> Option<AccessError> {
        if op.is_completed {
            Some(AccessError::InvalidSyncOperation)
        } else if source_state.sync_version == u64::MAX || source_state.sync_count == u64::MAX
            || target_state.sync_version == u64::MAX || target_state.sync_count == u64::MAX {
            Some(AccessError::CounterOverflow)
        } else {
            None
        }
    }

    /// Complete the pair's operation successfully and converge both device
    /// states: the operation takes the record count and completion time,
    /// and source and target each take the new hash, the sync time, and a
    /// version and count one higher — the step that resolves any prior
    /// divergence by construction. Fails exactly when the operation is
    /// missing, already completed, or a counter is at the top of its
    /// range; nothing changes on failure, and no other operation or device
    /// is ever touched.
    pub fn complete_sync_operation(
        &mut self,
        owner: u64,
        source_device: &Vec<u8>,
        target_device: &Vec<u8>,
        records_synced: u64,
        new_state_hash: Vec<u8>,
        now: i64,
    ) -> (r: Result<(), AccessError>)
        requires
            old(self).wf(),
            valid_time(now),
            new_state_hash@.len() == HASH_LENGTH,
        ensures
            final(self).wf(),
            match r {
                Ok(()) => exists|k: int, si: int, ti: int|
                    {
                        &&& 0 <= k < old(self).operations@.len()
                        &&& op_matches(
                            #[trigger] old(self).operations@[k],
                            owner,
                            source_device@,
                            target_device@,
                        )
                        &&& 0 <= si < old(self).states@.len()
                        &&& 0 <= ti < old(self).states@.len()
                        &&& si != ti
                        &&& state_matches(#[trigger] old(self).states@[si], owner, source_device@)
                        &&& state_matches(#[trigger] old(self).states@[ti], owner, target_device@)
                        &&& Self::spec_complete_error(
                            old(self).operations@[k],
                            old(self).states@[si],
                            old(self).states@[ti],
                        ) is None
                        &&& final(self).operations@.len() == old(self).operations@.len()
                        &&& (forall|j: int|
                            0 <= j < old(self).operations@.len() && j != k ==> final(self).operations@[j]
                                == old(self).operations@[j])
                        &&& old(self).operations@[k].completes_to(
                            final(self).operations@[k],
                            records_synced,
                            now,
                        )
                        &&& final(self).states@.len() == old(self).states@.len()
                        &&& (forall|j: int|
                            0 <= j < old(self).states@.len() && j != si && j != ti ==> final(self).states@[j]
                                == old(self).states@[j])
                        &&& old(self).states@[si].updates_to(
                            final(self).states@[si],
                            new_state_hash@,
                            now,
                        )
                        &&& old(self).states@[ti].updates_to(
                            final(self).states@[ti],
                            new_state_hash@,
                            now,
                        )
                    },
                Err(e) => {
                    &&& final(self).operations@ == old(self).operations@
                    &&& final(self).states@ == old(self).states@
                    &&& if !has_operation(
                        old(self).operations@,
                        owner,
                        source_device@,
                        target_device@,
                    ) {
                        e == AccessError::SyncOperationNotFound
                    } else {
                        exists|k: int, si: int, ti: int|
                            {
                                &&& 0 <= k < old(self).operations@.len()
                                &&& op_matches(
                                    #[trigger] old(self).operations@[k],
                                    owner,
                                    source_device@,
                                    target_device@,
                                )
                                &&& 0 <= si < old(self).states@.len()
                                &&& 0 <= ti < old(self).states@.len()
                                &&& state_matches(
                                    #[trigger] old(self).states@[si],
                                    owner,
                                    source_device@,
                                )
                                &&& state_matches(
                                    #[trigger] old(self).states@[ti],
                                    owner,
                                    target_device@,
                                )
                                &&& Some(e) == Self::spec_complete_error(
                                    old(self).operations@[k],
                                    old(self).states@[si],
                                    old(self).states@[ti],
                                )
                            }
                    }
                },
            },
    {
        let k = match self.find_operation(owner, source_device, target_device) {
            Some(k) => k,
            None => {
                return Err(AccessError::SyncOperationNotFound);
            },
        };
        let si = match self.find_state(owner, source_device) {
            Some(i) => i,
            None => {
                proof {
                    assert(false);
                }
                return Err(AccessError::SyncStateNotFound);
            },
        };
        let ti = match self.find_state(owner, target_device) {
            Some(i) => i,
            None => {
                proof {
                    assert(false);
                }
                return Err(AccessError::SyncStateNotFound);
            },
        };
        proof {
            assert(si != ti);
        }
        if self.operations[k].is_completed {
            return Err(AccessError::InvalidSyncOperation);
        }
        if self.states[si].sync_version == u64::MAX || self.states[si].sync_count == u64::MAX
            || self.states[ti].sync_version == u64::MAX || self.states[ti].sync_count
            == u64::MAX {
            return Err(AccessError::CounterOverflow);
        }
        let o = &mut self.operations[k];
        match o.complete_successfully(records_synced, now) {
            Ok(()) => {},
            Err(_) => {
                proof {
                    assert(false);
                }
            },
        }
        let target_hash = copy_bytes(&new_state_hash);
        let s = &mut self.states[si];
        match s.update_sync_state(new_state_hash, now) {
            Ok(()) => {},
            Err(_) => {
                proof {
                    assert(false);
                }
            },
        }
        let t = &mut self.states[ti];
        match t.update_sync_state(target_hash, now) {
            Ok(()) => {},
            Err(_) => {
                proof {
                    assert(false);
                }
            },
        }
        proof {
            let os = self.operations@;
            let olds = old(self).operations@;
            let ss = self.states@;
            let oldss = old(self).states@;
            assert forall|j: int| 0 <= j < ss.len() implies ((#[trigger] ss[j]).owner
                == oldss[j].owner && ss[j].device_id@ == oldss[j].device_id@ && ss[j].wf()) by {
                if j != si as int && j != ti as int {
                    assert(ss[j] == oldss[j]);
                }
            }
            assert forall|a: int, b: int|
                #![trigger ss[a], ss[b]]
                0 <= a < ss.len() && 0 <= b < ss.len() && state_matches(
                    ss[a],
                    ss[b].owner,
                    ss[b].device_id@,
                ) implies a == b by {
                assert(state_matches(oldss[a], oldss[b].owner, oldss[b].device_id@));
            }
            assert forall|j: int| 0 <= j < os.len() implies ((#[trigger] os[j]).owner
                == olds[j].owner && os[j].source_device@ == olds[j].source_device@
                && os[j].target_device@ == olds[j].target_device@ && os[j].wf()) by {
                if j != k as int {
                    assert(os[j] == olds[j]);
                }
            }
            assert forall|a: int, b: int|
                #![trigger os[a], os[b]]
                0 <= a < os.len() && 0 <= b < os.len() && op_matches(
                    os[a],
                    os[b].owner,
                    os[b].source_device@,
                    os[b].target_device@,
                ) implies a == b by {
                assert(op_matches(olds[a], olds[b].owner, olds[b].source_device@, olds[b].target_device@));
            }
            assert forall|j: int|
                0 <= j < os.len() implies has_state(
                ss,
                (#[trigger] os[j]).owner,
                os[j].source_device@,
            ) && has_state(ss, os[j].owner, os[j].target_device@) by {
                let m = choose|m: int|
                    0 <= m < oldss.len() && state_matches(oldss[m], olds[j].owner, olds[j].source_device@);
                assert(state_matches(ss[m], os[j].owner, os[j].source_device@));
                let w = choose|w: int|
                    0 <= w < oldss.len() && state_matches(oldss[w], olds[j].owner, olds[j].target_device@);
                assert(state_matches(ss[w], os[j].owner, os[j].target_device@));
            }
        }
        Ok(())
    }

    /// Mark the pair's operation failed with an error text, leaving both
    /// device states untouched — they stay diverged and the caller must
    /// retry with a fresh operation. Fails exactly when the operation is
    /// missing, already completed, or the text is over its cap; nothing
    /// changes on failure and no other operation is ever touched.
    pub fn fail_sync_operation(
        &mut self,
        owner: u64,
        source_device: &Vec<u8>,
        target_device: &Vec<u8>,
        error_message: Vec<u8>,
        now: i64,
    ) -> (r: Result<(), AccessError>)
        requires
            old(self).wf(),
            valid_time(now),
        ensures
            final(self).wf(),
            final(self).states@ == old(self).states@,
            match r {
                Ok(()) => exists|k: int|
                    {
                        &&& 0 <= k < old(self).operations@.len()
                        &&& op_matches(
                            #[trigger] old(self).operations@[k],
                            owner,
                            source_device@,
                            target_device@,
                        )
                        &&& old(self).operations@[k].spec_fail_error(error_message@) is None
                        &&& final(self).operations@.len() == old(self).operations@.len()
                        &&& (forall|j: int|
                            0 <= j < old(self).operations@.len() && j != k ==> final(self).operations@[j]
                                == old(self).operations@[j])
                        &&& old(self).operations@[k].fails_to(
                            final(self).operations@[k],
                            error_message@,
                            now,
                        )
                    },
                Err(e) => {
                    &&& final(self).operations@ == old(self).operations@
                    &&& if !has_operation(
                        old(self).operations@,
                        owner,
                        source_device@,
                        target_device@,
                    ) {
                        e == AccessError::SyncOperationNotFound
                    } else {
                        exists|k: int|
                            0 <= k < old(self).operations@.len() && op_matches(
                                #[trigger] old(self).operations@[k],
                                owner,
                                source_device@,
                                target_device@,
                            ) && Some(e) == old(self).operations@[k].spec_fail_error(
                                error_message@,
                            )
                    }
                },
            },
    {
        let k = match self.find_operation(owner, source_device, target_device) {
            Some(k) => k,
            None => {
                return Err(AccessError::SyncOperationNotFound);
            },
        };
        let o = &mut self.operations[k];
        let r = o.complete_with_error(error_message, now);
        proof {
            let os = self.operations@;
            let olds = old(self).operations@;
            assert forall|j: int| 0 <= j < os.len() implies ((#[trigger] os[j]).owner
                == olds[j].owner && os[j].source_device@ == olds[j].source_device@
                && os[j].target_device@ == olds[j].target_device@ && os[j].wf()) by {
                if j != k as int {
                    assert(os[j] == olds[j]);
                }
            }
            assert forall|a: int, b: int|
                #![trigger os[a], os[b]]
                0 <= a < os.len() && 0 <= b < os.len() && op_matches(
                    os[a],
                    os[b].owner,
                    os[b].source_device@,
                    os[b].target_device@,
                ) implies a == b by {
                assert(op_matches(olds[a], olds[b].owner, olds[b].source_device@, olds[b].target_device@));
            }
            assert forall|j: int|
                0 <= j < os.len() implies has_state(
                self.states@,
                (#[trigger] os[j]).owner,
                os[j].source_device@,
            ) && has_state(self.states@, os[j].owner, os[j].target_device@) by {
                assert(has_state(self.states@, olds[j].owner, olds[j].source_device@));
                assert(has_state(self.states@, olds[j].owner, olds[j].target_device@));
            }
            if r is Err {
                assert(os =~= olds);
            }
        }
        r
    }

    /// Flip the primary flag of the (owner, device) pair's state,
    /// unconditionally; no other device's flag changes, so several devices
    /// may be primary at once. Fails exactly when the pair has no state;
    /// operations are never touched.
    pub fn update_sync_primary(&mut self, owner: u64, device_id: &Vec<u8>, is_primary: bool) -> (r:
        Result<(), AccessError>)
        requires
            old(self).wf(),
        ensures
            final(self).wf(),
            final(self).operations@ == old(self).operations@,
            match r {
                Ok(()) => exists|i: int|
                    {
                        &&& 0 <= i < old(self).states@.len()
                        &&& state_matches(#[trigger] old(self).states@[i], owner, device_id@)
                        &&& final(self).states@.len() == old(self).states@.len()
                        &&& (forall|j: int|
                            0 <= j < old(self).states@.len() && j != i ==> final(self).states@[j]
                                == old(self).states@[j])
                        &&& final(self).states@[i] == (SyncState {
                            is_primary,
                            ..old(self).states@[i]
                        })
                    },
                Err(e) => {
                    &&& e == AccessError::SyncStateNotFound
                    &&& !has_state(old(self).states@, owner, device_id@)
                    &&& final(self).states@ == old(self).states@
                },
            },
    {
        let i = match self.find_state(owner, device_id) {
            Some(i) => i,
            None => {
                return Err(AccessError::SyncStateNotFound);
            },
        };
        let s = &mut self.states[i];
        s.set_primary(is_primary);
        proof {
            let ss = self.states@;
            let oldss = old(self).states@;
            assert forall|j: int| 0 <= j < ss.len() implies ((#[trigger] ss[j]).owner
                == oldss[j].owner && ss[j].device_id@ == oldss[j].device_id@ && ss[j].wf()) by {
                if j != i as int {
                    assert(ss[j] == oldss[j]);
                }
            }
            assert forall|a: int, b: int|
                #![trigger ss[a], ss[b]]
                0 <= a < ss.len() && 0 <= b < ss.len() && state_matches(
                    ss[a],
                    ss[b].owner,
                    ss[b].device_id@,
                ) implies a == b by {
                assert(state_matches(oldss[a], oldss[b].owner, oldss[b].device_id@));
            }
            assert forall|j: int|
                0 <= j < self.operations@.len() implies has_state(
                ss,
                (#[trigger] self.operations@[j]).owner,
                self.operations@[j].source_device@,
            ) && has_state(ss, self.operations@[j].owner, self.operations@[j].target_device@) by {
                let o = self.operations@[j];
                let m = choose|m: int|
                    0 <= m < oldss.len() && state_matches(oldss[m], o.owner, o.source_device@);
                assert(state_matches(ss[m], o.owner, o.source_device@));
                let w = choose|w: int|
                    0 <= w < oldss.len() && state_matches(oldss[w], o.owner, o.target_device@);
                assert(state_matches(ss[w], o.owner, o.target_device@));
            }
        }
        Ok(())
    }
}

} // verus!
