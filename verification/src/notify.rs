//! Audit notifications: one variant per mutating operation of the engine.
//!
//! Every mutating operation owes an external audit collaborator a
//! notification naming the owner, the subject ids, the acting principal
//! and the time. The engine computes state transitions; carrying these
//! values to the collaborator is transport and stays with the caller, who
//! builds the matching notification from the same arguments the operation
//! succeeded with. Notifications are never reprocessed internally.

use vstd::prelude::*;

verus! {

/// A permission grant was created.
#[derive(Clone, Copy, PartialEq, Eq, Structural, Debug)]
pub struct AccessGranted {
    /// Owner of the guarded records.
    pub owner: u64,
    /// Delegate the permissions were granted to.
    pub grantee: u64,
    /// The granted mask.
    pub permissions: u8,
    /// The grant's expiry.
    pub expires_at: i64,
    /// Principal who performed the operation.
    pub actor: u64,
    /// Time of the operation.
    pub timestamp: i64,
}

/// A grant's permission mask was replaced.
#[derive(Clone, Copy, PartialEq, Eq, Structural, Debug)]
pub struct AccessUpdated {
    /// Owner of the guarded records.
    pub owner: u64,
    /// Delegate of the touched grant.
    pub grantee: u64,
    /// The new mask.
    pub permissions: u8,
    /// Principal who performed the operation.
    pub actor: u64,
    /// Time of the operation.
    pub timestamp: i64,
}

/// A grant's expiry was moved.
#[derive(Clone, Copy, PartialEq, Eq, Structural, Debug)]
pub struct AccessExtended {
    /// Owner of the guarded records.
    pub owner: u64,
    /// Delegate of the touched grant.
    pub grantee: u64,
    /// The new expiry.
    pub expires_at: i64,
    /// Principal who performed the operation.
    pub actor: u64,
    /// Time of the operation.
    pub timestamp: i64,
}

/// A grant was revoked and deleted.
#[derive(Clone, Copy, PartialEq, Eq, Structural, Debug)]
pub struct AccessRevoked {
    /// Owner of the guarded records.
    pub owner: u64,
    /// Delegate whose grant was removed.
    pub grantee: u64,
    /// Principal who performed the operation.
    pub actor: u64,
    /// Time of the operation.
    pub timestamp: i64,
}

/// An access decision allowed a principal to touch a record.
#[derive(Clone, Copy, PartialEq, Eq, Structural, Debug)]
pub struct AuthorizedRecordAccess {
    /// Owner of the record.
    pub owner: u64,
    /// The record touched.
    pub record_id: u64,
    /// The principal that was let in.
    pub accessor: u64,
    /// Time of the access.
    pub timestamp: i64,
}

/// Break-glass access was configured for a contact.
#[derive(Clone, Copy, PartialEq, Eq, Structural, Debug)]
pub struct EmergencyAccessConfigured {
    /// Owner of the guarded records.
    pub owner: u64,
    /// The designated contact.
    pub emergency_contact: u64,
    /// Time of the operation.
    pub timestamp: i64,
}

/// An emergency window was opened.
#[derive(Clone, PartialEq, Debug)]
pub struct EmergencyAccessActivated {
    /// Owner of the guarded records.
    pub owner: u64,
    /// The designated contact.
    pub emergency_contact: u64,
    /// Principal who opened the window.
    pub activator: u64,
    /// The stated reason.
    pub reason: Vec<u8>,
    /// Time of the operation.
    pub timestamp: i64,
}

/// An emergency window was closed.
#[derive(Clone, Copy, PartialEq, Eq, Structural, Debug)]
pub struct EmergencyAccessDeactivated {
    /// Owner of the guarded records.
    pub owner: u64,
    /// The designated contact.
    pub emergency_contact: u64,
    /// Principal who closed the window.
    pub deactivator: u64,
    /// Time of the operation.
    pub timestamp: i64,
}

/// A research proposal was opened for voting.
#[derive(Clone, PartialEq, Debug)]
pub struct ResearchProposalCreated {
    /// The new proposal's id.
    pub proposal_id: u64,
    /// The requesting researcher.
    pub researcher: u64,
    /// The proposal's topic.
    pub research_topic: Vec<u8>,
    /// End of the voting window.
    pub expires_at: i64,
    /// Time of the operation.
    pub timestamp: i64,
}

/// A vote was cast on a proposal.
#[derive(Clone, Copy, PartialEq, Eq, Structural, Debug)]
pub struct ResearchVoteCast {
    /// The proposal voted on.
    pub proposal_id: u64,
    /// The voter.
    pub voter: u64,
    /// The choice.
    pub vote: bool,
    /// Time of the operation.
    pub timestamp: i64,
}

/// A proposal was executed and approved.
#[derive(Clone, Copy, PartialEq, Eq, Structural, Debug)]
pub struct ResearchProposalExecuted {
    /// The executed proposal.
    pub proposal_id: u64,
    /// Principal who triggered execution.
    pub executor: u64,
    /// Time of the operation.
    pub timestamp: i64,
}

/// An approved proposal let its researcher read a record.
#[derive(Clone, Copy, PartialEq, Eq, Structural, Debug)]
pub struct ResearchAccessGranted {
    /// The approving proposal.
    pub proposal_id: u64,
    /// The researcher let in.
    pub researcher: u64,
    /// Owner of the data read.
    pub data_owner: u64,
    /// Time of the access.
    pub timestamp: i64,
}

/// A wearable device was registered.
#[derive(Clone, PartialEq, Debug)]
pub struct WearableDeviceRegistered {
    /// Owner of the device.
    pub owner: u64,
    /// The device's identifier.
    pub device_id: Vec<u8>,
    /// The device's type tag.
    pub device_type: Vec<u8>,
    /// Time of the operation.
    pub timestamp: i64,
}

/// A wearable device delivered data.
#[derive(Clone, PartialEq, Debug)]
pub struct WearableDataIngested {
    /// Owner of the device.
    pub owner: u64,
    /// The delivering device.
    pub device_id: Vec<u8>,
    /// Time of the delivery.
    pub timestamp: i64,
}

/// A device's sync state was initialized.
#[derive(Clone, PartialEq, Debug)]
pub struct SyncStateInitialized {
    /// Owner of the device.
    pub owner: u64,
    /// The registered device.
    pub device_id: Vec<u8>,
    /// The state's starting version.
    pub sync_version: u64,
    /// Time of the operation.
    pub timestamp: i64,
}

/// A sync operation was started between two devices.
#[derive(Clone, PartialEq, Debug)]
pub struct SyncOperationStarted {
    /// Owner of both devices.
    pub owner: u64,
    /// Source device of the sync.
    pub source_device: Vec<u8>,
    /// Target device of the sync.
    pub target_device: Vec<u8>,
    /// The operation's type tag.
    pub operation_type: Vec<u8>,
    /// Time of the operation.
    pub timestamp: i64,
}

/// A sync operation completed and both devices converged.
#[derive(Clone, PartialEq, Debug)]
pub struct SyncOperationCompleted {
    /// Owner of both devices.
    pub owner: u64,
    /// Source device of the sync.
    pub source_device: Vec<u8>,
    /// Target device of the sync.
    pub target_device: Vec<u8>,
    /// The source device's version after convergence.
    pub sync_version: u64,
    /// Number of records synced.
    pub records_synced: u64,
    /// Time of the operation.
    pub timestamp: i64,
}

/// A sync operation was marked failed; the devices stayed as they were.
#[derive(Clone, PartialEq, Debug)]
pub struct SyncOperationFailed {
    /// Owner of both devices.
    pub owner: u64,
    /// Source device of the sync.
    pub source_device: Vec<u8>,
    /// Target device of the sync.
    pub target_device: Vec<u8>,
    /// The recorded error text.
    pub error_message: Vec<u8>,
    /// Time of the operation.
    pub timestamp: i64,
}

/// A device's primary flag was flipped.
#[derive(Clone, PartialEq, Debug)]
pub struct SyncPrimaryUpdated {
    /// Owner of the device.
    pub owner: u64,
    /// The touched device.
    pub device_id: Vec<u8>,
    /// The flag's new value.
    pub is_primary: bool,
    /// Time of the operation.
    pub timestamp: i64,
}

} // verus!
