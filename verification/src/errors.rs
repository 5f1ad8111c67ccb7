//! The error taxonomy shared by every component.
//!
//! Each variant names one exact failure; [`ErrorCategory`] sorts them into
//! the four families the engine distinguishes: an actor lacking rights, a
//! bounds violation, a transition that contradicts current state, and a
//! time-dependent refusal. All errors are returned synchronously and nothing
//! is retried internally.

use vstd::prelude::*;

verus! {

/// One exact failure of an engine operation.
#[derive(Clone, Copy, PartialEq, Eq, Structural, Debug)]
pub enum AccessError {
    /// The actor is not the owner, delegate, contact or researcher the
    /// operation requires.
    UnauthorizedAccess,
    /// A grant exists but does not carry the requested permission bit.
    InsufficientPermissions,
    /// A grant or emergency window exists but its expiry has passed.
    AccessGrantExpired,
    /// No grant is stored for the (owner, delegate) pair.
    AccessGrantNotFound,
    /// A grant for the (owner, delegate) pair already exists.
    AccessGrantAlreadyExists,
    /// An expiry that does not lie in the future.
    InvalidTimestamp,
    /// An expiry more than the maximum duration ahead.
    InvalidAccessDuration,
    /// A permission mask that is zero or outside the grantable set.
    InvalidPermissions,
    /// Owner and delegate (or owner and contact) are the same principal.
    CannotGrantAccessToSelf,
    /// Free text (reason, topic or error message) over its byte cap.
    MetadataTooLong,
    /// A device identifier over its byte cap.
    DeviceIdTooLong,
    /// A type tag (operation or device type) over its byte cap.
    RecordTypeTooLong,
    /// Emergency access for the (owner, contact) pair is already configured.
    EmergencyAccessAlreadyConfigured,
    /// No emergency access record exists for the (owner, contact) pair.
    EmergencyAccessNotConfigured,
    /// The emergency window is already active.
    EmergencyAccessAlreadyActive,
    /// Too little time has passed since the last activation.
    EmergencyAccessCooldown,
    /// No proposal is stored under the given id.
    ResearchProposalNotFound,
    /// A proposal under the given id already exists.
    ResearchProposalAlreadyExists,
    /// The proposal's voting window has closed.
    ResearchProposalExpired,
    /// The voter has already cast a vote on this proposal.
    AlreadyVoted,
    /// The proposal has already been executed.
    ProposalAlreadyExecuted,
    /// The proposal does not meet the vote threshold.
    InsufficientResearchVotes,
    /// No sync state exists for the (owner, device) pair.
    SyncStateNotFound,
    /// A sync state for the (owner, device) pair already exists.
    SyncStateAlreadyExists,
    /// The presented key does not match a stored sync key.
    SyncKeyMismatch,
    /// The two devices' state hashes diverge and the operation does not
    /// resolve conflicts.
    SyncConflict,
    /// No operation is stored for the ordered device pair.
    SyncOperationNotFound,
    /// An operation for the ordered device pair is still in flight.
    SyncOperationInFlight,
    /// The operation was already completed, or is otherwise not in a state
    /// the transition accepts.
    InvalidSyncOperation,
    /// A monotonic counter reached the top of its range.
    CounterOverflow,
}

/// The four families of failure.
#[derive(Clone, Copy, PartialEq, Eq, Structural, Debug)]
pub enum ErrorCategory {
    /// An actor lacks rights over the object.
    Authorization,
    /// An input violates a bound or a structural rule.
    Validation,
    /// A transition contradicts the object's current state.
    StateConflict,
    /// A time-dependent refusal: something expired or is cooling down.
    Temporal,
}

impl AccessError {
    /// The family this error belongs to.
    pub open spec fn spec_category(self) -> ErrorCategory {
        match self {
            AccessError::UnauthorizedAccess => ErrorCategory::Authorization,
            AccessError::InsufficientPermissions => ErrorCategory::Authorization,
            AccessError::AccessGrantExpired => ErrorCategory::Temporal,
            AccessError::AccessGrantNotFound => ErrorCategory::StateConflict,
            AccessError::AccessGrantAlreadyExists => ErrorCategory::StateConflict,
            AccessError::InvalidTimestamp => ErrorCategory::Validation,
            AccessError::InvalidAccessDuration => ErrorCategory::Validation,
            AccessError::InvalidPermissions => ErrorCategory::Validation,
            AccessError::CannotGrantAccessToSelf => ErrorCategory::Validation,
            AccessError::MetadataTooLong => ErrorCategory::Validation,
            AccessError::DeviceIdTooLong => ErrorCategory::Validation,
            AccessError::RecordTypeTooLong => ErrorCategory::Validation,
            AccessError::EmergencyAccessAlreadyConfigured => ErrorCategory::StateConflict,
            AccessError::EmergencyAccessNotConfigured => ErrorCategory::StateConflict,
            AccessError::EmergencyAccessAlreadyActive => ErrorCategory::StateConflict,
            AccessError::EmergencyAccessCooldown => ErrorCategory::Temporal,
            AccessError::ResearchProposalNotFound => ErrorCategory::StateConflict,
            AccessError::ResearchProposalAlreadyExists => ErrorCategory::StateConflict,
            AccessError::ResearchProposalExpired => ErrorCategory::Temporal,
            AccessError::AlreadyVoted => ErrorCategory::StateConflict,
            AccessError::ProposalAlreadyExecuted => ErrorCategory::StateConflict,
            AccessError::InsufficientResearchVotes => ErrorCategory::StateConflict,
            AccessError::SyncStateNotFound => ErrorCategory::StateConflict,
            AccessError::SyncStateAlreadyExists => ErrorCategory::StateConflict,
            AccessError::SyncKeyMismatch => ErrorCategory::StateConflict,
            AccessError::SyncConflict => ErrorCategory::StateConflict,
            AccessError::SyncOperationNotFound => ErrorCategory::StateConflict,
            AccessError::SyncOperationInFlight => ErrorCategory::StateConflict,
            AccessError::InvalidSyncOperation => ErrorCategory::StateConflict,
            AccessError::CounterOverflow => ErrorCategory::Validation,
        }
    }

    /// The family this error belongs to.
    pub fn category(&self) -> (c: ErrorCategory)
        ensures
            c == self.spec_category(),
    {
        match self {
            AccessError::UnauthorizedAccess => ErrorCategory::Authorization,
            AccessError::InsufficientPermissions => ErrorCategory::Authorization,
            AccessError::AccessGrantExpired => ErrorCategory::Temporal,
            AccessError::EmergencyAccessCooldown => ErrorCategory::Temporal,
            AccessError::ResearchProposalExpired => ErrorCategory::Temporal,
            AccessError::InvalidTimestamp => ErrorCategory::Validation,
            AccessError::InvalidAccessDuration => ErrorCategory::Validation,
            AccessError::InvalidPermissions => ErrorCategory::Validation,
            AccessError::CannotGrantAccessToSelf => ErrorCategory::Validation,
            AccessError::MetadataTooLong => ErrorCategory::Validation,
            AccessError::DeviceIdTooLong => ErrorCategory::Validation,
            AccessError::RecordTypeTooLong => ErrorCategory::Validation,
            AccessError::CounterOverflow => ErrorCategory::Validation,
            _ => ErrorCategory::StateConflict,
        }
    }
}

} // verus!
