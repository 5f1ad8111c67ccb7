//! Authorization and multi-party access-control engine for a personal record
//! store.
//!
//! Records themselves live elsewhere; this crate governs who may read or
//! write them and when, through four mechanisms that share one design
//! language — durable, independently timestamped state objects with explicit
//! expiry and validity predicates:
//!
//! * time-bounded, revocable permission grants between an owner and a
//!   delegate ([`grants`]);
//! * an emergency break-glass mechanism bypassing grants under a
//!   cooldown-bounded single-activation policy ([`emergency`]);
//! * collective access gated by time-boxed threshold voting ([`governance`]);
//! * a multi-device synchronization protocol with deterministic conflict
//!   detection for an owner's own devices ([`sync`]).
//!
//! The [`facade`] module composes the first three to answer "may principal P
//! do action A on a resource owned by O now?".
//!
//! Time is supplied by the caller: every operation that depends on the clock
//! takes a `now` argument, read from an external monotonic wall-clock
//! provider. Expiry is a value predicate evaluated at read time, never a
//! scheduled event.

use vstd::prelude::*;

pub mod bytes;
pub mod devices;
pub mod emergency;
pub mod errors;
pub mod facade;
pub mod governance;
pub mod grants;
pub mod notify;
pub mod sync;

verus! {

/// Permission bit allowing a delegate to read records.
pub const PERMISSION_READ: u8 = 1;

/// Permission bit allowing a delegate to write record metadata.
pub const PERMISSION_WRITE: u8 = 2;

/// Permission bit allowing a delegate to share records further.
pub const PERMISSION_SHARE: u8 = 4;

/// Permission bit reserved for emergency access.
pub const PERMISSION_EMERGENCY: u8 = 8;

/// Permission bit reserved for research access.
pub const PERMISSION_RESEARCH: u8 = 16;

/// The set of permissions an owner may put in a grant: read, write, share.
pub const GRANTABLE_PERMISSIONS: u8 = 7;

/// Byte-length cap on record and operation type tags.
pub const MAX_RECORD_TYPE_LENGTH: usize = 32;

/// Byte-length cap on free text: activation reasons, research topics and
/// error messages.
pub const MAX_METADATA_LENGTH: usize = 256;

/// Byte-length cap on device identifiers.
pub const MAX_DEVICE_ID_LENGTH: usize = 64;

/// Exact byte length of sync-key material.
pub const SYNC_KEY_LENGTH: usize = 32;

/// Exact byte length of a state hash (content fingerprint).
pub const HASH_LENGTH: usize = 32;

/// Seconds in one day.
pub const SECONDS_PER_DAY: i64 = 86_400;

/// Longest lifetime of a permission grant: one year from its last update.
pub const MAX_ACCESS_DURATION: i64 = SECONDS_PER_DAY * 365;

/// Length of an emergency access window: seven days.
pub const EMERGENCY_ACCESS_DURATION: i64 = SECONDS_PER_DAY * 7;

/// Minimum gap between two emergency activations for the same pair.
pub const EMERGENCY_COOLDOWN: i64 = SECONDS_PER_DAY;

/// Voting window of a research proposal: fourteen days.
pub const RESEARCH_PROPOSAL_DURATION: i64 = SECONDS_PER_DAY * 14;

/// Yes votes needed before a research proposal may execute.
pub const MIN_RESEARCH_VOTES: u64 = 100;

/// A plausible reading of the external wall clock: non-negative (at or after
/// the epoch) and far enough from the top of the range that adding the
/// longest duration used anywhere in the crate cannot overflow.
pub open spec fn valid_time(now: i64) -> bool {
    0 <= now && now + MAX_ACCESS_DURATION <= i64::MAX
}

} // verus!
