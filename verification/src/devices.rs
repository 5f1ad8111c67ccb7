//! Activity bookkeeping for an owner's registered wearable devices.
//!
//! Raw data ingestion and its processing into records live outside this
//! crate; what is kept here is the per-device record — identity, type,
//! active flag, ingestion counter and freshness — that the rest of the
//! engine can consult.

use vstd::prelude::*;

use crate::errors::AccessError;
use crate::MAX_DEVICE_ID_LENGTH;
use crate::MAX_RECORD_TYPE_LENGTH;
use crate::valid_time;

verus! {

/// The registration and activity record of one wearable device.
pub struct WearableDevice {
    /// Owner of the device.
    pub owner: u64,
    /// Device identifier.
    pub device_id: Vec<u8>,
    /// Device type tag, e.g. a watch or a tracker model family.
    pub device_type: Vec<u8>,
    /// Principal id the device signs its batches with.
    pub device_pubkey: u64,
    /// Whether the device is currently active.
    pub is_active: bool,
    /// Time the device last sent data; zero before the first batch.
    pub last_data_timestamp: i64,
    /// Number of data deliveries received.
    pub data_points_received: u64,
    /// Time the device was registered.
    pub registered_at: i64,
}

impl WearableDevice {
    /// Structural soundness: capped id and type tag, non-negative
    /// timestamps.
    pub open spec fn wf(self) -> bool {
        &&& self.device_id@.len() <= MAX_DEVICE_ID_LENGTH
        &&& self.device_type@.len() <= MAX_RECORD_TYPE_LENGTH
        &&& 0 <= self.last_data_timestamp
        &&& 0 <= self.registered_at
    }

    /// Why registering a device fails, if it does: id cap first, then the
    /// type tag's cap.
    pub open spec fn spec_new_error(device_id: Seq<u8>, device_type: Seq<u8>) -> Option<
        AccessError,
    > {
        if device_id.len() > MAX_DEVICE_ID_LENGTH {
            Some(AccessError::DeviceIdTooLong)
        } else if device_type.len() > MAX_RECORD_TYPE_LENGTH {
            Some(AccessError::RecordTypeTooLong)
        } else {
            None
        }
    }

    /// Register a device: active, with no data received yet. Fails exactly
    /// when the id or the type tag is over its byte cap.
    pub fn new(
        owner: u64,
        device_id: Vec<u8>,
        device_type: Vec<u8>,
        device_pubkey: u64,
        now: i64,
    ) -> (r: Result<WearableDevice, AccessError>)
        requires
            valid_time(now),
        ensures
            match r {
                Ok(d) => {
                    &&& Self::spec_new_error(device_id@, device_type@) is None
                    &&& d.owner == owner
                    &&& d.device_id@ == device_id@
                    &&& d.device_type@ == device_type@
                    &&& d.device_pubkey == device_pubkey
                    &&& d.is_active
                    &&& d.last_data_timestamp == 0
                    &&& d.data_points_received == 0
                    &&& d.registered_at == now
                    &&& d.wf()
                },
                Err(e) => Some(e) == Self::spec_new_error(device_id@, device_type@),
            },
    {
        if device_id.len() > MAX_DEVICE_ID_LENGTH {
            return Err(AccessError::DeviceIdTooLong);
        }
        if device_type.len() > MAX_RECORD_TYPE_LENGTH {
            return Err(AccessError::RecordTypeTooLong);
        }
        Ok(
            WearableDevice {
                owner,
                device_id,
                device_type,
                device_pubkey,
                is_active: true,
                last_data_timestamp: 0,
                data_points_received: 0,
                registered_at: now,
            },
        )
    }

    /// Note one data delivery: stamp the time and count it. Fails exactly
    /// when the counter is at the top of its range; the record is
    /// untouched on failure.
    pub fn record_data_ingestion(&mut self, now: i64) -> (r: Result<(), AccessError>)
        requires
            old(self).wf(),
            valid_time(now),
        ensures
            final(self).wf(),
            match r {
                Ok(()) => {
                    &&& old(self).data_points_received < u64::MAX
                    &&& final(self).last_data_timestamp == now
                    &&& final(self).data_points_received == old(self).data_points_received + 1
                    &&& final(self).owner == old(self).owner
                    &&& final(self).device_id@ == old(self).device_id@
                    &&& final(self).device_type@ == old(self).device_type@
                    &&& final(self).device_pubkey == old(self).device_pubkey
                    &&& final(self).is_active == old(self).is_active
                    &&& final(self).registered_at == old(self).registered_at
                },
                Err(e) => {
                    &&& e == AccessError::CounterOverflow
                    &&& old(self).data_points_received == u64::MAX
                    &&& *final(self) == *old(self)
                },
            },
    {
        if self.data_points_received == u64::MAX {
            return Err(AccessError::CounterOverflow);
        }
        self.last_data_timestamp = now;
        self.data_points_received = self.data_points_received + 1;
        Ok(())
    }

    /// Mark the device inactive; nothing else changes.
    pub fn deactivate(&mut self)
        ensures
            *final(self) == (WearableDevice { is_active: false, ..*old(self) }),
    {
        self.is_active = false;
    }

    /// Mark the device active again; nothing else changes.
    pub fn reactivate(&mut self)
        ensures
            *final(self) == (WearableDevice { is_active: true, ..*old(self) }),
    {
        self.is_active = true;
    }

    /// Whether the device has ever sent data and its last delivery is at
    /// most `max_age_seconds` old.
    pub fn is_data_fresh(&self, max_age_seconds: i64, now: i64) -> (r: bool)
        requires
            self.wf(),
            0 <= now,
        ensures
            r == (self.last_data_timestamp != 0 && now - self.last_data_timestamp
                <= max_age_seconds),
    {
        if self.last_data_timestamp == 0 {
            return false;
        }
        now - self.last_data_timestamp <= max_age_seconds
    }
}

} // verus!
