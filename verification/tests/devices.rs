use recordguard::devices::WearableDevice;
use recordguard::errors::AccessError;
use recordguard::{MAX_DEVICE_ID_LENGTH, MAX_RECORD_TYPE_LENGTH};

const NOW: i64 = 1_700_000_000;

fn device() -> WearableDevice {
    WearableDevice::new(1, b"watch-01".to_vec(), b"smartwatch".to_vec(), 99, NOW)
        .expect("caps are respected")
}

#[test]
fn registration_cap_boundaries() {
    assert_eq!(
        WearableDevice::new(1, vec![b'd'; MAX_DEVICE_ID_LENGTH + 1], b"w".to_vec(), 99, NOW)
            .err(),
        Some(AccessError::DeviceIdTooLong)
    );
    assert_eq!(
        WearableDevice::new(1, b"d".to_vec(), vec![b'w'; MAX_RECORD_TYPE_LENGTH + 1], 99, NOW)
            .err(),
        Some(AccessError::RecordTypeTooLong)
    );
    assert!(WearableDevice::new(
        1,
        vec![b'd'; MAX_DEVICE_ID_LENGTH],
        vec![b'w'; MAX_RECORD_TYPE_LENGTH],
        99,
        NOW
    )
    .is_ok());
}

#[test]
fn fresh_device_is_active_with_no_data() {
    let d = device();
    assert!(d.is_active);
    assert_eq!(d.data_points_received, 0);
    assert_eq!(d.last_data_timestamp, 0);
    assert_eq!(d.registered_at, NOW);
}

#[test]
fn ingestion_counts_and_stamps() {
    let mut d = device();
    assert_eq!(d.record_data_ingestion(NOW + 10), Ok(()));
    assert_eq!(d.record_data_ingestion(NOW + 20), Ok(()));
    assert_eq!(d.data_points_received, 2);
    assert_eq!(d.last_data_timestamp, NOW + 20);
}

#[test]
fn activity_flag_flips_both_ways() {
    let mut d = device();
    d.deactivate();
    assert!(!d.is_active);
    d.reactivate();
    assert!(d.is_active);
}

#[test]
fn freshness_follows_the_last_delivery() {
    let mut d = device();
    // A device that never sent data is never fresh.
    assert!(!d.is_data_fresh(1_000_000, NOW));
    assert_eq!(d.record_data_ingestion(NOW + 10), Ok(()));
    assert!(d.is_data_fresh(100, NOW + 110));
    assert!(!d.is_data_fresh(100, NOW + 111));
}

#[test]
fn ingestion_counter_saturates_with_an_error() {
    let mut d = WearableDevice {
        owner: 1,
        device_id: b"watch-01".to_vec(),
        device_type: b"smartwatch".to_vec(),
        device_pubkey: 99,
        is_active: true,
        last_data_timestamp: NOW,
        data_points_received: u64::MAX,
        registered_at: NOW,
    };
    assert_eq!(
        d.record_data_ingestion(NOW + 10),
        Err(AccessError::CounterOverflow)
    );
    // The failed call changed nothing.
    assert_eq!(d.data_points_received, u64::MAX);
    assert_eq!(d.last_data_timestamp, NOW);
}
