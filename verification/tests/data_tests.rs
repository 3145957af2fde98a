use libra::clock::{get_timestamp, timestamp_of};
use libra::data::{Action, DataEntry};
use libra::device::{Device, Model};
use libra::error::Error;
use time::error::IndeterminateOffset;
use time::OffsetDateTime;

#[test]
fn actions_are_logged_under_their_names() {
    assert_eq!(Action::Starting.to_string(), "Starting");
    assert_eq!(Action::Served.to_string(), "Served");
    assert_eq!(Action::Refilled.to_string(), "Refilled");
    assert_eq!(Action::Offline.to_string(), "Offline");
    assert_eq!(Action::Heartbeat.to_string(), "Heartbeat");
}

#[test]
fn entry_holds_what_it_was_made_of() {
    let device = Device::new(Model::LibraV0, 42);
    let later = OffsetDateTime::from_unix_timestamp(1_700_000_000).unwrap();
    let entry = DataEntry::new(
        Action::Served,
        -30_000,
        device,
        later,
        String::from("Kitchen"),
        String::from("Rice"),
    );
    assert_eq!(entry.scale_action, Action::Served);
    assert_eq!(entry.amount, -30_000);
    assert_eq!(entry.device, device);
    assert_eq!(entry.device.model, Model::LibraV0);
    assert_eq!(entry.device.number, 42);
    assert_eq!(entry.timestamp, later);
    assert_eq!(entry.location, "Kitchen");
    assert_eq!(entry.ingredient, "Rice");
}

#[test]
fn clock_without_an_offset_is_a_timing_fault() {
    assert_eq!(timestamp_of(Err(IndeterminateOffset)), Err(Error::TimingFault));
    assert_eq!(
        timestamp_of(Ok(OffsetDateTime::UNIX_EPOCH)),
        Ok(OffsetDateTime::UNIX_EPOCH)
    );
}

#[test]
fn clock_reading_is_recent_or_a_timing_fault() {
    match get_timestamp() {
        Ok(timestamp) => assert!(timestamp.year() >= 2024),
        Err(fault) => assert_eq!(fault, Error::TimingFault),
    }
}
