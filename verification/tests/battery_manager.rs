use battery_monitor::battery_manager::{DEVICE_TYPE_BATTERY, STATE_CODE_MAX};
use battery_monitor::{Battery, BatteryManager, BatteryState, DeviceEvent, DeviceRequest, SampleError};

fn reading(state: u32, percentage: f64, time_to_empty: u64) -> DeviceEvent {
    DeviceEvent::Reading { state, percentage: percentage.to_bits(), time_to_empty }
}

/// Feeds the events to a new manager, one after the other.
fn after(events: &[DeviceEvent]) -> BatteryManager {
    let mut manager = BatteryManager::new();
    for event in events {
        manager = manager.step(*event);
    }
    manager
}

fn levels(batteries: &[Battery]) -> Vec<f64> {
    batteries.iter().map(|battery| f64::from_bits(battery.percentage().to_bits())).collect()
}

#[test]
fn a_new_manager_asks_for_the_list_of_devices() {
    let manager = BatteryManager::new();
    assert_eq!(manager.pending(), DeviceRequest::ListDevices);
    assert!(manager.get_batteries().is_empty());
}

#[test]
fn a_sample_without_devices_is_done_at_once() {
    let manager = after(&[DeviceEvent::Devices(0)]);
    assert_eq!(manager.pending(), DeviceRequest::Done);
    assert!(manager.get_batteries().is_empty());
}

#[test]
fn the_devices_are_probed_in_the_order_of_the_list() {
    let mut manager = after(&[DeviceEvent::Devices(3)]);
    assert_eq!(manager.pending(), DeviceRequest::ProbeDevice(0));
    manager = manager.step(DeviceEvent::Type(1));
    assert_eq!(manager.pending(), DeviceRequest::ProbeDevice(1));
    manager = manager.step(DeviceEvent::Type(3));
    assert_eq!(manager.pending(), DeviceRequest::ProbeDevice(2));
    manager = manager.step(DeviceEvent::Type(0));
    assert_eq!(manager.pending(), DeviceRequest::Done);
    assert!(manager.get_batteries().is_empty());
}

#[test]
fn a_battery_is_read_and_joins_the_sample() {
    assert_eq!(DEVICE_TYPE_BATTERY, 2);
    let mut manager = after(&[DeviceEvent::Devices(1), DeviceEvent::Type(2)]);
    assert_eq!(manager.pending(), DeviceRequest::ReadBattery(0));
    assert!(manager.get_batteries().is_empty());
    manager = manager.step(reading(2, 42.5, 9000));
    assert_eq!(manager.pending(), DeviceRequest::Done);
    let batteries = manager.get_batteries();
    assert_eq!(batteries.len(), 1);
    assert_eq!(batteries[0].state(), BatteryState::Discharging);
    assert_eq!(f64::from_bits(batteries[0].percentage().to_bits()), 42.5);
    assert_eq!(batteries[0].time_to_empty(), 9000);
}

#[test]
fn a_device_whose_type_read_fails_is_left_out_and_the_rest_is_read() {
    let mut manager = after(&[DeviceEvent::Devices(3)]);
    assert_eq!(manager.pending(), DeviceRequest::ProbeDevice(0));
    manager = manager.step(DeviceEvent::Type(2));
    assert_eq!(manager.pending(), DeviceRequest::ReadBattery(0));
    manager = manager.step(reading(2, 71.0, 100));
    assert_eq!(manager.pending(), DeviceRequest::ProbeDevice(1));
    manager = manager.step(DeviceEvent::TypeUnknown);
    assert_eq!(manager.pending(), DeviceRequest::ProbeDevice(2));
    assert_eq!(levels(manager.get_batteries()), vec![71.0]);
    manager = manager.step(DeviceEvent::Type(2));
    assert_eq!(manager.pending(), DeviceRequest::ReadBattery(2));
    manager = manager.step(reading(1, 33.0, 0));
    assert_eq!(manager.pending(), DeviceRequest::Done);
    let batteries = manager.get_batteries();
    assert_eq!(levels(batteries), vec![71.0, 33.0]);
    assert_eq!(batteries[0].state(), BatteryState::Discharging);
    assert_eq!(batteries[1].state(), BatteryState::Charging);
}

#[test]
fn a_last_device_whose_type_read_fails_ends_the_sample_well() {
    let manager = after(&[
        DeviceEvent::Devices(2),
        DeviceEvent::Type(2),
        reading(2, 18.0, 0),
        DeviceEvent::TypeUnknown,
    ]);
    assert_eq!(manager.pending(), DeviceRequest::Done);
    assert_eq!(levels(manager.get_batteries()), vec![18.0]);
}

#[test]
fn a_battery_that_does_not_report_is_left_out() {
    let manager = after(&[
        DeviceEvent::Devices(2),
        DeviceEvent::Type(2),
        DeviceEvent::ReadingUnknown,
        DeviceEvent::Type(2),
        reading(2, 64.0, 0),
    ]);
    assert_eq!(manager.pending(), DeviceRequest::Done);
    assert_eq!(levels(manager.get_batteries()), vec![64.0]);
}

#[test]
fn a_reading_whose_level_is_no_level_is_left_out() {
    for percentage in [f64::NAN, f64::INFINITY, -1.0, 100.5, f64::NEG_INFINITY] {
        let manager = after(&[
            DeviceEvent::Devices(2),
            DeviceEvent::Type(2),
            reading(2, percentage, 10),
            DeviceEvent::Type(2),
            reading(2, 64.0, 0),
        ]);
        assert_eq!(manager.pending(), DeviceRequest::Done, "{percentage}");
        assert_eq!(levels(manager.get_batteries()), vec![64.0], "{percentage}");
    }
}

#[test]
fn a_state_code_that_the_service_does_not_have_fails_the_sample() {
    assert_eq!(STATE_CODE_MAX, 6);
    for state in [7, 8, 100, u32::MAX] {
        let manager = after(&[
            DeviceEvent::Devices(2),
            DeviceEvent::Type(2),
            reading(2, 50.0, 0),
            DeviceEvent::Type(2),
            reading(state, 50.0, 0),
        ]);
        assert_eq!(manager.pending(), DeviceRequest::Fail(SampleError::StateCode), "{state}");
    }
    let manager = after(&[DeviceEvent::Devices(1), DeviceEvent::Type(2), reading(7, f64::NAN, 0)]);
    assert_eq!(manager.pending(), DeviceRequest::Fail(SampleError::StateCode));
}

#[test]
fn every_state_code_of_the_service_is_read() {
    let states = [
        BatteryState::Unknown,
        BatteryState::Charging,
        BatteryState::Discharging,
        BatteryState::Empty,
        BatteryState::FullyCharged,
        BatteryState::PendingCharge,
        BatteryState::PendingDischarge,
    ];
    for (code, state) in states.iter().enumerate() {
        let manager =
            after(&[DeviceEvent::Devices(1), DeviceEvent::Type(2), reading(code as u32, 50.0, 0)]);
        assert_eq!(manager.pending(), DeviceRequest::Done);
        assert_eq!(manager.get_batteries()[0].state(), *state);
    }
}

#[test]
fn a_failure_fails_the_sample_whatever_is_pending() {
    let errors = [
        SampleError::Connection,
        SampleError::Service,
        SampleError::Enumeration,
        SampleError::DevicePath,
        SampleError::DeviceInterface,
        SampleError::StateCode,
    ];
    for error in errors {
        let failure = DeviceEvent::Failure(error);
        assert_eq!(after(&[failure]).pending(), DeviceRequest::Fail(error));
        assert_eq!(after(&[DeviceEvent::Devices(2), failure]).pending(), DeviceRequest::Fail(error));
        assert_eq!(
            after(&[DeviceEvent::Devices(2), DeviceEvent::Type(2), failure]).pending(),
            DeviceRequest::Fail(error)
        );
    }
}

#[test]
fn nothing_changes_once_the_sample_is_done_or_has_failed() {
    let events = [
        DeviceEvent::Devices(4),
        DeviceEvent::Type(2),
        DeviceEvent::TypeUnknown,
        reading(2, 10.0, 0),
        DeviceEvent::ReadingUnknown,
        DeviceEvent::Failure(SampleError::Service),
    ];
    for event in events {
        let done = after(&[DeviceEvent::Devices(1), DeviceEvent::Type(2), reading(2, 64.0, 0)]);
        let done = done.step(event);
        assert_eq!(done.pending(), DeviceRequest::Done);
        assert_eq!(levels(done.get_batteries()), vec![64.0]);
        let failed = after(&[DeviceEvent::Failure(SampleError::Enumeration)]).step(event);
        assert_eq!(failed.pending(), DeviceRequest::Fail(SampleError::Enumeration));
    }
}

#[test]
fn an_event_that_answers_no_pending_request_changes_nothing() {
    let listing = after(&[DeviceEvent::Type(2), reading(2, 10.0, 0), DeviceEvent::TypeUnknown]);
    assert_eq!(listing.pending(), DeviceRequest::ListDevices);
    let probing = after(&[
        DeviceEvent::Devices(2),
        DeviceEvent::Devices(5),
        reading(2, 10.0, 0),
        DeviceEvent::ReadingUnknown,
    ]);
    assert_eq!(probing.pending(), DeviceRequest::ProbeDevice(0));
    assert!(probing.get_batteries().is_empty());
    let reading_battery = after(&[
        DeviceEvent::Devices(2),
        DeviceEvent::Type(2),
        DeviceEvent::Type(2),
        DeviceEvent::TypeUnknown,
        DeviceEvent::Devices(9),
    ]);
    assert_eq!(reading_battery.pending(), DeviceRequest::ReadBattery(0));
}

#[test]
fn an_error_tells_what_failed() {
    assert_eq!(SampleError::Connection.describe(), "Cannot establish a dbus connection");
    assert_eq!(SampleError::Service.describe(), "Cannot query upower interface service");
    assert_eq!(SampleError::Enumeration.describe(), "Cannot enumerate devices");
    assert_eq!(SampleError::DevicePath.describe(), "Invalid device path");
    assert_eq!(SampleError::DeviceInterface.describe(), "Cannot query upower device interface");
    assert_eq!(SampleError::StateCode.describe(), "Invalid code");
}
