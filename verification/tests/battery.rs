use battery_monitor::{Battery, BatteryState, Percentage};

#[test]
fn from_upower_code_decodes_the_seven_codes() {
    assert_eq!(BatteryState::from_upower_code(0), BatteryState::Unknown);
    assert_eq!(BatteryState::from_upower_code(1), BatteryState::Charging);
    assert_eq!(BatteryState::from_upower_code(2), BatteryState::Discharging);
    assert_eq!(BatteryState::from_upower_code(3), BatteryState::Empty);
    assert_eq!(BatteryState::from_upower_code(4), BatteryState::FullyCharged);
    assert_eq!(BatteryState::from_upower_code(5), BatteryState::PendingCharge);
    assert_eq!(BatteryState::from_upower_code(6), BatteryState::PendingDischarge);
}

#[test]
fn only_discharging_and_empty_are_draining() {
    assert!(BatteryState::Discharging.is_draining());
    assert!(BatteryState::Empty.is_draining());
    assert!(!BatteryState::Unknown.is_draining());
    assert!(!BatteryState::Charging.is_draining());
    assert!(!BatteryState::FullyCharged.is_draining());
    assert!(!BatteryState::PendingCharge.is_draining());
    assert!(!BatteryState::PendingDischarge.is_draining());
}

#[test]
fn a_battery_gives_back_what_it_was_made_of() {
    let level = Percentage::from_bits(37.5f64.to_bits()).unwrap();
    let battery = Battery::new(BatteryState::Charging, level, 4321);
    assert_eq!(battery.state(), BatteryState::Charging);
    assert_eq!(battery.percentage(), level);
    assert_eq!(f64::from_bits(battery.percentage().to_bits()), 37.5);
    assert_eq!(battery.time_to_empty(), 4321);
}
