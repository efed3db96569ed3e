use core::str::FromStr;
use rig_panel::device::{Device, TestData};
use rig_panel::states::State;

#[test]
fn codes_match_wire_table() {
    assert_eq!(State::Offline.code(), 0);
    assert_eq!(State::Online.code(), 1);
    assert_eq!(State::InProgress.code(), 2);
    assert_eq!(State::Pass.code(), 3);
    assert_eq!(State::Fail.code(), 4);
    assert_eq!(State::ENoFirmware.code(), -1);
    assert_eq!(State::ENoRead.code(), -2);
    assert_eq!(State::ENoWrite.code(), -3);
    assert_eq!(State::EOpen.code(), -4);
    assert_eq!(State::EUnknown.code(), -6);
}

#[test]
fn every_state_round_trips_through_its_code() {
    let all = [
        State::Offline,
        State::Online,
        State::InProgress,
        State::Pass,
        State::Fail,
        State::ENoFirmware,
        State::ENoRead,
        State::ENoWrite,
        State::EOpen,
        State::EUnknown,
    ];
    for s in all {
        assert_eq!(State::from_code(s.code()), s);
    }
}

#[test]
fn undefined_codes_decode_to_unknown() {
    for code in [-5, 5, -7, 7, 100, -100, i32::MIN, i32::MAX] {
        assert_eq!(State::from_code(code), State::EUnknown);
    }
}

#[test]
fn messages_are_fixed_per_state() {
    assert_eq!(State::Offline.message(), "Trying to connect to server...");
    assert_eq!(
        State::Online.message(),
        "Server is up. Waiting for test to begin."
    );
    assert_eq!(State::InProgress.message(), "Microcontroller has began testing");
    assert_eq!(
        State::Pass.message(),
        "The test inidicates the device passes"
    );
    assert_eq!(State::Fail.message(), "The test indicates the device fails");
    assert_eq!(
        State::ENoFirmware.message(),
        "No Firmware was found for the selected device"
    );
    assert_eq!(
        State::ENoRead.message(),
        "There was an error reading data from the microcontroller"
    );
    assert_eq!(
        State::ENoWrite.message(),
        "There was an error writing data to the microcontroller"
    );
    assert_eq!(
        State::EOpen.message(),
        "There was an error trying to communicate to the microcontroller"
    );
    assert_eq!(
        State::EUnknown.message(),
        "Something bad went wrong, check browser console"
    );
}

#[test]
fn abbrevs_are_the_short_codes() {
    assert_eq!(Device::BST.abbrev(), "BST");
    assert_eq!(Device::CWS.abbrev(), "CWS");
    assert_eq!(Device::PrS.abbrev(), "PrS");
    assert_eq!(Device::ESCM.abbrev(), "ESCM");
    assert_eq!(Device::NoDevice.abbrev(), "N/A");
}

#[test]
fn names_are_the_canonical_display_strings() {
    assert_eq!(Device::BST.name(), "Brake Signal Transmitter");
    assert_eq!(Device::CWS.name(), "Continuous Wear Sensor");
    assert_eq!(Device::PrS.name(), "Pressure Sensor");
    assert_eq!(Device::ESCM.name(), "Electronic Stability Control Module");
    assert_eq!(Device::NoDevice.name(), "No Device Selected");
}

#[test]
fn from_name_parses_canonical_names() {
    assert_eq!(
        Device::from_name("Brake Signal Transmitter"),
        Ok(Device::BST)
    );
    assert_eq!(Device::from_name("Continuous Wear Sensor"), Ok(Device::CWS));
    assert_eq!(Device::from_name("Pressure Sensor"), Ok(Device::PrS));
    assert_eq!(
        Device::from_name("Electronic Stability Control Module"),
        Ok(Device::ESCM)
    );
    assert_eq!(Device::from_name("None"), Ok(Device::NoDevice));
}

#[test]
fn from_name_rejects_everything_else() {
    assert_eq!(Device::from_name(""), Err(()));
    assert_eq!(Device::from_name("pressure sensor"), Err(()));
    assert_eq!(Device::from_name("BST"), Err(()));
    assert_eq!(Device::from_name("Brake Signal Transmitter "), Err(()));
}

#[test]
fn selected_devices_round_trip_through_their_names() {
    for d in [Device::BST, Device::CWS, Device::PrS, Device::ESCM] {
        assert_eq!(Device::from_name(d.name()), Ok(d));
    }
}

#[test]
fn from_str_matches_from_name() {
    assert_eq!(Device::from_str("Continuous Wear Sensor"), Ok(Device::CWS));
    assert_eq!("Pressure Sensor".parse::<Device>(), Ok(Device::PrS));
    assert_eq!("something else".parse::<Device>(), Err(()));
}

#[test]
fn default_test_data_has_no_device_and_option_off() {
    let td = TestData::default();
    assert_eq!(td.device, Device::NoDevice);
    assert!(!td.check);
}
