use dungeonctl::coyote3::{
    is_device_name, validate_characteristic_uuids, Characteristics, ConnectSetup, ConnectStep,
    DeviceSettings, State, BATTERY_CHARACTERISTIC_UUID, DEVICE_NAME, NOTIFY_CHARACTERISTIC_UUID,
    WRITE_CHARACTERISTIC_UUID,
};
use dungeonctl::link::{find_first, find_last, LinkEvent, LinkStep};
use dungeonctl::paw_link;
use dungeonctl::{Error, Stereo};

const B: u128 = BATTERY_CHARACTERISTIC_UUID;
const N: u128 = NOTIFY_CHARACTERISTIC_UUID;
const W: u128 = WRITE_CHARACTERISTIC_UUID;

#[test]
fn characteristics_have_the_documented_uuids() {
    assert_eq!(format!("{W:032x}"), "0000150a00001000800000805f9b34fb");
    assert_eq!(format!("{N:032x}"), "0000150b00001000800000805f9b34fb");
    assert_eq!(format!("{B:032x}"), "0000150000001000800000805f9b34fb");
    assert_eq!(paw_link::WRITE_CHARACTERISTIC_UUID, W);
    assert_eq!(paw_link::NOTIFY_CHARACTERISTIC_UUID, N);
}

#[test]
fn missing_characteristics_are_named_in_order() {
    assert_eq!(validate_characteristic_uuids(&[W, 1, N, B]), Ok(()));
    assert_eq!(
        validate_characteristic_uuids(&[]),
        Err(Error::MissingCharacteristic(B))
    );
    assert_eq!(
        validate_characteristic_uuids(&[W, B]),
        Err(Error::MissingCharacteristic(N))
    );
    assert_eq!(
        validate_characteristic_uuids(&[B, N]),
        Err(Error::MissingCharacteristic(W))
    );
}

#[test]
fn first_characteristics_are_used() {
    assert_eq!(
        Characteristics::locate(&[W, N, W, B, B]),
        Ok(Characteristics {
            battery: 3,
            notify: 1,
            write: 0,
        })
    );
    assert_eq!(
        Characteristics::locate(&[W]),
        Err(Error::MissingCharacteristic(B))
    );
    assert_eq!(find_first(&[1, 2, 1], 1, 1), Some(2));
    assert_eq!(find_first(&[1, 2, 1], 3, 0), None);
    assert_eq!(find_first(&[1], 1, 7), None);
    assert_eq!(find_last(&[1, 2, 1, 2], 1), Some(2));
    assert_eq!(find_last(&[], 1), None);
}

#[test]
fn links_scan_until_a_name_is_accepted() {
    let mut step = LinkStep::first(false, false);
    assert_eq!(step, LinkStep::OpenAdapter);
    let steps = [
        (LinkEvent::Done, LinkStep::StartScan),
        (LinkEvent::Done, LinkStep::AwaitEvent),
        (LinkEvent::Ignored, LinkStep::AwaitEvent),
        (LinkEvent::Done, LinkStep::AwaitEvent),
        (LinkEvent::Discovered, LinkStep::InspectCandidate),
        (LinkEvent::Candidate { accepted: false }, LinkStep::AwaitEvent),
        (LinkEvent::Candidate { accepted: true }, LinkStep::AwaitEvent),
        (LinkEvent::Discovered, LinkStep::InspectCandidate),
        (LinkEvent::Candidate { accepted: true }, LinkStep::StopScan),
        (LinkEvent::Done, LinkStep::Connect),
        (LinkEvent::Done, LinkStep::DiscoverServices),
        (LinkEvent::Done, LinkStep::Ready),
        (LinkEvent::Done, LinkStep::Ready),
    ];
    for (event, expected) in steps {
        step = step.advance(false, event);
        assert_eq!(step, expected);
    }
}

#[test]
fn given_devices_are_not_scanned_for() {
    assert_eq!(LinkStep::first(true, true), LinkStep::Connect);
    assert_eq!(LinkStep::first(true, false), LinkStep::StartScan);
    let step = LinkStep::first(false, true);
    assert_eq!(step, LinkStep::OpenAdapter);
    assert_eq!(step.advance(true, LinkEvent::Done), LinkStep::Connect);
}

#[test]
fn coyote_connection_runs_to_its_end() {
    let setup = ConnectSetup {
        adapter_given: true,
        peripheral_given: true,
        settings: DeviceSettings {
            limit: Stereo { a: 255, b: 1 },
            ..DeviceSettings::default()
        },
    };
    let uuids = [N, W, B];
    let found = Characteristics {
        battery: 2,
        notify: 0,
        write: 1,
    };
    let state = State {
        battery: 42,
        intensity: Stereo { a: 0, b: 0 },
        settings: DeviceSettings {
            limit: Stereo { a: 200, b: 1 },
            ..DeviceSettings::default()
        },
        last_intensity_sequence: 0,
        intensity_update_pending: false,
    };
    let mut step = ConnectStep::first(setup);
    let expected = [
        ConnectStep::Link(LinkStep::Connect),
        ConnectStep::Link(LinkStep::DiscoverServices),
        ConnectStep::ListCharacteristics,
        ConnectStep::SubscribeBattery(found),
        ConnectStep::SubscribeNotify(found),
        ConnectStep::ReadBattery(found),
        ConnectStep::OpenNotifications(found, state),
        ConnectStep::WriteSettings(found, state),
        ConnectStep::Connected(found, state),
        ConnectStep::Connected(found, state),
    ];
    for expected in expected {
        assert_eq!(step, expected);
        assert_eq!(step.advance(setup, &uuids, &[42], LinkEvent::Ignored), step);
        step = step.advance(setup, &uuids, &[42], LinkEvent::Done);
    }
}

#[test]
fn coyote_connection_fails_without_a_characteristic() {
    let setup = ConnectSetup {
        adapter_given: true,
        peripheral_given: true,
        settings: DeviceSettings::default(),
    };
    let step = ConnectStep::ListCharacteristics.advance(setup, &[W, B], &[], LinkEvent::Done);
    assert_eq!(step, ConnectStep::Failed(Error::MissingCharacteristic(N)));
    assert_eq!(step.advance(setup, &[W, N, B], &[], LinkEvent::Done), step);
}

#[test]
fn coyote_is_known_by_its_name() {
    assert!(is_device_name(DEVICE_NAME));
    assert!(is_device_name("47L121000"));
    assert!(!is_device_name("47L1210000"));
    assert!(!is_device_name("47L120300"));
}

#[test]
fn paw_connection_subscribes_to_all_and_writes_to_the_last() {
    let uuids = [N, W, 5, N, W, 6];
    let mut step = paw_link::ConnectStep::first(true, true);
    let expected = [
        paw_link::ConnectStep::Link(LinkStep::Connect),
        paw_link::ConnectStep::Link(LinkStep::DiscoverServices),
        paw_link::ConnectStep::ListCharacteristics,
        paw_link::ConnectStep::Subscribe(0),
        paw_link::ConnectStep::Subscribe(3),
        paw_link::ConnectStep::WriteSettings(4),
        paw_link::ConnectStep::Connected(4),
        paw_link::ConnectStep::Connected(4),
    ];
    for expected in expected {
        assert_eq!(step, expected);
        assert_eq!(step.advance(true, &uuids, LinkEvent::Discovered), step);
        step = step.advance(true, &uuids, LinkEvent::Done);
    }
}

#[test]
fn paw_connection_fails_without_a_characteristic() {
    let listed = paw_link::ConnectStep::ListCharacteristics;
    assert_eq!(
        listed.advance(true, &[W], LinkEvent::Done),
        paw_link::ConnectStep::Failed(Error::MissingCharacteristic(N))
    );
    let subscribed = listed.advance(true, &[3, N], LinkEvent::Done);
    assert_eq!(subscribed, paw_link::ConnectStep::Subscribe(1));
    assert_eq!(
        subscribed.advance(true, &[3, N], LinkEvent::Done),
        paw_link::ConnectStep::Failed(Error::MissingCharacteristic(W))
    );
}

#[test]
fn connections_go_on_scanning_after_a_strange_name() {
    let setup = ConnectSetup {
        adapter_given: true,
        peripheral_given: false,
        settings: DeviceSettings::default(),
    };
    let mut coyote = ConnectStep::first(setup);
    let mut paw = paw_link::ConnectStep::first(true, false);
    let events = [
        (LinkEvent::Done, LinkStep::AwaitEvent),
        (LinkEvent::Discovered, LinkStep::InspectCandidate),
        (LinkEvent::Candidate { accepted: false }, LinkStep::AwaitEvent),
        (LinkEvent::Discovered, LinkStep::InspectCandidate),
        (LinkEvent::Candidate { accepted: true }, LinkStep::StopScan),
    ];
    for (event, expected) in events {
        coyote = coyote.advance(setup, &[], &[], event);
        assert_eq!(coyote, ConnectStep::Link(expected));
        paw = paw.advance(false, &[], event);
        assert_eq!(paw, paw_link::ConnectStep::Link(expected));
    }
}
