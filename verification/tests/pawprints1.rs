use dungeonctl::hex::hex_bytes;
use dungeonctl::paw_link::{NOTIFY_CHARACTERISTIC_UUID, WRITE_CHARACTERISTIC_UUID};
use dungeonctl::pawprints1::{
    is_device_name, ButtonTriggerEvent, MultiAcceleration, PawPrintsEvent, SettingMode, Settings,
    DEVICE_NAMES,
};
use dungeonctl::LedColor;

fn with_mode(mode: SettingMode) -> [u8; 17] {
    Settings {
        selector: LedColor::Blue,
        mode,
    }
    .to_bytes()
}

fn multi(acceleration: MultiAcceleration) -> [u8; 17] {
    with_mode(SettingMode::Multi {
        short_click_id: 1,
        long_click_id: 2,
        acceleration_id: 3,
        acceleration,
        para_mapping: 4,
        debouncing: 5,
        cancel_debouncing: 6,
    })
}

#[test]
fn default_settings_initialize_the_button() {
    assert_eq!(
        Settings::default().to_bytes(),
        [0x50, 1, 0, 0, 0, 0, 0, 0, 0, 0, 0, 0, 0, 0, 0, 0, 0]
    );
}

#[test]
fn button_mode_is_serialized() {
    let button = |event: ButtonTriggerEvent| {
        with_mode(SettingMode::Button {
            button_id: 9,
            event,
            para_speed: 10,
            para_cancel_down: 11,
            para_down_speed: 12,
            para_increase: 13,
        })
    };
    assert_eq!(
        button(ButtonTriggerEvent::Release),
        [0x50, 4, 1, 9, 1, 10, 11, 12, 13, 0, 0, 0, 0, 0, 0, 0, 0]
    );
    assert_eq!(button(ButtonTriggerEvent::Press)[4], 0);
}

#[test]
fn multi_mode_is_serialized() {
    assert_eq!(
        multi(MultiAcceleration::Overall {
            threshold: 0x1234,
            greater_than: true,
        }),
        [0x50, 4, 2, 1, 0, 2, 3, 0, 1, 0x12, 0x34, 0, 0, 0, 4, 5, 6]
    );
    assert_eq!(
        multi(MultiAcceleration::Rotation {
            threshold: 0xff00,
            greater_than: false,
        }),
        [0x50, 4, 2, 1, 0, 2, 3, 1, 0, 0xff, 0, 0, 0, 0, 4, 5, 6]
    );
    assert_eq!(
        multi(MultiAcceleration::Fixed {
            x_low: -1,
            x_high: 1,
            y_low: -128,
            y_high: 127,
            z_low: 0,
            z_high: -2,
        }),
        [0x50, 4, 2, 1, 0, 2, 3, 2, 255, 1, 128, 127, 0, 254, 4, 5, 6]
    );
}

#[test]
fn other_modes_are_serialized() {
    assert_eq!(
        with_mode(SettingMode::ExternalVoltage {
            out_voltage_id: 7,
            pullup: true,
            lower_threshold: 8,
            upper_threshold: 9,
            para_mapping: 10,
        }),
        [0x50, 4, 0x0f, 7, 1, 8, 9, 10, 0, 0, 0, 0, 0, 0, 0, 0, 0]
    );
    assert_eq!(
        with_mode(SettingMode::MotionStream),
        [0x50, 4, 0xff, 0, 0, 0, 0, 0, 0, 0, 0, 0, 0, 0, 0, 0, 0]
    );
}

#[test]
fn button_edges_are_parsed() {
    assert_eq!(
        PawPrintsEvent::from_bytes(&[0x5a, 7, 1, 1]),
        PawPrintsEvent::ButtonPressed {
            selector: LedColor::White
        }
    );
    assert_eq!(
        PawPrintsEvent::from_bytes(&[0x5b, 0, 1]),
        PawPrintsEvent::ButtonReleased {
            selector: LedColor::Off
        }
    );
    assert!(PawPrintsEvent::has_known_selector(&[0x5a, 7, 1, 1]));
    assert!(!PawPrintsEvent::has_known_selector(&[0x5a, 8, 1, 1]));
    assert!(!PawPrintsEvent::has_known_selector(&[0x5b, 255, 1]));
    assert!(PawPrintsEvent::has_known_selector(&[0x5b, 255, 2]));
    assert!(PawPrintsEvent::has_known_selector(&[]));
}

#[test]
fn state_packets_are_parsed() {
    assert_eq!(
        PawPrintsEvent::from_bytes(&[1, 0, 1, 0x01, 0x02, 0xff, 0xff, 0x80, 0, 0x7f, 0xff, 0, 1]),
        PawPrintsEvent::State {
            bottom_first: false,
            bottom_second: true,
            top: false,
            overall: 258,
            rotation: -1,
            x: -32768,
            y: 32767,
            z: 1,
        }
    );
}

#[test]
fn motion_and_debug_packets_are_parsed() {
    assert_eq!(
        PawPrintsEvent::from_bytes(&[0x48, 0, 1, 0, 2, 0xff, 0xfe, 1, 0]),
        PawPrintsEvent::Motion {
            sound: 1,
            x: 2,
            y: -2,
            z: 256,
        }
    );
    assert_eq!(
        PawPrintsEvent::from_bytes(&[0xf1, 9, 0, 1, 0, 2, 0, 3, 0, 4, 0, 5, 0xff, 0xfa]),
        PawPrintsEvent::DebugF1 {
            xd: 1,
            xu: 2,
            yd: 3,
            yu: 4,
            zd: 5,
            zu: -6,
        }
    );
}

#[test]
fn strange_packets_are_kept() {
    for packet in [
        vec![],
        vec![0x5a, 1, 1],
        vec![0x5a, 1, 1, 2],
        vec![2; 13],
        vec![0x48; 8],
        vec![0xf1; 13],
    ] {
        assert_eq!(
            PawPrintsEvent::from_bytes(&packet),
            PawPrintsEvent::Unknown(packet)
        );
    }
}

#[test]
fn other_characteristics_report_nothing() {
    let packet = [0x5b, 2, 1];
    assert_eq!(
        PawPrintsEvent::from_notification(NOTIFY_CHARACTERISTIC_UUID, &packet),
        Some(PawPrintsEvent::ButtonReleased {
            selector: LedColor::Red
        })
    );
    assert_eq!(
        PawPrintsEvent::from_notification(WRITE_CHARACTERISTIC_UUID, &packet),
        None
    );
}

#[test]
fn both_names_are_known() {
    for name in DEVICE_NAMES {
        assert!(is_device_name(name));
    }
    assert!(is_device_name("47L120100"));
    assert!(!is_device_name("47L121000"));
}

#[test]
fn packets_are_written_in_hexadecimal() {
    assert_eq!(hex_bytes(&[]), "");
    assert_eq!(hex_bytes(&[0x00, 0x9a, 0xff, 0x5b]), "009AFF5B");
    let all: Vec<u8> = (0..=255).collect();
    let expected: String = all.iter().map(|byte| format!("{byte:02X}")).collect();
    assert_eq!(hex_bytes(&all), expected);
}
