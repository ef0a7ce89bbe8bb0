use dungeonctl::coyote3::{
    apply_protocol_notification, eye_color_packet, handle_notification, parse_battery_payload,
    parse_notification, prepare_wire_pulses, rollback_wire_pulses, settings_written, B0Frame,
    Command, DeviceSettings, EncodedPulse, EncodedPulses, IntensityChange, IntensitySequencer,
    Notification, NotificationOutcome, PendingIntensityChange, PreparedIntensity, Pulse, Pulses,
    State, BATTERY_CHARACTERISTIC_UUID, NOTIFY_CHARACTERISTIC_UUID, WRITE_CHARACTERISTIC_UUID,
};
use dungeonctl::{LedColor, Stereo};

const NOTHING: IntensityChange = IntensityChange::DoNotChange;

fn both(change: IntensityChange) -> Stereo<IntensityChange> {
    Stereo::symmetric(change)
}

fn only_a(change: IntensityChange) -> Stereo<IntensityChange> {
    Stereo { a: change, b: NOTHING }
}

#[test]
fn test_b0_command() {
    assert_eq!(
        &*Command::SendPulses(
            Pulses {
                intensity: Stereo {
                    a: IntensityChange::AbsoluteChange(10),
                    b: IntensityChange::AbsoluteChange(0)
                },
                pulses: [Stereo {
                    a: Pulse {
                        frequency: 100,
                        intensity: 0
                    },
                    b: Pulse {
                        frequency: 30,
                        intensity: 0
                    }
                }; 4]
            }
            .into()
        )
        .to_bytes(),
        &[
            0xb0, 0x0f, 0x0a, 0x00, 0x0a, 0x0a, 0x0a, 0x0a, 0x00, 0x00, 0x00, 0x00, 0x21, 0x21,
            0x21, 0x21, 0x00, 0x00, 0x00, 0x00
        ]
    );
    assert_eq!(
        &*Command::SendPulses(
            Pulses {
                intensity: Stereo {
                    a: IntensityChange::AbsoluteChange(10),
                    b: IntensityChange::AbsoluteChange(0)
                },
                pulses: [Stereo {
                    a: Pulse {
                        frequency: 100,
                        intensity: 100
                    },
                    b: Pulse {
                        frequency: 30,
                        intensity: 100
                    }
                }; 4]
            }
            .into()
        )
        .to_bytes(),
        &[
            0xb0, 0x0f, 0x0a, 0x00, 0x0a, 0x0a, 0x0a, 0x0a, 0x64, 0x64, 0x64, 0x64, 0x21, 0x21,
            0x21, 0x21, 0x64, 0x64, 0x64, 0x64
        ]
    );
}

#[test]
fn test_bf_command() {
    assert_eq!(
        &*Command::UpdateSettings(DeviceSettings {
            limit: Stereo { a: 200, b: 200 },
            frequency_balance: Stereo { a: 160, b: 160 },
            intensity_balance: Stereo { a: 0, b: 0 },
        })
        .to_bytes(),
        &[0xbf, 0xc8, 0xc8, 0xa0, 0xa0, 0x00, 0x00]
    );
}

#[test]
fn settings_command_constrains_the_limits_alone() {
    let settings = DeviceSettings {
        limit: Stereo { a: 201, b: 255 },
        frequency_balance: Stereo { a: 255, b: 1 },
        intensity_balance: Stereo { a: 2, b: 255 },
    };
    assert_eq!(
        &*Command::UpdateSettings(settings).to_bytes(),
        &[0xbf, 200, 200, 255, 1, 2, 255]
    );
    assert_eq!(settings.normalized(), settings.normalized().normalized());
    assert_eq!(settings.normalized().limit, Stereo { a: 200, b: 200 });
}

#[test]
fn default_settings() {
    assert_eq!(
        DeviceSettings::default(),
        DeviceSettings {
            limit: Stereo { a: 70, b: 70 },
            frequency_balance: Stereo { a: 160, b: 160 },
            intensity_balance: Stereo { a: 0, b: 0 },
        }
    );
    assert_eq!(State::default().settings, DeviceSettings::default());
}

#[test]
fn frame_puts_number_and_kinds_into_one_byte() {
    let frame = B0Frame {
        intensity: PreparedIntensity {
            sequence: 15,
            intensity: Stereo {
                a: IntensityChange::RelativeDecrease(255),
                b: IntensityChange::RelativeIncrease(7),
            },
        },
        pulses: [[1, 2, 3, 4], [5, 6, 7, 8], [9, 10, 11, 12], [13, 14, 15, 16]],
    };
    assert_eq!(
        &*Command::SendPulses(frame).to_bytes(),
        &[
            0xb0, 0b1111_1001, 200, 7, 1, 2, 3, 4, 5, 6, 7, 8, 9, 10, 11, 12, 13, 14, 15, 16
        ]
    );
}

#[test]
fn waveform_is_arranged_by_channel() {
    let pulse = |frequency: u8, intensity: u8| EncodedPulse { frequency, intensity };
    let rows = EncodedPulses::convert_pulses(&[
        Stereo { a: pulse(10, 1), b: pulse(20, 5) },
        Stereo { a: pulse(11, 2), b: pulse(21, 6) },
        Stereo { a: pulse(12, 3), b: pulse(22, 7) },
        Stereo { a: pulse(13, 4), b: pulse(23, 8) },
    ]);
    assert_eq!(
        rows,
        [[10, 11, 12, 13], [1, 2, 3, 4], [20, 21, 22, 23], [5, 6, 7, 8]]
    );
}

#[test]
fn encoded_frequency_is_the_compressed_period_in_single_precision() {
    for frequency in 0..=255u8 {
        let expected = if frequency == 0 {
            0
        } else {
            let period = 1000.0f32 / f32::from(frequency.min(100));
            let compressed = if period < 5.0 {
                5.0
            } else if period < 100.0 {
                period
            } else if period < 600.0 {
                (period - 100.0) / 5.0 + 100.0
            } else if period < 1000.0 {
                (period - 600.0) / 10.0 + 200.0
            } else {
                240.0
            };
            compressed as u8
        };
        let pulse = Pulse { frequency, intensity: 0 };
        assert_eq!(pulse.encoded_frequency(), expected, "{frequency} Hz");
    }
}

#[test]
fn encoded_frequencies_fall_and_stay_in_range() {
    let mut last = 240;
    for frequency in 1..=255u8 {
        let value = Pulse { frequency, intensity: 0 }.encoded_frequency();
        assert!((10..=240).contains(&value));
        assert!(value <= last);
        last = value;
    }
    assert_eq!(Pulse { frequency: 1, intensity: 0 }.encoded_frequency(), 240);
    assert_eq!(Pulse { frequency: 2, intensity: 0 }.encoded_frequency(), 180);
    assert_eq!(Pulse { frequency: 10, intensity: 0 }.encoded_frequency(), 100);
    assert_eq!(Pulse { frequency: 11, intensity: 0 }.encoded_frequency(), 90);
    assert_eq!(Pulse { frequency: 200, intensity: 0 }.encoded_frequency(), 10);
}

#[test]
fn amplitudes_are_clamped() {
    assert_eq!(Pulse { frequency: 0, intensity: 100 }.clamped_intensity(), 100);
    assert_eq!(Pulse { frequency: 0, intensity: 101 }.clamped_intensity(), 100);
    assert_eq!(EncodedPulse { frequency: 0, intensity: 255 }.normalized(), (0, 100));
    assert_eq!(EncodedPulse { frequency: 1, intensity: 3 }.normalized(), (10, 3));
    assert_eq!(EncodedPulse { frequency: 255, intensity: 0 }.normalized(), (240, 0));
    let (frequency, intensity) = EncodedPulse { frequency: 250, intensity: 250 }.normalized();
    assert_eq!(EncodedPulse { frequency, intensity }.normalized(), (frequency, intensity));
}

#[test]
fn intensity_changes_have_kinds_and_amounts() {
    assert_eq!((NOTHING.mode(), NOTHING.value()), (0, 0));
    let increase = IntensityChange::RelativeIncrease(201);
    assert_eq!((increase.mode(), increase.value()), (1, 200));
    let decrease = IntensityChange::RelativeDecrease(3);
    assert_eq!((decrease.mode(), decrease.value()), (2, 3));
    let absolute = IntensityChange::AbsoluteChange(200);
    assert_eq!((absolute.mode(), absolute.value()), (3, 200));
}

#[test]
fn pending_changes_merge() {
    let empty = PendingIntensityChange::Empty;
    assert_eq!(empty.followed_by(NOTHING), empty);
    assert_eq!(
        empty
            .followed_by(IntensityChange::RelativeIncrease(150))
            .followed_by(IntensityChange::RelativeIncrease(150)),
        PendingIntensityChange::Relative(200)
    );
    assert_eq!(
        empty
            .followed_by(IntensityChange::RelativeDecrease(255))
            .followed_by(IntensityChange::RelativeDecrease(1)),
        PendingIntensityChange::Relative(-200)
    );
    assert_eq!(
        PendingIntensityChange::Absolute(190).followed_by(IntensityChange::RelativeIncrease(20)),
        PendingIntensityChange::Absolute(200)
    );
    assert_eq!(
        PendingIntensityChange::Absolute(5).followed_by(IntensityChange::RelativeDecrease(20)),
        PendingIntensityChange::Absolute(0)
    );
    assert_eq!(
        PendingIntensityChange::Relative(20).followed_by(IntensityChange::AbsoluteChange(9)),
        PendingIntensityChange::Absolute(9)
    );
    assert_eq!(empty.then_delta(-300), PendingIntensityChange::Relative(-200));
    assert_eq!(empty.then_delta(300), PendingIntensityChange::Relative(200));
}

#[test]
fn pending_changes_become_commands() {
    assert_eq!(PendingIntensityChange::Empty.into_change(), NOTHING);
    assert_eq!(PendingIntensityChange::Relative(0).into_change(), NOTHING);
    assert_eq!(
        PendingIntensityChange::Relative(7).into_change(),
        IntensityChange::RelativeIncrease(7)
    );
    assert_eq!(
        PendingIntensityChange::Relative(-200).into_change(),
        IntensityChange::RelativeDecrease(200)
    );
    assert_eq!(
        PendingIntensityChange::Absolute(0).into_change(),
        IntensityChange::AbsoluteChange(0)
    );
}

#[test]
fn pending_changes_compose() {
    let later = PendingIntensityChange::Relative(-5);
    assert_eq!(
        later.prepend(IntensityChange::AbsoluteChange(30)),
        PendingIntensityChange::Absolute(25)
    );
    assert_eq!(
        PendingIntensityChange::Absolute(1).prepend(IntensityChange::RelativeIncrease(9)),
        PendingIntensityChange::Absolute(1)
    );
    assert_eq!(
        PendingIntensityChange::Relative(3).compose(PendingIntensityChange::Empty),
        PendingIntensityChange::Relative(3)
    );
    assert_eq!(
        PendingIntensityChange::Relative(3).compose(later),
        PendingIntensityChange::Relative(-2)
    );
}

#[test]
fn one_change_is_unanswered_at_a_time() {
    let mut sequencer = IntensitySequencer::default();
    let first = sequencer.prepare(only_a(IntensityChange::AbsoluteChange(10)));
    assert_eq!(first.sequence, 1);
    assert_eq!(first.intensity, only_a(IntensityChange::AbsoluteChange(10)));
    assert!(sequencer.is_waiting());

    let meanwhile = sequencer.prepare(only_a(IntensityChange::RelativeIncrease(5)));
    assert_eq!(meanwhile, PreparedIntensity { sequence: 0, intensity: both(NOTHING) });
    let meanwhile = sequencer.prepare(only_a(IntensityChange::RelativeIncrease(1)));
    assert_eq!(meanwhile.sequence, 0);

    assert!(!sequencer.acknowledge(2));
    assert!(!sequencer.acknowledge(0));
    assert!(sequencer.is_waiting());
    assert!(sequencer.acknowledge(1));
    assert!(!sequencer.is_waiting());

    let next = sequencer.prepare(both(NOTHING));
    assert_eq!(next.sequence, 2);
    assert_eq!(next.intensity, only_a(IntensityChange::AbsoluteChange(16)));
}

#[test]
fn frames_without_a_change_have_no_number() {
    let mut sequencer = IntensitySequencer::default();
    let idle = sequencer.prepare(both(NOTHING));
    assert_eq!(idle, PreparedIntensity { sequence: 0, intensity: both(NOTHING) });
    assert!(!sequencer.is_waiting());
    let idle = sequencer.prepare(both(IntensityChange::RelativeIncrease(0)));
    assert_eq!(idle.sequence, 0);
    assert!(!sequencer.is_waiting());
}

#[test]
fn numbers_run_from_one_to_fifteen_and_start_over() {
    let mut sequencer = IntensitySequencer::default();
    for round in 0..2 {
        for expected in 1..=15u8 {
            let sent = sequencer.prepare(both(IntensityChange::RelativeIncrease(1)));
            assert_eq!(sent.sequence, expected, "round {round}");
            assert!(sequencer.acknowledge(expected));
        }
    }
}

#[test]
fn rolled_back_change_goes_out_again() {
    let mut sequencer = IntensitySequencer::default();
    let sent = sequencer.prepare(only_a(IntensityChange::RelativeIncrease(10)));
    sequencer.rollback(PreparedIntensity { sequence: 0, ..sent });
    sequencer.rollback(PreparedIntensity { sequence: 2, ..sent });
    assert!(sequencer.is_waiting());
    sequencer.prepare(only_a(IntensityChange::RelativeDecrease(4)));
    sequencer.rollback(sent);
    assert!(!sequencer.is_waiting());
    let again = sequencer.prepare(both(NOTHING));
    assert_eq!(again.sequence, 2);
    assert_eq!(again.intensity, only_a(IntensityChange::RelativeIncrease(6)));
}

#[test]
fn settled_level_is_that_of_all_changes_in_turn() {
    let mut sequencer = IntensitySequencer::default();
    let mut level: i16 = 100;
    let mut expected: i16 = 100;
    let mut device: Option<PreparedIntensity> = None;
    for step in 0..40u8 {
        let change = if step % 2 == 0 {
            expected = (expected + 7).min(200);
            IntensityChange::RelativeIncrease(7)
        } else {
            expected = (expected - 5).max(0);
            IntensityChange::RelativeDecrease(5)
        };
        let sent = sequencer.prepare(only_a(change));
        if sent.sequence != 0 {
            device = Some(sent);
        }
        if step % 3 == 2 {
            if let Some(sent) = device.take() {
                match sent.intensity.a {
                    IntensityChange::RelativeIncrease(by) => level += i16::from(by),
                    IntensityChange::RelativeDecrease(by) => level -= i16::from(by),
                    IntensityChange::AbsoluteChange(to) => level = i16::from(to),
                    IntensityChange::DoNotChange => {}
                }
                assert!(sequencer.acknowledge(sent.sequence));
            }
        }
    }
    for _ in 0..2 {
        let sent = match device.take() {
            Some(sent) => sent,
            None => sequencer.prepare(both(NOTHING)),
        };
        match sent.intensity.a {
            IntensityChange::RelativeIncrease(by) => level += i16::from(by),
            IntensityChange::RelativeDecrease(by) => level -= i16::from(by),
            IntensityChange::AbsoluteChange(to) => level = i16::from(to),
            IntensityChange::DoNotChange => {}
        }
        sequencer.acknowledge(sent.sequence);
    }
    assert_eq!(level, expected);
}

#[test]
fn notifications_are_parsed() {
    assert_eq!(
        parse_notification(&[0xb1, 3, 40, 50]),
        Some(Notification::IntensityChange {
            serial: 3,
            intensity: Stereo { a: 40, b: 50 },
        })
    );
    let settings = DeviceSettings {
        limit: Stereo { a: 1, b: 2 },
        frequency_balance: Stereo { a: 3, b: 4 },
        intensity_balance: Stereo { a: 5, b: 6 },
    };
    assert_eq!(
        parse_notification(&[0xbe, 1, 2, 3, 4, 5, 6]),
        Some(Notification::DeviceSettingsChange(settings))
    );
    let mut packet = Command::UpdateSettings(settings).to_bytes().to_vec();
    packet[0] = 0xbe;
    assert_eq!(
        parse_notification(&packet),
        Some(Notification::DeviceSettingsChange(settings))
    );
    assert_eq!(parse_notification(&[]), None);
    assert_eq!(parse_notification(&[0xb1, 3, 40]), None);
    assert_eq!(parse_notification(&[0xb1, 3, 40, 50, 60]), None);
    assert_eq!(parse_notification(&[0xb2, 3, 40, 50]), None);
    assert_eq!(parse_notification(&[0xbe, 1, 2, 3, 4, 5]), None);
}

#[test]
fn battery_payload_is_one_byte() {
    assert_eq!(parse_battery_payload(&[87]), Some(87));
    assert_eq!(parse_battery_payload(&[]), None);
    assert_eq!(parse_battery_payload(&[1, 2]), None);
}

#[test]
fn intensity_report_answers_the_change() {
    let mut state = State::connected(&[66], DeviceSettings::default());
    let mut sequencer = IntensitySequencer::default();
    let frame = prepare_wire_pulses(
        &mut state,
        &mut sequencer,
        both(IntensityChange::AbsoluteChange(20)),
        [[7; 4]; 4],
    );
    assert_eq!(frame.intensity.sequence, 1);
    assert_eq!(frame.pulses, [[7; 4]; 4]);
    assert!(state.intensity_update_pending);

    let report = Notification::IntensityChange {
        serial: 9,
        intensity: Stereo { a: 4, b: 5 },
    };
    apply_protocol_notification(&mut state, &mut sequencer, report);
    assert_eq!(state.intensity, Stereo { a: 4, b: 5 });
    assert_eq!(state.last_intensity_sequence, 9);
    assert!(state.intensity_update_pending);

    let outcome = handle_notification(
        &mut state,
        &mut sequencer,
        NOTIFY_CHARACTERISTIC_UUID,
        &[0xb1, 1, 20, 20],
    );
    assert_eq!(outcome, NotificationOutcome::Applied);
    assert_eq!(state.intensity, Stereo { a: 20, b: 20 });
    assert!(!state.intensity_update_pending);
    assert_eq!(state.battery, 66);
}

#[test]
fn settings_reports_are_ignored() {
    let mut state = State::connected(&[66], DeviceSettings::default());
    let mut sequencer = IntensitySequencer::default();
    let before = state;
    let outcome = handle_notification(
        &mut state,
        &mut sequencer,
        NOTIFY_CHARACTERISTIC_UUID,
        &[0xbe, 1, 2, 3, 4, 5, 6],
    );
    assert_eq!(outcome, NotificationOutcome::Applied);
    assert_eq!(state, before);
}

#[test]
fn battery_reports_and_strange_ones() {
    let mut state = State::connected(&[66, 1], DeviceSettings::default());
    assert_eq!(state.battery, 0);
    let mut sequencer = IntensitySequencer::default();
    let battery = BATTERY_CHARACTERISTIC_UUID;
    let outcome = handle_notification(&mut state, &mut sequencer, battery, &[55]);
    assert_eq!(outcome, NotificationOutcome::Applied);
    assert_eq!(state.battery, 55);
    let before = state;
    let outcome = handle_notification(&mut state, &mut sequencer, battery, &[]);
    assert_eq!(outcome, NotificationOutcome::InvalidBattery);
    let notify = NOTIFY_CHARACTERISTIC_UUID;
    let outcome = handle_notification(&mut state, &mut sequencer, notify, &[0xb1]);
    assert_eq!(outcome, NotificationOutcome::InvalidNotification);
    let write = WRITE_CHARACTERISTIC_UUID;
    let outcome = handle_notification(&mut state, &mut sequencer, write, &[55]);
    assert_eq!(outcome, NotificationOutcome::UnknownCharacteristic);
    assert_eq!(state, before);
}

#[test]
fn failed_frames_are_taken_back() {
    let mut state = State::connected(&[66], DeviceSettings::default());
    let mut sequencer = IntensitySequencer::default();
    let change = only_a(IntensityChange::RelativeIncrease(3));
    let frame = prepare_wire_pulses(&mut state, &mut sequencer, change, [[0; 4]; 4]);
    rollback_wire_pulses(&mut state, &mut sequencer, frame.intensity);
    assert!(!state.intensity_update_pending);
    let again = prepare_wire_pulses(&mut state, &mut sequencer, both(NOTHING), [[0; 4]; 4]);
    assert_eq!(again.intensity.intensity, change);
    assert_eq!(again.intensity.sequence, 2);
    assert!(state.intensity_update_pending);
}

#[test]
fn written_settings_are_published_as_constrained() {
    let mut state = State::connected(&[66], DeviceSettings::default());
    let settings = DeviceSettings {
        limit: Stereo { a: 250, b: 10 },
        ..DeviceSettings::default()
    };
    settings_written(&mut state, settings);
    assert_eq!(state.settings.limit, Stereo { a: 200, b: 10 });
    assert_eq!(State::connected(&[1], settings).settings.limit, Stereo { a: 200, b: 10 });
}

#[test]
fn indicator_packets() {
    assert_eq!(
        eye_color_packet(LedColor::Green),
        [0x50, 6, 0, 0, 0, 0, 0, 0, 0, 0, 0, 0, 0, 0, 0, 0, 0]
    );
    assert_eq!(LedColor::White.short_packet(), [0x70, 7]);
    for value in 0..=7u8 {
        assert_eq!(LedColor::from(value).raw(), value);
    }
}

#[test]
fn stereo_pairs() {
    assert_eq!(Stereo::symmetric(3), Stereo { a: 3, b: 3 });
    assert_eq!(Stereo::from((1, 2)), Stereo { a: 1, b: 2 });
}
