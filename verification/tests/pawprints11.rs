use dungeonctl::link::LinkStep;
use dungeonctl::paw_link::{ConnectStep, NOTIFY_CHARACTERISTIC_UUID, WRITE_CHARACTERISTIC_UUID};
use dungeonctl::pawprints11::{
    begin, convert_range, is_device_name, supported_write_type, validate_debounce, AngleRange,
    AxisComparison, AxisDirection, ButtonEdge, ButtonTrigger, CombinedTrigger, Command,
    DetectedRange, EventId, ExternalVoltage, FlashSpeed, MainColor, MotionTrigger, PawButtons,
    PawPrintsEvent, ProbabilityEvent, RandomReaction, RawAccel, Settings, ShoulderColor,
    ThresholdComparison, TriggerMode, VoltageInputMode, WriteType, DEVICE_NAME, WRITE,
    WRITE_WITHOUT_RESPONSE,
};
use dungeonctl::Error;

fn event(id: u8) -> EventId {
    EventId::new(id).unwrap()
}

#[test]
fn serializes_official_random_reaction_example() {
    let settings = Settings {
        main_color: MainColor::Yellow,
        trigger: TriggerMode::RandomReaction(RandomReaction {
            event_id: event(7),
            random_delay: 30..=50,
            reaction_time: 10,
            trigger_increase: 20,
            trigger_increase_speed: 20,
            cancel_decrease: 50,
            cancel_decrease_speed: 20,
        }),
    };

    assert_eq!(
        settings.to_bytes().unwrap(),
        [0x50, 0x01, 0x03, 0x07, 0x00, 0x1e, 0x00, 0x32, 0x00, 0x0a, 0x14, 0x14, 0x32, 0x14, 0x00, 0x00, 0x00]
    );
}

#[test]
fn serializes_official_probability_example() {
    let settings = Settings {
        main_color: MainColor::Yellow,
        trigger: TriggerMode::Probability {
            events: [
                Some(ProbabilityEvent {
                    event_id: event(5),
                    probability: 60,
                }),
                Some(ProbabilityEvent {
                    event_id: event(2),
                    probability: 80,
                }),
                None,
                None,
                None,
                None,
            ],
            cooldown: 600,
        },
    };

    assert_eq!(
        settings.to_bytes().unwrap(),
        [0x50, 0x01, 0x04, 0x05, 0x3c, 0x02, 0x50, 0x00, 0x00, 0x00, 0x00, 0x00, 0x00, 0x00, 0x00, 0x02, 0x58]
    );
}

#[test]
fn serializes_official_external_voltage_example() {
    let settings = Settings {
        main_color: MainColor::Yellow,
        trigger: TriggerMode::ExternalVoltage(ExternalVoltage {
            event_id: event(7),
            input_mode: VoltageInputMode::InternalPullUp,
            lower_threshold: 13,
            upper_threshold: 18,
            parameter_mapping: 8,
        }),
    };

    assert_eq!(
        settings.to_bytes().unwrap(),
        [0x50, 0x01, 0x0f, 0x07, 0x00, 0x0d, 0x12, 0x08, 0x00, 0x00, 0x00, 0x00, 0x00, 0x00, 0x00, 0x00, 0x00]
    );
}

#[test]
fn serializes_official_combined_button_and_acceleration_example() {
    let settings = Settings {
        main_color: MainColor::Yellow,
        trigger: TriggerMode::Combined(CombinedTrigger {
            button: Some(ButtonTrigger {
                event_id: event(20),
                edge: ButtonEdge::Release,
                trigger_increase_speed: 20,
                cancel_decrease: 50,
                cancel_decrease_speed: 20,
                trigger_increase: 20,
            }),
            motion: Some(MotionTrigger::Acceleration {
                event_id: event(10),
                comparison: ThresholdComparison::Above,
                threshold: 100,
                trigger_debounce: 3,
                cancel_debounce: 6,
                parameter_mapping: 100,
            }),
        }),
    };

    assert_eq!(
        settings.to_bytes().unwrap(),
        [0x50, 0x01, 0x05, 0x14, 0x9e, 0x14, 0x32, 0x14, 0x14, 0x0a, 0x01, 0x00, 0x64, 0x00, 0x00, 0x00, 0x64]
    );
}

#[test]
fn rejects_invalid_probability_settings() {
    let duplicate = ProbabilityEvent {
        event_id: event(1),
        probability: 100,
    };
    let settings = Settings {
        main_color: MainColor::Yellow,
        trigger: TriggerMode::Probability {
            events: [Some(duplicate), Some(duplicate), None, None, None, None],
            cooldown: 0,
        },
    };
    assert!(settings.to_bytes().is_err());
}

#[test]
fn serializes_none_physical_data_and_official_angle_example() {
    assert_eq!(
        Settings::default().to_bytes().unwrap(),
        [0x50, 0x01, 0x00, 0x00, 0x00, 0x00, 0x00, 0x00, 0x00, 0x00, 0x00, 0x00, 0x00, 0x00, 0x00, 0x00, 0x00]
    );
    assert_eq!(
        Settings {
            main_color: MainColor::Blue,
            trigger: TriggerMode::PhysicalData,
        }
        .to_bytes()
        .unwrap(),
        [0x50, 0x04, 0xd0, 0x00, 0x00, 0x00, 0x00, 0x00, 0x00, 0x00, 0x00, 0x00, 0x00, 0x00, 0x00, 0x00, 0x00]
    );
    let angle = Settings {
        main_color: MainColor::Yellow,
        trigger: TriggerMode::Combined(CombinedTrigger {
            button: None,
            motion: Some(MotionTrigger::Angle {
                event_id: event(5),
                x: AngleRange {
                    lower: 10,
                    upper: 50,
                },
                y: AngleRange {
                    lower: 20,
                    upper: 30,
                },
                z: AngleRange {
                    lower: 40,
                    upper: 60,
                },
                trigger_debounce: 3,
                cancel_debounce: 6,
                parameter_mapping: 100,
            }),
        }),
    };
    assert_eq!(
        angle.to_bytes().unwrap(),
        [0x50, 0x01, 0x05, 0x00, 0x5e, 0x00, 0x00, 0x00, 0x00, 0x05, 0x0a, 0x32, 0x14, 0x1e, 0x28, 0x3c, 0x64]
    );
}

#[test]
fn rejects_out_of_range_settings() {
    assert!(EventId::new(0).is_err());
    assert!(EventId::new(25).is_err());

    let random = |delay, speed| Settings {
        main_color: MainColor::Yellow,
        trigger: TriggerMode::RandomReaction(RandomReaction {
            event_id: event(1),
            random_delay: delay,
            reaction_time: 1,
            trigger_increase: 0,
            trigger_increase_speed: speed,
            cancel_decrease: 0,
            cancel_decrease_speed: 0,
        }),
    };
    let lower = 2;
    let upper = 1;
    assert!(random(lower..=upper, 0).to_bytes().is_err());
    assert!(random(0..=2, 0).to_bytes().is_err());
    let zero_reaction_time = Settings {
        main_color: MainColor::Yellow,
        trigger: TriggerMode::RandomReaction(RandomReaction {
            event_id: event(1),
            random_delay: 1..=2,
            reaction_time: 0,
            trigger_increase: 0,
            trigger_increase_speed: 0,
            cancel_decrease: 0,
            cancel_decrease_speed: 0,
        }),
    };
    assert!(zero_reaction_time.to_bytes().is_err());

    let acceleration = |threshold, debounce| Settings {
        main_color: MainColor::Yellow,
        trigger: TriggerMode::Combined(CombinedTrigger {
            button: None,
            motion: Some(MotionTrigger::Acceleration {
                event_id: event(1),
                comparison: ThresholdComparison::Below,
                threshold,
                trigger_debounce: debounce,
                cancel_debounce: 0,
                parameter_mapping: 0,
            }),
        }),
    };
    assert!(acceleration(401, 0).to_bytes().is_err());
    assert!(acceleration(400, 8).to_bytes().is_err());

    let voltage = Settings {
        main_color: MainColor::Yellow,
        trigger: TriggerMode::ExternalVoltage(ExternalVoltage {
            event_id: event(1),
            input_mode: VoltageInputMode::HighImpedance,
            lower_threshold: 0,
            upper_threshold: 211,
            parameter_mapping: 0,
        }),
    };
    assert!(voltage.to_bytes().is_err());
}

#[test]
fn serializes_standalone_commands() {
    assert_eq!(Command::ResetParameters.to_bytes(), vec![0x5f]);
    assert_eq!(Command::DetectAngles.to_bytes(), vec![0x60]);
    assert_eq!(
        Command::ShoulderSolid(ShoulderColor::Blue).to_bytes(),
        vec![0x70, 0x04]
    );
    assert_eq!(
        Command::ShoulderFlash {
            first: ShoulderColor::Red,
            second: ShoulderColor::White,
            speed: FlashSpeed::Fast,
        }
        .to_bytes(),
        vec![0x70, 0x02, 0x07, 0x02],
    );
}

#[test]
fn parses_all_documented_notifications() {
    assert_eq!(
        PawPrintsEvent::from_bytes(&[0x51, 0x04, 0x03, 87]),
        PawPrintsEvent::Status {
            main_color: MainColor::Blue,
            device_type: 3,
            battery: 87
        },
    );
    assert_eq!(
        PawPrintsEvent::from_bytes(&[0x5a, 0x02, 24, 255]),
        PawPrintsEvent::Triggered {
            main_color: MainColor::Red,
            event_id: event(24),
            parameter: 255
        },
    );
    assert_eq!(
        PawPrintsEvent::from_bytes(&[0x5b, 0x03, 7]),
        PawPrintsEvent::Canceled {
            main_color: MainColor::Purple,
            event_id: event(7)
        },
    );
    assert_eq!(
        PawPrintsEvent::from_bytes(&[0x5c, 0x06, 1, 99]),
        PawPrintsEvent::ParameterChanged {
            main_color: MainColor::Green,
            event_id: event(1),
            parameter: 99
        },
    );
    assert_eq!(
        PawPrintsEvent::from_bytes(&[0xd0, 0x01, 9, 1, 200, 0xff, 0x80, 0x7f, 210]),
        PawPrintsEvent::PhysicalData {
            main_color: MainColor::Yellow,
            sequence: 9,
            pressed: PawButtons::BOTTOM_WEAK,
            acceleration: 200,
            accel: RawAccel {
                x: -1,
                y: -128,
                z: 127,
            },
            external_voltage: 210,
        },
    );
    assert_eq!(
        PawPrintsEvent::from_bytes(&[0xf1, 0x61, 0xfe, 0x00, 0x01, 0xff, 0x00, 0x02, 0x00, 0xff, 0xfe, 0x00, 0x03, 0x00]),
        PawPrintsEvent::DetectedAngles {
            x: DetectedRange {
                lower: -512,
                upper: 511
            },
            y: DetectedRange {
                lower: 2,
                upper: 255
            },
            z: DetectedRange {
                lower: -512,
                upper: 768
            },
        },
    );
}

#[test]
fn converts_detected_angles_for_trigger_settings() {
    let event = PawPrintsEvent::DetectedAngles {
        x: DetectedRange {
            lower: -512,
            upper: 511,
        },
        y: DetectedRange {
            lower: -3,
            upper: 3,
        },
        z: DetectedRange {
            lower: -256,
            upper: 254,
        },
    };
    assert_eq!(
        event.angle_ranges(),
        Some([
            AngleRange {
                lower: -128,
                upper: 127
            },
            AngleRange {
                lower: -1,
                upper: 1
            },
            AngleRange {
                lower: -128,
                upper: 127
            },
        ]),
    );
}

#[test]
fn leaves_malformed_notifications_unknown() {
    for packet in [
        vec![0x51, 0x07, 0x03, 80],
        vec![0x5a, 0x01, 0, 1],
        vec![0x5b, 0x01, 1, 0],
        vec![0xd0; 8],
        vec![0xf1, 0x60, 0, 0, 0, 0, 0, 0, 0, 0, 0, 0, 0, 0],
    ] {
        assert_eq!(
            PawPrintsEvent::from_bytes(&packet),
            PawPrintsEvent::Unknown(packet)
        );
    }
}

#[test]
fn selects_a_supported_ble_write_type() {
    assert_eq!(
        supported_write_type(WRITE_WITHOUT_RESPONSE),
        WriteType::WithoutResponse
    );
    assert_eq!(
        supported_write_type(WRITE),
        WriteType::WithResponse
    );
}

#[test]
fn matches_documented_edge_behavior() {
    let probabilities = Settings {
        main_color: MainColor::Yellow,
        trigger: TriggerMode::Probability {
            events: [
                Some(ProbabilityEvent {
                    event_id: event(1),
                    probability: 20,
                }),
                Some(ProbabilityEvent {
                    event_id: event(8),
                    probability: 30,
                }),
                Some(ProbabilityEvent {
                    event_id: event(11),
                    probability: 40,
                }),
                Some(ProbabilityEvent {
                    event_id: event(4),
                    probability: 50,
                }),
                Some(ProbabilityEvent {
                    event_id: event(5),
                    probability: 70,
                }),
                Some(ProbabilityEvent {
                    event_id: event(6),
                    probability: 70,
                }),
            ],
            cooldown: 600,
        },
    };
    assert_eq!(
        probabilities.to_bytes().unwrap(),
        [0x50, 0x01, 0x04, 0x01, 0x14, 0x08, 0x1e, 0x0b, 0x28, 0x04, 0x32, 0x05, 0x3c, 0x06, 0x00, 0x02, 0x58]
    );

    let high_speeds = Settings {
        main_color: MainColor::Yellow,
        trigger: TriggerMode::Combined(CombinedTrigger {
            button: Some(ButtonTrigger {
                event_id: event(1),
                edge: ButtonEdge::Press,
                trigger_increase_speed: 121,
                cancel_decrease: 0,
                cancel_decrease_speed: 255,
                trigger_increase: 0,
            }),
            motion: None,
        }),
    };
    assert!(high_speeds.to_bytes().is_ok());

    let packet = vec![0x51, 0x01, 0x02, 80];
    assert_eq!(
        PawPrintsEvent::from_bytes(&packet),
        PawPrintsEvent::Unknown(packet)
    );
}

fn problem(text: &'static str) -> Result<[u8; 17], Error> {
    Err(Error::InvalidPawPrintsSettings(text))
}

fn with_trigger(trigger: TriggerMode) -> Settings {
    Settings {
        main_color: MainColor::Cyan,
        trigger,
    }
}

#[test]
fn every_problem_is_named() {
    assert_eq!(
        EventId::new(25),
        Err(Error::InvalidPawPrintsSettings("event id must be in 1..=24"))
    );
    assert_eq!(EventId::new(24).map(EventId::get), Ok(24));
    let random = |start: u16, end: u16, reaction_time: u16| {
        with_trigger(TriggerMode::RandomReaction(RandomReaction {
            event_id: event(1),
            random_delay: start..=end,
            reaction_time,
            trigger_increase: 0,
            trigger_increase_speed: 0,
            cancel_decrease: 0,
            cancel_decrease_speed: 0,
        }))
        .to_bytes()
    };
    let order = problem("random delay lower bound must not exceed upper bound");
    assert_eq!(random(2, 1, 1), order);
    assert_eq!(random(3, 0, 0), order);
    let time = problem("random delay and reaction time must be at least 1 second");
    assert_eq!(random(0, 0, 1), time);
    assert_eq!(random(1, 1, 0), time);
    assert!(random(1, 1, 1).is_ok());

    let same = Some(ProbabilityEvent {
        event_id: event(3),
        probability: 1,
    });
    assert_eq!(
        with_trigger(TriggerMode::Probability {
            events: [None, same, None, None, None, same],
            cooldown: 1,
        })
        .to_bytes(),
        problem("probability event ids must be unique")
    );

    let voltage = |lower_threshold: u8, upper_threshold: u8, parameter_mapping: u8| {
        with_trigger(TriggerMode::ExternalVoltage(ExternalVoltage {
            event_id: event(1),
            input_mode: VoltageInputMode::HighImpedance,
            lower_threshold,
            upper_threshold,
            parameter_mapping,
        }))
        .to_bytes()
    };
    let high = problem("voltage values must not exceed 210");
    assert_eq!(voltage(211, 0, 0), high);
    assert_eq!(voltage(0, 211, 0), high);
    assert_eq!(voltage(0, 0, 211), high);
    assert_eq!(voltage(2, 1, 0), problem("voltage lower bound must not exceed upper bound"));
    assert!(voltage(210, 210, 210).is_ok());
    assert_eq!(voltage(0, 0, 0).unwrap()[4], 1);
}

#[test]
fn motion_problems_are_named() {
    let acceleration = |threshold: u16, trigger_debounce: u8, cancel_debounce: u8| {
        with_trigger(TriggerMode::Combined(CombinedTrigger {
            button: None,
            motion: Some(MotionTrigger::Acceleration {
                event_id: event(1),
                comparison: ThresholdComparison::Below,
                threshold,
                trigger_debounce,
                cancel_debounce,
                parameter_mapping: 0,
            }),
        }))
        .to_bytes()
    };
    let debounce = problem("debounce must not exceed 7");
    assert_eq!(acceleration(401, 8, 0), debounce);
    assert_eq!(acceleration(0, 0, 8), debounce);
    assert_eq!(acceleration(401, 7, 7), problem("acceleration threshold must not exceed 400"));
    assert_eq!(acceleration(400, 7, 7).unwrap()[4], 0x3f);
    assert!(validate_debounce(7, 7).is_ok());
    assert_eq!(
        validate_debounce(0, 8),
        Err(Error::InvalidPawPrintsSettings("debounce must not exceed 7"))
    );

    let good = AngleRange { lower: -5, upper: -5 };
    let bad = AngleRange { lower: 1, upper: 0 };
    for (x, y, z) in [(bad, good, good), (good, bad, good), (good, good, bad)] {
        let angle = MotionTrigger::Angle {
            event_id: event(1),
            x,
            y,
            z,
            trigger_debounce: 0,
            cancel_debounce: 0,
            parameter_mapping: 0,
        };
        assert_eq!(
            with_trigger(TriggerMode::Combined(CombinedTrigger {
                button: None,
                motion: Some(angle),
            }))
            .to_bytes(),
            problem("angle lower bound must not exceed upper bound")
        );
    }
}

#[test]
fn negative_angles_are_sent_in_twos_complement() {
    let settings = with_trigger(TriggerMode::Combined(CombinedTrigger {
        button: None,
        motion: Some(MotionTrigger::Angle {
            event_id: event(24),
            x: AngleRange { lower: -128, upper: -1 },
            y: AngleRange { lower: -2, upper: 0 },
            z: AngleRange { lower: 0, upper: 127 },
            trigger_debounce: 1,
            cancel_debounce: 2,
            parameter_mapping: 255,
        }),
    }));
    assert_eq!(
        settings.to_bytes().unwrap(),
        [0x50, 5, 5, 0, 0x4a, 0, 0, 0, 0, 24, 128, 255, 254, 0, 0, 127, 255]
    );
}

#[test]
fn probabilities_are_cut_from_the_last_slot() {
    let slot = |id: u8, probability: u8| {
        Some(ProbabilityEvent {
            event_id: event(id),
            probability,
        })
    };
    let bytes = with_trigger(TriggerMode::Probability {
        events: [slot(1, 255), None, slot(2, 255), slot(3, 0), slot(4, 255), slot(5, 255)],
        cooldown: 0x0102,
    })
    .to_bytes()
    .unwrap();
    assert_eq!(
        bytes,
        [0x50, 5, 4, 1, 200, 0, 0, 2, 0, 3, 0, 4, 0, 5, 0, 1, 2]
    );
    let exact = with_trigger(TriggerMode::Probability {
        events: [slot(1, 100), slot(2, 100), None, None, None, None],
        cooldown: 0,
    })
    .to_bytes()
    .unwrap();
    assert_eq!(&exact[3..7], &[1, 100, 2, 100]);
}

#[test]
fn delays_use_both_ends_of_the_range() {
    let bytes = with_trigger(TriggerMode::RandomReaction(RandomReaction {
        event_id: event(2),
        random_delay: 0x0102..=0x0304,
        reaction_time: 0x0506,
        trigger_increase: 7,
        trigger_increase_speed: 8,
        cancel_decrease: 9,
        cancel_decrease_speed: 10,
    }))
    .to_bytes()
    .unwrap();
    assert_eq!(
        bytes,
        [0x50, 5, 3, 2, 1, 2, 3, 4, 5, 6, 7, 8, 9, 10, 0, 0, 0]
    );
    let mut used = 1..=1u16;
    used.next();
    let spent = with_trigger(TriggerMode::RandomReaction(RandomReaction {
        event_id: event(2),
        random_delay: used,
        reaction_time: 1,
        trigger_increase: 0,
        trigger_increase_speed: 0,
        cancel_decrease: 0,
        cancel_decrease_speed: 0,
    }));
    assert_eq!(
        spent.to_bytes(),
        problem("random delay lower bound must not exceed upper bound")
    );
}

#[test]
fn colors_and_speeds_have_numbers() {
    for value in 1..=6u8 {
        assert_eq!(MainColor::from_raw(value).map(MainColor::raw), Some(value));
    }
    assert_eq!(MainColor::from_raw(0), None);
    assert_eq!(MainColor::from_raw(7), None);
    let shoulder = [
        ShoulderColor::Off,
        ShoulderColor::Yellow,
        ShoulderColor::Red,
        ShoulderColor::Purple,
        ShoulderColor::Blue,
        ShoulderColor::Cyan,
        ShoulderColor::Green,
        ShoulderColor::White,
    ];
    for (number, color) in shoulder.into_iter().enumerate() {
        assert_eq!(Command::ShoulderSolid(color).to_bytes(), vec![0x70, number as u8]);
    }
    assert_eq!(
        [FlashSpeed::Slow.raw(), FlashSpeed::Fast.raw(), FlashSpeed::Stop.raw()],
        [1, 2, 3]
    );
}

#[test]
fn buttons_keep_only_their_flags() {
    assert_eq!(PawButtons::from_bits_truncate(0xff), PawButtons::all());
    assert_eq!(PawButtons::from_bits_truncate(0xf8), PawButtons::empty());
    assert_eq!(PawButtons::BOTTOM_WEAK.bits(), 1);
    assert_eq!(PawButtons::BOTTOM_STRONG.bits(), 2);
    assert_eq!(PawButtons::TOP.bits(), 4);
    for bits in 0..8u8 {
        assert_eq!(PawButtons::from_bits_truncate(bits).bits(), bits);
        assert_eq!(
            PawButtons::from_bits(bits),
            Some(PawButtons::from_bits_truncate(bits))
        );
    }
    assert_eq!(PawButtons::from_bits(8), None);
    assert_eq!(PawButtons::from_bits(0x81), None);
}

#[test]
fn buttons_combine_bit_by_bit() {
    for first in 0..8u8 {
        for second in 0..8u8 {
            let a = PawButtons::from_bits_truncate(first);
            let b = PawButtons::from_bits_truncate(second);
            assert_eq!((a | b).bits(), first | second);
            assert_eq!((a & b).bits(), first & second);
            assert_eq!((a ^ b).bits(), first ^ second);
            assert_eq!((a - b).bits(), first & !second);
            assert_eq!(a.contains(b), first & second == second);
            assert_eq!(a.intersects(b), first & second != 0);
            let mut changed = a;
            changed.insert(b);
            assert_eq!(changed, a.union(b));
            changed = a;
            changed.remove(b);
            assert_eq!(changed, a.difference(b));
            changed = a;
            changed.toggle(b);
            assert_eq!(changed, a.symmetric_difference(b));
            changed.set(b, true);
            assert!(changed.contains(b));
            changed.set(b, false);
            assert_eq!(changed, a - b);
        }
        let a = PawButtons::from_bits_truncate(first);
        assert_eq!((!a).bits(), 7 - first);
        assert_eq!(a.is_empty(), first == 0);
        assert_eq!(a.is_all(), first == 7);
    }
}

#[test]
fn buttons_are_named() {
    assert_eq!(PawButtons::empty().flag_names(), "0x0");
    assert_eq!(PawButtons::BOTTOM_WEAK.flag_names(), "BOTTOM_WEAK");
    assert_eq!(
        (PawButtons::TOP | PawButtons::BOTTOM_STRONG).flag_names(),
        "BOTTOM_STRONG | TOP"
    );
    assert_eq!(
        PawButtons::all().flag_names(),
        "BOTTOM_WEAK | BOTTOM_STRONG | TOP"
    );
    assert_eq!(format!("{:?}", PawButtons::TOP), "TOP");
    assert_eq!(format!("{:?}", event(7)), "EventId(7)");
}

#[test]
fn settings_that_cannot_be_sent_start_no_connection() {
    assert_eq!(
        begin(&Settings::default(), true, true),
        Ok((
            Settings::default().to_bytes().unwrap(),
            ConnectStep::Link(LinkStep::Connect)
        ))
    );
    assert_eq!(
        begin(&Settings::default(), false, true).map(|begun| begun.1),
        Ok(ConnectStep::Link(LinkStep::OpenAdapter))
    );
    let settings = with_trigger(TriggerMode::ExternalVoltage(ExternalVoltage {
        event_id: event(1),
        input_mode: VoltageInputMode::InternalPullUp,
        lower_threshold: 3,
        upper_threshold: 2,
        parameter_mapping: 0,
    }));
    assert_eq!(
        begin(&settings, true, true),
        Err(Error::InvalidPawPrintsSettings(
            "voltage lower bound must not exceed upper bound"
        ))
    );
}

#[test]
fn only_the_notify_characteristic_reports_events() {
    let packet = [0x5b, 0x03, 7];
    assert_eq!(
        PawPrintsEvent::from_notification(NOTIFY_CHARACTERISTIC_UUID, &packet),
        Some(PawPrintsEvent::from_bytes(&packet))
    );
    assert_eq!(
        PawPrintsEvent::from_notification(WRITE_CHARACTERISTIC_UUID, &packet),
        None
    );
}

#[test]
fn only_detection_results_have_angles() {
    assert_eq!(PawPrintsEvent::Unknown(vec![1]).angle_ranges(), None);
    let range = DetectedRange {
        lower: i16::MIN,
        upper: i16::MAX,
    };
    assert_eq!(convert_range(range), AngleRange { lower: -128, upper: 127 });
    let range = DetectedRange { lower: -255, upper: 255 };
    assert_eq!(convert_range(range), AngleRange { lower: -127, upper: 127 });
}

#[test]
fn detected_angles_make_valid_settings() {
    let mut packet = vec![0xf1, 0x61];
    packet.extend([0xff, 0x00, 0x00, 0x10, 0x80, 0x00, 0x7f, 0xff, 0x00, 0x02, 0x00, 0x03]);
    let [x, y, z] = PawPrintsEvent::from_bytes(&packet).angle_ranges().unwrap();
    assert_eq!(x, AngleRange { lower: -128, upper: 8 });
    assert_eq!(y, AngleRange { lower: -128, upper: 127 });
    assert_eq!(z, AngleRange { lower: 1, upper: 1 });
    let settings = with_trigger(TriggerMode::Combined(CombinedTrigger {
        button: None,
        motion: Some(MotionTrigger::Angle {
            event_id: event(1),
            x,
            y,
            z,
            trigger_debounce: 0,
            cancel_debounce: 0,
            parameter_mapping: 0,
        }),
    }));
    assert!(settings.to_bytes().is_ok());
}

#[test]
fn first_of_equal_axes_is_dominant() {
    let compare = |x: i32, y: i32, z: i32| {
        AxisDirection::dominant(AxisComparison {
            x_covers_y: x.abs() >= y.abs(),
            x_covers_z: x.abs() >= z.abs(),
            y_covers_z: y.abs() >= z.abs(),
            x_up: x >= 0,
            y_up: y >= 0,
            z_up: z >= 0,
        })
    };
    assert_eq!(compare(0, 0, 0), AxisDirection::PosX);
    assert_eq!(compare(-3, 3, 3), AxisDirection::NegX);
    assert_eq!(compare(1, 3, -3), AxisDirection::PosY);
    assert_eq!(compare(1, -3, 2), AxisDirection::NegY);
    assert_eq!(compare(1, 2, 3), AxisDirection::PosZ);
    assert_eq!(compare(1, 2, -3), AxisDirection::NegZ);
}

#[test]
fn device_is_known_by_its_name() {
    assert!(is_device_name(DEVICE_NAME));
    assert!(is_device_name("47L120300"));
    assert!(!is_device_name("47L120100"));
    assert!(!is_device_name(""));
}

#[test]
fn other_properties_do_not_change_the_write_type() {
    assert_eq!(
        supported_write_type(WRITE | WRITE_WITHOUT_RESPONSE),
        WriteType::WithoutResponse
    );
    assert_eq!(supported_write_type(0), WriteType::WithResponse);
    assert_eq!(supported_write_type(0xfb), WriteType::WithResponse);
}
