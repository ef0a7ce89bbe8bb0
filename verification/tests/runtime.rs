use dungeonctl::coyote3::{
    Breathing, ChannelRuntime, DoNotChangeIntensityShape, EncodedPulse, EncodedPulses,
    EncodedShape, EncodedShapeContext, IntensityChange, IntensityContext, IntensityShape, Pulse,
    RuntimeCore, RuntimeEvent, RuntimeStep, Shape, ShapeContext, State, StateCallbackSlot,
    TableShape, TaskGuard, Tidal, ZeroShape, FRAME_PERIOD_MS,
};
use dungeonctl::Stereo;
use std::sync::{Arc, Mutex};

const BREATHING_EXPECTED: &[(u8, u8)] = &[
    (10, 0),
    (10, 20),
    (10, 40),
    (10, 60),
    (10, 80),
    (10, 100),
    (10, 100),
    (10, 100),
    (10, 0),
    (10, 0),
    (10, 0),
    (10, 0),
];

const TIDAL_EXPECTED: &[(u8, u8)] = &[
    (10, 0),
    (11, 16),
    (13, 33),
    (14, 50),
    (16, 66),
    (18, 83),
    (19, 100),
    (21, 92),
    (22, 84),
    (24, 76),
    (26, 68),
    (26, 0),
    (27, 16),
    (29, 33),
    (30, 50),
    (32, 66),
    (34, 83),
    (35, 100),
    (37, 92),
    (38, 84),
    (40, 76),
    (42, 68),
    (10, 0),
];

fn assert_waveform(shape: &mut impl EncodedShape, expected: &[(u8, u8)]) {
    for &(frequency, intensity) in expected {
        for chunk_index in 0..4 {
            let pulse = shape.next_pulse(EncodedShapeContext {
                chunk_index,
                ..Default::default()
            });
            assert_eq!((pulse.frequency, pulse.intensity), (frequency, intensity));
        }
    }

    let first = shape.next_pulse(EncodedShapeContext::default());
    assert_eq!(
        (first.frequency, first.intensity),
        expected[0],
        "waveform must loop to its first frame"
    );
}

#[test]
fn breathing_matches_the_documented_v3_sequence() {
    assert_waveform(&mut Breathing::new(), BREATHING_EXPECTED);
}

#[test]
fn tidal_matches_the_documented_v3_sequence() {
    assert_waveform(&mut Tidal::new(), TIDAL_EXPECTED);
}

#[test]
fn waveforms_wait_for_the_last_chunk() {
    let mut shape = Tidal::default();
    for _ in 0..10 {
        let pulse = shape.next_pulse(EncodedShapeContext {
            chunk_index: 2,
            ..Default::default()
        });
        assert_eq!((pulse.frequency, pulse.intensity), (10, 0));
    }
    shape.next_pulse(EncodedShapeContext {
        chunk_index: 3,
        ..Default::default()
    });
    let pulse = shape.next_pulse(EncodedShapeContext::default());
    assert_eq!((pulse.frequency, pulse.intensity), (11, 16));
    let first = Breathing::default().next_pulse(EncodedShapeContext::default());
    assert_eq!((first.frequency, first.intensity), (10, 0));
}

struct Echo {
    seen: Vec<ShapeContext>,
}

impl Shape for Echo {
    fn next_pulse(&mut self, context: ShapeContext) -> Pulse {
        self.seen.push(context);
        Pulse {
            frequency: context.frequency + 20,
            intensity: context.pulse_intensity + 30 + context.chunk_index,
        }
    }
}

#[test]
fn shapes_of_users_see_the_pulse_before() {
    let mut channel = ChannelRuntime::new(Echo { seen: Vec::new() }, DoNotChangeIntensityShape);
    let pulse = channel.next_pulse(0, 9);
    assert_eq!(pulse, EncodedPulse { frequency: 50, intensity: 30 });
    let pulse = channel.next_pulse(1, 9);
    assert_eq!(pulse, EncodedPulse { frequency: 25, intensity: 61 });
    let pulse = channel.next_pulse(2, 9);
    assert_eq!(pulse, EncodedPulse { frequency: 16, intensity: 93 });
    let pulse = channel.next_pulse(3, 9);
    assert_eq!(pulse, EncodedPulse { frequency: 12, intensity: 100 });
    channel.set_shape(|context: ShapeContext| {
        assert_eq!(
            context,
            ShapeContext {
                chunk_index: 1,
                frequency: 0,
                channel_intensity: 5,
                pulse_intensity: 0,
            }
        );
        Pulse { frequency: 0, intensity: 1 }
    });
    let pulse = channel.next_pulse(1, 5);
    assert_eq!(pulse, EncodedPulse { frequency: 0, intensity: 1 });
}

#[test]
fn encoded_shapes_of_users_see_what_they_gave() {
    let mut channel = ChannelRuntime::new(ZeroShape, DoNotChangeIntensityShape);
    channel.set_encoded_shape(|context: EncodedShapeContext| EncodedPulse {
        frequency: if context.frequency == 0 { 250 } else { context.frequency - 245 },
        intensity: context.pulse_intensity + context.channel_intensity,
    });
    let pulse = channel.next_pulse(0, 90);
    assert_eq!(pulse, EncodedPulse { frequency: 240, intensity: 90 });
    let pulse = channel.next_pulse(1, 90);
    assert_eq!(pulse, EncodedPulse { frequency: 10, intensity: 100 });
}

struct Countdown(u8);

impl IntensityShape for Countdown {
    fn next_intensity(&mut self, context: IntensityContext) -> IntensityChange {
        self.0 -= 1;
        IntensityChange::AbsoluteChange(self.0 + context.channel_intensity)
    }
}

#[test]
fn intensity_shapes_are_asked_once_per_frame() {
    let mut core = RuntimeCore::default();
    core.set_intensity_shape_a(Countdown(10));
    core.set_intensity_shape_b(|context: IntensityContext| {
        IntensityChange::RelativeDecrease(context.channel_intensity)
    });
    let frame = core.render_frame(Stereo { a: 100, b: 7 });
    assert_eq!(frame.intensity.a, IntensityChange::AbsoluteChange(109));
    assert_eq!(frame.intensity.b, IntensityChange::RelativeDecrease(7));
    let frame = core.render_frame(Stereo { a: 50, b: 8 });
    assert_eq!(frame.intensity.a, IntensityChange::AbsoluteChange(58));
    assert_eq!(frame.intensity.b, IntensityChange::RelativeDecrease(8));
}

#[test]
fn frames_hold_four_chunks_per_channel() {
    let mut core = RuntimeCore::default();
    core.set_shape_a(|context: ShapeContext| Pulse {
        frequency: 100,
        intensity: context.chunk_index,
    });
    core.set_encoded_shape_b(Breathing::new());
    core.render_frame(Stereo { a: 0, b: 0 });
    let frame = core.render_frame(Stereo { a: 0, b: 0 });
    for (index, pulse) in frame.pulses.iter().enumerate() {
        assert_eq!(pulse.a, EncodedPulse { frequency: 10, intensity: index as u8 });
        assert_eq!(pulse.b, EncodedPulse { frequency: 10, intensity: 20 });
    }
    let rows = EncodedPulses::convert_pulses(&frame.pulses);
    assert_eq!(rows, [[10; 4], [0, 1, 2, 3], [10; 4], [20; 4]]);
    core.set_encoded_shape_a(Tidal::new());
    core.set_shape_b(ZeroShape);
    let frame = core.render_frame(Stereo { a: 0, b: 0 });
    for pulse in frame.pulses.iter() {
        assert_eq!(pulse.a, EncodedPulse { frequency: 10, intensity: 0 });
        assert_eq!(pulse.b, EncodedPulse { frequency: 0, intensity: 0 });
    }
}

#[test]
fn intensity_shapes_are_asked_before_pulse_shapes() {
    let asked: Arc<Mutex<Vec<(&str, u8, u8)>>> = Arc::new(Mutex::new(Vec::new()));
    let mut core = RuntimeCore::default();
    let log = Arc::clone(&asked);
    core.set_intensity_shape_a(move |context: IntensityContext| {
        log.lock().unwrap().push(("intensity a", 0, context.channel_intensity));
        IntensityChange::DoNotChange
    });
    let log = Arc::clone(&asked);
    core.set_intensity_shape_b(move |context: IntensityContext| {
        log.lock().unwrap().push(("intensity b", 0, context.channel_intensity));
        IntensityChange::DoNotChange
    });
    let log = Arc::clone(&asked);
    core.set_shape_a(move |context: ShapeContext| {
        let entry = ("pulse a", context.chunk_index, context.channel_intensity);
        log.lock().unwrap().push(entry);
        Pulse { frequency: 0, intensity: 0 }
    });
    let log = Arc::clone(&asked);
    core.set_encoded_shape_b(move |context: EncodedShapeContext| {
        let entry = ("pulse b", context.chunk_index, context.channel_intensity);
        log.lock().unwrap().push(entry);
        EncodedPulse { frequency: 0, intensity: 0 }
    });
    core.render_frame(Stereo { a: 7, b: 8 });
    assert_eq!(
        *asked.lock().unwrap(),
        vec![
            ("intensity a", 0, 7),
            ("intensity b", 0, 8),
            ("pulse a", 0, 7),
            ("pulse b", 0, 8),
            ("pulse a", 1, 7),
            ("pulse b", 1, 8),
            ("pulse a", 2, 7),
            ("pulse b", 2, 8),
            ("pulse a", 3, 7),
            ("pulse b", 3, 8),
        ]
    );
}

#[test]
fn tables_go_on_after_the_last_chunk_alone() {
    const FRAMES: [(u8, u8); 2] = [(20, 1), (30, 2)];
    let mut table = TableShape::new(&FRAMES);
    let context = |chunk_index: u8| EncodedShapeContext {
        chunk_index,
        frequency: 9,
        channel_intensity: 8,
        pulse_intensity: 7,
    };
    let first = EncodedPulse { frequency: 20, intensity: 1 };
    let second = EncodedPulse { frequency: 30, intensity: 2 };
    assert_eq!(table.next_pulse(context(0)), first);
    assert_eq!(table.next_pulse(context(255)), first);
    assert_eq!(table.next_pulse(context(3)), first);
    assert_eq!(table.next_pulse(context(3)), second);
    assert_eq!(table.next_pulse(EncodedShapeContext::default()), first);
    assert_eq!(table.frame_index, 0);
    assert_eq!(table.frames, &FRAMES);
}

#[test]
fn new_runtimes_send_silence() {
    let mut core = RuntimeCore::default();
    let silent = EncodedPulses::silent();
    for _ in 0..3 {
        let frame = core.render_frame(Stereo { a: 200, b: 3 });
        assert_eq!(frame.intensity, silent.intensity);
        assert_eq!(frame.pulses, silent.pulses);
    }
    assert_eq!(EncodedPulses::convert_pulses(&silent.pulses), [[0; 4]; 4]);
    assert_eq!(silent.intensity.a, IntensityChange::DoNotChange);
}

#[test]
fn contexts_default_to_zero() {
    assert_eq!(ShapeContext::default().chunk_index, 0);
    assert_eq!(ShapeContext::default().pulse_intensity, 0);
    assert_eq!(IntensityContext::default().channel_intensity, 0);
    assert_eq!(
        ZeroShape.next_pulse(ShapeContext::default()),
        Pulse { frequency: 0, intensity: 0 }
    );
    assert_eq!(
        DoNotChangeIntensityShape.next_intensity(IntensityContext::default()),
        IntensityChange::DoNotChange
    );
}

#[test]
fn undisturbed_callback_is_put_back() {
    let mut slot = StateCallbackSlot::new();
    assert!(!slot.has_callback());
    assert_eq!(slot.begin_invoke(), (0, None));
    slot.set("first");
    assert!(slot.has_callback());
    let (generation, callback) = slot.begin_invoke();
    assert_eq!(callback, Some("first"));
    assert!(!slot.has_callback());
    slot.finish_invoke(generation, "first");
    assert_eq!(slot.begin_invoke().1, Some("first"));
}

#[test]
fn callback_may_replace_or_remove_itself() {
    let mut slot = StateCallbackSlot::new();
    slot.set("first");
    let (generation, _) = slot.begin_invoke();
    slot.set("second");
    slot.finish_invoke(generation, "first");
    let (generation, callback) = slot.begin_invoke();
    assert_eq!(callback, Some("second"));
    slot.clear();
    slot.finish_invoke(generation, "second");
    assert!(!slot.has_callback());
}

#[test]
fn generations_wrap_around() {
    let mut slot = StateCallbackSlot {
        generation: u64::MAX,
        callback: Some(1),
    };
    let (generation, _) = slot.begin_invoke();
    slot.clear();
    assert_eq!(slot.generation, 0);
    slot.finish_invoke(generation, 1);
    assert!(!slot.has_callback());
}

#[test]
fn running_tasks_are_kept() {
    let mut guard = TaskGuard::new();
    assert!(guard.is_empty());
    assert!(!guard.clear_if_finished(true));
    assert!(guard.make_room(false));
    assert_eq!(guard.replace(1), None);
    assert!(!guard.make_room(false));
    assert_eq!(guard.task, Some(1));
    assert_eq!(guard.replace(2), Some(1));
    assert!(guard.make_room(true));
    assert!(guard.is_empty());
    guard.replace(3);
    assert!(!guard.clear_if_finished(false));
    assert_eq!(guard.abort(), Some(3));
    assert_eq!(guard.abort(), None);
}

#[test]
fn callback_and_frame_get_one_state_until_a_frame_fails() {
    let mut step = RuntimeStep::first();
    assert_eq!(step, RuntimeStep::AwaitTick);
    assert_eq!(FRAME_PERIOD_MS, 100);
    for battery in 0..3u8 {
        let state = State {
            battery,
            ..State::default()
        };
        let later = State {
            battery: 99,
            ..State::default()
        };
        step = step.advance(RuntimeEvent::Due(state));
        assert_eq!(step, RuntimeStep::RunCallback(state));
        assert_eq!(step.advance(RuntimeEvent::Due(later)), step);
        step = step.advance(RuntimeEvent::Done);
        assert_eq!(step, RuntimeStep::SendFrame(state));
        assert_eq!(step.advance(RuntimeEvent::Due(later)), step);
        step = step.advance(RuntimeEvent::Done);
        assert_eq!(step, RuntimeStep::AwaitTick);
        assert_eq!(step.advance(RuntimeEvent::Done), step);
    }
    let due = RuntimeEvent::Due(State::default());
    step = step.advance(due).advance(RuntimeEvent::Done).advance(RuntimeEvent::Failed);
    assert_eq!(step, RuntimeStep::Stopped);
    assert_eq!(step.advance(due), RuntimeStep::Stopped);
}

#[test]
fn frames_are_made_for_the_intensity_of_the_state() {
    let mut core = RuntimeCore::default();
    core.set_intensity_shape_a(|context: IntensityContext| {
        IntensityChange::AbsoluteChange(context.channel_intensity)
    });
    core.set_shape_b(|context: ShapeContext| Pulse {
        frequency: 50,
        intensity: context.channel_intensity,
    });
    let state = State {
        intensity: Stereo { a: 12, b: 34 },
        ..State::default()
    };
    let frame = core.frame_for(state);
    assert_eq!(frame.intensity.a, IntensityChange::AbsoluteChange(12));
    for pulse in frame.pulses.iter() {
        assert_eq!(pulse.b, EncodedPulse { frequency: 20, intensity: 34 });
    }
}
