//! Settings of the triggers.

use crate::bytes;
use crate::error::Error;
use crate::pawprints11::event_id::EventId;
use std::ops::RangeInclusive;
use vstd::prelude::*;

verus! {

/// Main indicator colors accepted by the `0x50` command.
#[derive(Clone, Copy, Debug, PartialEq, Eq, Structural)]
pub enum MainColor {
    /// Yellow.
    Yellow,
    /// Red.
    Red,
    /// Purple.
    Purple,
    /// Blue.
    Blue,
    /// Cyan.
    Cyan,
    /// Green.
    Green,
}

impl MainColor {
    /// The number that stands for this color in a packet.
    pub open spec fn code(self) -> u8 {
        match self {
            MainColor::Yellow => 1,
            MainColor::Red => 2,
            MainColor::Purple => 3,
            MainColor::Blue => 4,
            MainColor::Cyan => 5,
            MainColor::Green => 6,
        }
    }

    /// The color that `value` stands for, if there is one.
    pub open spec fn of_code(value: u8) -> Option<Self> {
        if value == 1 {
            Some(MainColor::Yellow)
        } else if value == 2 {
            Some(MainColor::Red)
        } else if value == 3 {
            Some(MainColor::Purple)
        } else if value == 4 {
            Some(MainColor::Blue)
        } else if value == 5 {
            Some(MainColor::Cyan)
        } else if value == 6 {
            Some(MainColor::Green)
        } else {
            None
        }
    }

    /// Return the number that stands for this color in a packet.
    pub fn raw(self) -> (value: u8)
        ensures
            value == self.code(),
    {
        match self {
            MainColor::Yellow => 1,
            MainColor::Red => 2,
            MainColor::Purple => 3,
            MainColor::Blue => 4,
            MainColor::Cyan => 5,
            MainColor::Green => 6,
        }
    }

    /// Return the color that `value` stands for, if there is one.
    pub fn from_raw(value: u8) -> (result: Option<Self>)
        ensures
            result == MainColor::of_code(value),
    {
        match value {
            1 => Some(MainColor::Yellow),
            2 => Some(MainColor::Red),
            3 => Some(MainColor::Purple),
            4 => Some(MainColor::Blue),
            5 => Some(MainColor::Cyan),
            6 => Some(MainColor::Green),
            _ => None,
        }
    }
}

/// Complete V1.1 `0x50` settings.
#[derive(Clone, Debug, PartialEq, Eq)]
pub struct Settings {
    /// Main indicator color.
    pub main_color: MainColor,
    /// Trigger configuration.
    pub trigger: TriggerMode,
}

impl Default for Settings {
    fn default() -> (settings: Self)
        ensures
            settings.main_color == MainColor::Yellow,
            settings.trigger == TriggerMode::Disabled,
    {
        Settings { main_color: MainColor::Yellow, trigger: TriggerMode::Disabled }
    }
}

/// A V1.1 trigger configuration.
#[derive(Clone, Debug, PartialEq, Eq)]
pub enum TriggerMode {
    /// Disable all trigger behavior (`0x00`).
    Disabled,
    /// Random-reaction mode (`0x03`).
    RandomReaction(RandomReaction),
    /// Probability mode (`0x04`).
    Probability {
        /// Six optional event/probability slots.
        events: [Option<ProbabilityEvent>; 6],
        /// Cooldown in seconds.
        cooldown: u16,
    },
    /// Combined button and motion mode (`0x05`).
    Combined(CombinedTrigger),
    /// External-voltage mode (`0x0f`).
    ExternalVoltage(ExternalVoltage),
    /// Physical-data stream (`0xd0`).
    PhysicalData,
}

/// Random-reaction settings.
#[derive(Clone, Debug, PartialEq, Eq)]
pub struct RandomReaction {
    /// Event to emit on failure to react.
    pub event_id: EventId,
    /// Inclusive random delay bounds in seconds.
    pub random_delay: RangeInclusive<u16>,
    /// Reaction window in seconds.
    pub reaction_time: u16,
    /// Immediate parameter increase on trigger.
    pub trigger_increase: u8,
    /// Parameter increase speed during trigger.
    pub trigger_increase_speed: u8,
    /// Immediate parameter decrease on cancellation.
    pub cancel_decrease: u8,
    /// Parameter decrease speed after cancellation.
    pub cancel_decrease_speed: u8,
}

/// One probability-event slot.
#[derive(Clone, Copy, Debug, PartialEq, Eq)]
pub struct ProbabilityEvent {
    /// Event identifier.
    pub event_id: EventId,
    /// Probability in half-percent units (`0..=200`).
    pub probability: u8,
}

/// Button and optional motion configuration sharing mode `0x05`.
#[derive(Clone, Debug, PartialEq, Eq)]
pub struct CombinedTrigger {
    /// Optional button trigger.
    pub button: Option<ButtonTrigger>,
    /// Optional acceleration or angle trigger.
    pub motion: Option<MotionTrigger>,
}

/// Button edge settings.
#[derive(Clone, Copy, Debug, PartialEq, Eq)]
pub struct ButtonTrigger {
    /// Event identifier.
    pub event_id: EventId,
    /// Triggering edge.
    pub edge: ButtonEdge,
    /// Parameter increase speed during trigger.
    pub trigger_increase_speed: u8,
    /// Immediate parameter decrease on cancellation.
    pub cancel_decrease: u8,
    /// Parameter decrease speed after cancellation.
    pub cancel_decrease_speed: u8,
    /// Immediate parameter increase on trigger.
    pub trigger_increase: u8,
}

/// Button trigger edge.
#[derive(Clone, Copy, Debug, PartialEq, Eq, Structural)]
pub enum ButtonEdge {
    /// Press edge.
    Press,
    /// Release edge.
    Release,
}

/// Threshold comparison direction.
#[derive(Clone, Copy, Debug, PartialEq, Eq, Structural)]
pub enum ThresholdComparison {
    /// Trigger below the threshold.
    Below,
    /// Trigger above the threshold.
    Above,
}

/// Inclusive signed angle interval.
#[derive(Clone, Copy, Debug, PartialEq, Eq, Structural)]
pub struct AngleRange {
    /// Lower bound.
    pub lower: i8,
    /// Upper bound.
    pub upper: i8,
}

/// Motion portion of combined mode.
#[derive(Clone, Copy, Debug, PartialEq, Eq)]
pub enum MotionTrigger {
    /// Overall acceleration threshold.
    Acceleration {
        /// Event identifier.
        event_id: EventId,
        /// Comparison direction.
        comparison: ThresholdComparison,
        /// Threshold (`0..=400`).
        threshold: u16,
        /// Trigger debounce (`0..=7`).
        trigger_debounce: u8,
        /// Cancellation debounce (`0..=7`).
        cancel_debounce: u8,
        /// Parameter mapping range.
        parameter_mapping: u8,
    },
    /// XYZ angle windows.
    Angle {
        /// Event identifier.
        event_id: EventId,
        /// X-axis window.
        x: AngleRange,
        /// Y-axis window.
        y: AngleRange,
        /// Z-axis window.
        z: AngleRange,
        /// Trigger debounce (`0..=7`).
        trigger_debounce: u8,
        /// Cancellation debounce (`0..=7`).
        cancel_debounce: u8,
        /// Parameter mapping range.
        parameter_mapping: u8,
    },
}

/// External input electrical mode.
#[derive(Clone, Copy, Debug, PartialEq, Eq, Structural)]
pub enum VoltageInputMode {
    /// Enable the documented internal pull-up network (`0`).
    InternalPullUp,
    /// High-impedance input (`1`).
    HighImpedance,
}

/// External-voltage trigger settings.
#[derive(Clone, Copy, Debug, PartialEq, Eq)]
pub struct ExternalVoltage {
    /// Event identifier.
    pub event_id: EventId,
    /// Input electrical mode.
    pub input_mode: VoltageInputMode,
    /// Lower target voltage in centivolts (`0..=210`).
    pub lower_threshold: u8,
    /// Upper target voltage in centivolts (`0..=210`).
    pub upper_threshold: u8,
    /// Parameter mapping voltage in centivolts (`0..=210`).
    pub parameter_mapping: u8,
}

// Trusted statements about the standard library.

/// `RangeInclusive::start` of the standard library returns the lower bound of a range that
/// iteration has not used up. Nothing is claimed of a range that it has.
pub assume_specification<Idx>[ RangeInclusive::<Idx>::start ](
    range: &RangeInclusive<Idx>,
) -> (start: &Idx)
    ensures
        !range@.exhausted ==> *start == range@.start,
;

/// `RangeInclusive::end` of the standard library returns the upper bound of a range that
/// iteration has not used up. Nothing is claimed of a range that it has.
pub assume_specification<Idx>[ RangeInclusive::<Idx>::end ](
    range: &RangeInclusive<Idx>,
) -> (end: &Idx)
    ensures
        !range@.exhausted ==> *end == range@.end,
;

/// `RangeInclusive::clone` of the standard library, which the derived `Clone` of the settings
/// calls. Nothing is claimed of the copy.
pub assume_specification<Idx: Clone>[ <RangeInclusive<Idx> as Clone>::clone ](
    range: &RangeInclusive<Idx>,
) -> RangeInclusive<Idx>
;

/// `RangeInclusive::is_empty` of the standard library, on `u16` bounds: it tells whether
/// iteration has used the range up or the lower bound exceeds the upper bound.
#[verifier::external_body]
fn delay_is_empty(delay: &RangeInclusive<u16>) -> (empty: bool)
    ensures
        empty == (delay@.exhausted || delay@.start > delay@.end),
{
    delay.is_empty()
}

// The meaning of the settings.

/// The sum of the probabilities in the first `count` slots.
pub open spec fn probability_sum(events: Seq<Option<ProbabilityEvent>>, count: int) -> int
    decreases count,
{
    if count <= 0 {
        0
    } else {
        probability_sum(events, count - 1) + requested_probability(events[count - 1])
    }
}

/// The probability that a slot asks for; an empty slot asks for none.
pub open spec fn requested_probability(slot: Option<ProbabilityEvent>) -> u8 {
    match slot {
        Some(event) => event.probability,
        None => 0,
    }
}

/// At most `200` half percents can be given away.
pub open spec fn at_most_all(probability: int) -> int {
    if probability <= 200 {
        probability
    } else {
        200
    }
}

/// The probability that the slot at `index` is sent with: slots are served in order, and a slot
/// gets what it asks for as long as no more than `200` half percents are given away in all.
pub open spec fn granted_probability(
    events: Seq<Option<ProbabilityEvent>>,
    index: int,
) -> u8 {
    (at_most_all(probability_sum(events, index + 1)) - at_most_all(
        probability_sum(events, index),
    )) as u8
}

/// The event number that a slot is sent with; zero marks an empty slot.
pub open spec fn slot_number(slot: Option<ProbabilityEvent>) -> u8 {
    match slot {
        Some(event) => event.event_id.number(),
        None => 0,
    }
}

/// Whether no event occurs in two slots.
pub open spec fn events_are_unique(events: Seq<Option<ProbabilityEvent>>) -> bool {
    forall|i: int, j: int|
        0 <= i < j < events.len() && events[i] is Some && events[j] is Some ==> slot_number(
            #[trigger] events[i],
        ) != slot_number(#[trigger] events[j])
}

/// What `flag` adds to a byte in which it has the value `weight`.
pub open spec fn flag_value(flag: bool, weight: int) -> int {
    if flag {
        weight
    } else {
        0
    }
}

impl AngleRange {
    /// Whether the bounds are in order.
    pub open spec fn ordered(self) -> bool {
        self.lower <= self.upper
    }
}

impl MotionTrigger {
    /// The two debounce times, trigger first.
    pub open spec fn debounce(self) -> (u8, u8) {
        match self {
            MotionTrigger::Acceleration { trigger_debounce, cancel_debounce, .. } => (
                trigger_debounce,
                cancel_debounce,
            ),
            MotionTrigger::Angle { trigger_debounce, cancel_debounce, .. } => (
                trigger_debounce,
                cancel_debounce,
            ),
        }
    }

    /// Why this trigger cannot be sent, if it cannot.
    pub open spec fn problem(self) -> Option<Seq<char>> {
        if self.debounce().0 > 7 || self.debounce().1 > 7 {
            Some("debounce must not exceed 7"@)
        } else {
            match self {
                MotionTrigger::Acceleration { threshold, .. } => if threshold > 400 {
                    Some("acceleration threshold must not exceed 400"@)
                } else {
                    None
                },
                MotionTrigger::Angle { x, y, z, .. } => if x.ordered() && y.ordered()
                    && z.ordered() {
                    None
                } else {
                    Some("angle lower bound must not exceed upper bound"@)
                },
            }
        }
    }

    /// What this trigger adds to the byte of flags.
    pub open spec fn flags(self) -> int {
        flag_value(self is Angle, 64) + self.debounce().0 * 8 + self.debounce().1
    }

    /// The eight bytes that describe this trigger.
    pub open spec fn encoded(self) -> Seq<u8> {
        match self {
            MotionTrigger::Acceleration {
                event_id,
                comparison,
                threshold,
                parameter_mapping,
                ..
            } => seq![
                event_id.number(),
                flag_value(comparison == ThresholdComparison::Above, 1) as u8,
                bytes::high_byte(threshold),
                bytes::low_byte(threshold),
                0,
                0,
                0,
                parameter_mapping,
            ],
            MotionTrigger::Angle { event_id, x, y, z, parameter_mapping, .. } => seq![
                event_id.number(),
                bytes::signed_byte(x.lower),
                bytes::signed_byte(x.upper),
                bytes::signed_byte(y.lower),
                bytes::signed_byte(y.upper),
                bytes::signed_byte(z.lower),
                bytes::signed_byte(z.upper),
                parameter_mapping,
            ],
        }
    }
}

impl CombinedTrigger {
    /// The byte that holds the button edge, the kind of motion and the debounce times.
    pub open spec fn flags(self) -> u8 {
        (flag_value(
            self.button is Some && self.button->0.edge == ButtonEdge::Release,
            128,
        ) + match self.motion {
            Some(motion) => motion.flags(),
            None => 0,
        }) as u8
    }

    /// The fourteen bytes that describe this trigger.
    pub open spec fn encoded(self) -> Seq<u8> {
        (match self.button {
            Some(button) => seq![
                button.event_id.number(),
                self.flags(),
                button.trigger_increase_speed,
                button.cancel_decrease,
                button.cancel_decrease_speed,
                button.trigger_increase,
            ],
            None => seq![0, self.flags(), 0, 0, 0, 0],
        }) + match self.motion {
            Some(motion) => motion.encoded(),
            None => seq![0, 0, 0, 0, 0, 0, 0, 0],
        }
    }
}

impl TriggerMode {
    /// Why this configuration cannot be sent, if it cannot.
    pub open spec fn problem(self) -> Option<Seq<char>> {
        match self {
            TriggerMode::Disabled | TriggerMode::PhysicalData => None,
            TriggerMode::RandomReaction(value) => {
                let delay = value.random_delay@;
                if delay.exhausted || delay.start > delay.end {
                    Some("random delay lower bound must not exceed upper bound"@)
                } else if delay.start == 0 || value.reaction_time == 0 {
                    Some("random delay and reaction time must be at least 1 second"@)
                } else {
                    None
                }
            },
            TriggerMode::Probability { events, cooldown } => if events_are_unique(events@) {
                None
            } else {
                Some("probability event ids must be unique"@)
            },
            TriggerMode::Combined(value) => match value.motion {
                Some(motion) => motion.problem(),
                None => None,
            },
            TriggerMode::ExternalVoltage(value) => if value.lower_threshold > 210
                || value.upper_threshold > 210 || value.parameter_mapping > 210 {
                Some("voltage values must not exceed 210"@)
            } else if value.lower_threshold > value.upper_threshold {
                Some("voltage lower bound must not exceed upper bound"@)
            } else {
                None
            },
        }
    }

    /// The fifteen bytes that describe this configuration.
    pub open spec fn encoded(self) -> Seq<u8> {
        match self {
            TriggerMode::Disabled => seq![0, 0, 0, 0, 0, 0, 0, 0, 0, 0, 0, 0, 0, 0, 0],
            TriggerMode::RandomReaction(value) => seq![
                0x03,
                value.event_id.number(),
                bytes::high_byte(value.random_delay@.start),
                bytes::low_byte(value.random_delay@.start),
                bytes::high_byte(value.random_delay@.end),
                bytes::low_byte(value.random_delay@.end),
                bytes::high_byte(value.reaction_time),
                bytes::low_byte(value.reaction_time),
                value.trigger_increase,
                value.trigger_increase_speed,
                value.cancel_decrease,
                value.cancel_decrease_speed,
                0,
                0,
                0,
            ],
            TriggerMode::Probability { events, cooldown } => seq![
                0x04,
                slot_number(events@[0]),
                granted_probability(events@, 0),
                slot_number(events@[1]),
                granted_probability(events@, 1),
                slot_number(events@[2]),
                granted_probability(events@, 2),
                slot_number(events@[3]),
                granted_probability(events@, 3),
                slot_number(events@[4]),
                granted_probability(events@, 4),
                slot_number(events@[5]),
                granted_probability(events@, 5),
                bytes::high_byte(cooldown),
                bytes::low_byte(cooldown),
            ],
            TriggerMode::Combined(value) => seq![0x05u8] + value.encoded(),
            TriggerMode::ExternalVoltage(value) => seq![
                0x0f,
                value.event_id.number(),
                flag_value(value.input_mode == VoltageInputMode::HighImpedance, 1) as u8,
                value.lower_threshold,
                value.upper_threshold,
                value.parameter_mapping,
                0,
                0,
                0,
                0,
                0,
                0,
                0,
                0,
                0,
            ],
            TriggerMode::PhysicalData => seq![0xd0, 0, 0, 0, 0, 0, 0, 0, 0, 0, 0, 0, 0, 0, 0],
        }
    }
}

impl Settings {
    /// The seventeen bytes of the `0x50` packet.
    pub open spec fn encoded(self) -> Seq<u8> {
        seq![0x50u8, self.main_color.code()] + self.trigger.encoded()
    }
}

/// Check that both debounce times are in `0..=7`.
pub fn validate_debounce(trigger: u8, cancel: u8) -> (result: Result<(), Error>)
    ensures
        match result {
            Ok(()) => trigger <= 7 && cancel <= 7,
            Err(error) => !(trigger <= 7 && cancel <= 7) && error
                == Error::InvalidPawPrintsSettings("debounce must not exceed 7"),
        },
{
    if trigger <= 7 && cancel <= 7 {
        Ok(())
    } else {
        Err(Error::InvalidPawPrintsSettings("debounce must not exceed 7"))
    }
}

/// The bytes of a button trigger without its flag, and the flag.
fn button_bytes(button: Option<ButtonTrigger>) -> (result: ([u8; 5], u8))
    ensures
        result.0@ == match button {
            Some(button) => seq![
                button.event_id.number(),
                button.trigger_increase_speed,
                button.cancel_decrease,
                button.cancel_decrease_speed,
                button.trigger_increase,
            ],
            None => seq![0, 0, 0, 0, 0],
        },
        result.1 == flag_value(button is Some && button->0.edge == ButtonEdge::Release, 128),
{
    match button {
        Some(button) => {
            let fields = [
                button.event_id.get(),
                button.trigger_increase_speed,
                button.cancel_decrease,
                button.cancel_decrease_speed,
                button.trigger_increase,
            ];
            (
                fields,
                if button.edge == ButtonEdge::Release {
                    0x80
                } else {
                    0
                },
            )
        },
        None => ([0, 0, 0, 0, 0], 0),
    }
}

/// The bytes of a motion trigger, and what it adds to the byte of flags.
fn motion_bytes(motion: MotionTrigger) -> (result: Result<([u8; 8], u8), Error>)
    ensures
        match result {
            Ok((fields, flags)) => {
                &&& motion.problem() is None
                &&& fields@ == motion.encoded()
                &&& flags == motion.flags()
                &&& flags <= 127
            },
            Err(error) => error matches Error::InvalidPawPrintsSettings(reason)
                && motion.problem() == Some(reason@),
        },
{
    match motion {
        MotionTrigger::Acceleration {
            event_id,
            comparison,
            threshold,
            trigger_debounce,
            cancel_debounce,
            parameter_mapping,
        } => {
            match validate_debounce(trigger_debounce, cancel_debounce) {
                Ok(()) => {},
                Err(error) => {
                    return Err(error);
                },
            }
            if threshold > 400 {
                return Err(
                    Error::InvalidPawPrintsSettings("acceleration threshold must not exceed 400"),
                );
            }
            let limit: (u8, u8) = bytes::split(threshold);
            let fields = [
                event_id.get(),
                if comparison == ThresholdComparison::Above {
                    1
                } else {
                    0
                },
                limit.0,
                limit.1,
                0,
                0,
                0,
                parameter_mapping,
            ];
            assert(fields@ =~= motion.encoded());
            Ok((fields, trigger_debounce * 8 + cancel_debounce))
        },
        MotionTrigger::Angle {
            event_id,
            x,
            y,
            z,
            trigger_debounce,
            cancel_debounce,
            parameter_mapping,
        } => {
            match validate_debounce(trigger_debounce, cancel_debounce) {
                Ok(()) => {},
                Err(error) => {
                    return Err(error);
                },
            }
            if x.lower > x.upper || y.lower > y.upper || z.lower > z.upper {
                return Err(
                    Error::InvalidPawPrintsSettings("angle lower bound must not exceed upper bound"),
                );
            }
            let fields = [
                event_id.get(),
                bytes::to_signed_byte(x.lower),
                bytes::to_signed_byte(x.upper),
                bytes::to_signed_byte(y.lower),
                bytes::to_signed_byte(y.upper),
                bytes::to_signed_byte(z.lower),
                bytes::to_signed_byte(z.upper),
                parameter_mapping,
            ];
            assert(fields@ =~= motion.encoded());
            Ok((fields, 0x40 + trigger_debounce * 8 + cancel_debounce))
        },
    }
}

/// Tell whether no event occurs in two slots.
fn check_unique(events: &[Option<ProbabilityEvent>; 6]) -> (unique: bool)
    ensures
        unique == events_are_unique(events@),
{
    let mut seen: [bool; 25] = [false; 25];
    let mut index: usize = 0;
    while index < 6
        invariant
            index <= 6,
            forall|i: int, j: int|
                0 <= i < j < index && events@[i] is Some && events@[j] is Some ==> slot_number(
                    #[trigger] events@[i],
                ) != slot_number(#[trigger] events@[j]),
            forall|number: int|
                0 <= number < 25 ==> (#[trigger] seen@[number] <==> exists|i: int|
                    0 <= i < index && events@[i] is Some && slot_number(#[trigger] events@[i])
                        == number),
        decreases 6 - index,
    {
        if let Some(event) = events[index] {
            let number: usize = event.event_id.get() as usize;
            if seen[number] {
                assert(exists|i: int|
                    0 <= i < index && events@[i] is Some && slot_number(#[trigger] events@[i])
                        == number);
                return false;
            }
            seen[number] = true;
        }
        index = index + 1;
    }
    true
}

/// The event numbers of the six slots.
fn slot_numbers(events: &[Option<ProbabilityEvent>; 6]) -> (numbers: [u8; 6])
    ensures
        forall|i: int| 0 <= i < 6 ==> #[trigger] numbers@[i] == slot_number(events@[i]),
{
    let mut numbers: [u8; 6] = [0; 6];
    let mut index: usize = 0;
    while index < 6
        invariant
            index <= 6,
            forall|i: int| 0 <= i < index ==> #[trigger] numbers@[i] == slot_number(events@[i]),
            forall|i: int| index <= i < 6 ==> #[trigger] numbers@[i] == 0,
        decreases 6 - index,
    {
        if let Some(event) = events[index] {
            numbers[index] = event.event_id.get();
        }
        index = index + 1;
    }
    numbers
}

/// The sums of the first slots grow with the number of slots.
proof fn sums_grow(events: Seq<Option<ProbabilityEvent>>, fewer: int, more: int)
    requires
        0 <= fewer <= more,
    ensures
        0 <= probability_sum(events, fewer) <= probability_sum(events, more),
        probability_sum(events, more) <= probability_sum(events, fewer) + 255 * (more - fewer),
    decreases more,
{
    if fewer < more {
        sums_grow(events, fewer, more - 1);
    } else if fewer > 0 {
        sums_grow(events, fewer - 1, more - 1);
    }
}

/// Serve the slots in order until all probability is given away.
fn grant_probabilities(events: &[Option<ProbabilityEvent>; 6]) -> (granted: [u8; 6])
    ensures
        forall|i: int| 0 <= i < 6 ==> #[trigger] granted@[i] == granted_probability(events@, i),
{
    let mut granted: [u8; 6] = [0; 6];
    let mut total: u16 = 0;
    let mut index: usize = 0;
    while index < 6
        invariant
            index <= 6,
            total == probability_sum(events@, index as int),
            total <= 255 * index,
            forall|i: int|
                0 <= i < index ==> #[trigger] granted@[i] == requested_probability(events@[i]),
            forall|i: int| index <= i < 6 ==> #[trigger] granted@[i] == 0,
        decreases 6 - index,
    {
        if let Some(event) = events[index] {
            total = total + event.probability as u16;
            granted[index] = event.probability;
        }
        index = index + 1;
    }
    let ghost all = total;
    // Take back what was given away too much, from the last slot on.
    while index > 0 && total > 200
        invariant
            index <= 6,
            all == probability_sum(events@, 6),
            total == if probability_sum(events@, index as int) > at_most_all(all as int) {
                probability_sum(events@, index as int)
            } else {
                at_most_all(all as int)
            },
            forall|i: int|
                0 <= i < index ==> #[trigger] granted@[i] == requested_probability(events@[i]),
            forall|i: int|
                index <= i < 6 ==> #[trigger] granted@[i] == granted_probability(events@, i),
        decreases index,
    {
        proof {
            sums_grow(events@, index as int, 6);
            sums_grow(events@, index - 1, index as int);
            sums_grow(events@, 0, index - 1);
        }
        index = index - 1;
        let excess: u16 = total - 200;
        let reduction: u8 = if excess < granted[index] as u16 {
            excess as u8
        } else {
            granted[index]
        };
        granted[index] = granted[index] - reduction;
        total = total - reduction as u16;
    }
    assert forall|i: int| 0 <= i < index implies #[trigger] granted@[i] == granted_probability(
        events@,
        i,
    ) by {
        sums_grow(events@, i, i + 1);
        sums_grow(events@, 0, i);
        sums_grow(events@, i + 1, index as int);
    }
    granted
}

impl Settings {
    /// Validate and serialize this `0x50` packet.
    pub fn to_bytes(&self) -> (result: Result<[u8; 17], Error>)
        ensures
            match result {
                Ok(packet) => self.trigger.problem() is None && packet@ == self.encoded(),
                Err(error) => error matches Error::InvalidPawPrintsSettings(reason)
                    && self.trigger.problem() == Some(reason@),
            },
    {
        let color: u8 = self.main_color.raw();
        match &self.trigger {
            TriggerMode::Disabled => {
                let packet = [0x50u8, color, 0, 0, 0, 0, 0, 0, 0, 0, 0, 0, 0, 0, 0, 0, 0];
                assert(packet@ =~= self.encoded());
                Ok(packet)
            },
            TriggerMode::RandomReaction(value) => {
                if delay_is_empty(&value.random_delay) {
                    return Err(
                        Error::InvalidPawPrintsSettings(
                            "random delay lower bound must not exceed upper bound",
                        ),
                    );
                }
                if *value.random_delay.start() == 0 || value.reaction_time == 0 {
                    return Err(
                        Error::InvalidPawPrintsSettings(
                            "random delay and reaction time must be at least 1 second",
                        ),
                    );
                }
                let start: (u8, u8) = bytes::split(*value.random_delay.start());
                let end: (u8, u8) = bytes::split(*value.random_delay.end());
                let reaction: (u8, u8) = bytes::split(value.reaction_time);
                let packet = [
                    0x50u8,
                    color,
                    0x03,
                    value.event_id.get(),
                    start.0,
                    start.1,
                    end.0,
                    end.1,
                    reaction.0,
                    reaction.1,
                    value.trigger_increase,
                    value.trigger_increase_speed,
                    value.cancel_decrease,
                    value.cancel_decrease_speed,
                    0,
                    0,
                    0,
                ];
                assert(packet@ =~= self.encoded());
                Ok(packet)
            },
            TriggerMode::PhysicalData => {
                let packet = [0x50u8, color, 0xd0, 0, 0, 0, 0, 0, 0, 0, 0, 0, 0, 0, 0, 0, 0];
                assert(packet@ =~= self.encoded());
                Ok(packet)
            },
            TriggerMode::ExternalVoltage(value) => {
                if value.lower_threshold > 210 || value.upper_threshold > 210
                    || value.parameter_mapping > 210 {
                    return Err(
                        Error::InvalidPawPrintsSettings("voltage values must not exceed 210"),
                    );
                }
                if value.lower_threshold > value.upper_threshold {
                    return Err(
                        Error::InvalidPawPrintsSettings(
                            "voltage lower bound must not exceed upper bound",
                        ),
                    );
                }
                let packet = [
                    0x50u8,
                    color,
                    0x0f,
                    value.event_id.get(),
                    if value.input_mode == VoltageInputMode::HighImpedance {
                        1
                    } else {
                        0
                    },
                    value.lower_threshold,
                    value.upper_threshold,
                    value.parameter_mapping,
                    0,
                    0,
                    0,
                    0,
                    0,
                    0,
                    0,
                    0,
                    0,
                ];
                assert(packet@ =~= self.encoded());
                Ok(packet)
            },
            TriggerMode::Probability { events, cooldown } => {
                if !check_unique(events) {
                    return Err(
                        Error::InvalidPawPrintsSettings("probability event ids must be unique"),
                    );
                }
                let numbers: [u8; 6] = slot_numbers(events);
                let granted: [u8; 6] = grant_probabilities(events);
                let pause: (u8, u8) = bytes::split(*cooldown);
                let packet = [
                    0x50u8,
                    color,
                    0x04,
                    numbers[0],
                    granted[0],
                    numbers[1],
                    granted[1],
                    numbers[2],
                    granted[2],
                    numbers[3],
                    granted[3],
                    numbers[4],
                    granted[4],
                    numbers[5],
                    granted[5],
                    pause.0,
                    pause.1,
                ];
                assert(packet@ =~= self.encoded());
                Ok(packet)
            },
            TriggerMode::Combined(value) => {
                let (button, release): ([u8; 5], u8) = button_bytes(value.button);
                let (motion, flags): ([u8; 8], u8) = match value.motion {
                    Some(motion) => match motion_bytes(motion) {
                        Ok(fields) => fields,
                        Err(error) => {
                            return Err(error);
                        },
                    },
                    None => ([0, 0, 0, 0, 0, 0, 0, 0], 0),
                };
                let packet = [
                    0x50u8,
                    color,
                    0x05,
                    button[0],
                    release + flags,
                    button[1],
                    button[2],
                    button[3],
                    button[4],
                    motion[0],
                    motion[1],
                    motion[2],
                    motion[3],
                    motion[4],
                    motion[5],
                    motion[6],
                    motion[7],
                ];
                assert(packet@ =~= self.encoded());
                Ok(packet)
            },
        }
    }
}

// Laws.

/// The sum of the probabilities that the first `count` slots are sent with.
pub open spec fn granted_sum(events: Seq<Option<ProbabilityEvent>>, count: int) -> int
    decreases count,
{
    if count <= 0 {
        0
    } else {
        granted_sum(events, count - 1) + granted_probability(events, count - 1)
    }
}

/// However much the slots ask for, no more than `200` half percents are given away, and none is
/// withheld before that.
pub proof fn granted_probabilities_never_exceed_all(
    events: Seq<Option<ProbabilityEvent>>,
    count: int,
)
    requires
        0 <= count <= events.len(),
    ensures
        granted_sum(events, count) == at_most_all(probability_sum(events, count)),
        granted_sum(events, count) <= 200,
    decreases count,
{
    if count > 0 {
        granted_probabilities_never_exceed_all(events, count - 1);
        sums_grow(events, count - 1, count);
    }
}

/// A slot never gets more than it asks for, and gets all of it where all slots together ask for
/// no more than `200` half percents.
pub proof fn granted_probability_is_what_is_left(
    events: Seq<Option<ProbabilityEvent>>,
    index: int,
)
    requires
        0 <= index < events.len(),
    ensures
        granted_probability(events, index) <= requested_probability(events[index]),
        probability_sum(events, events.len() as int) <= 200 ==> granted_probability(events, index)
            == requested_probability(events[index]),
{
    sums_grow(events, 0, index);
    sums_grow(events, index, index + 1);
    sums_grow(events, index + 1, events.len() as int);
}

/// Every packet of settings has seventeen bytes and starts with `0x50` and the main color.
pub proof fn settings_packet_shape(settings: Settings)
    ensures
        settings.encoded().len() == 17,
        settings.encoded()[0] == 0x50,
        settings.encoded()[1] == settings.main_color.code(),
{
}

/// A color is read back from its number, and only the numbers `1..=6` stand for colors.
pub proof fn main_color_round_trip(color: MainColor, value: u8)
    ensures
        MainColor::of_code(color.code()) == Some(color),
        MainColor::of_code(value) is Some <==> 1 <= value <= 6,
        MainColor::of_code(value) matches Some(read) ==> read.code() == value,
{
}

/// The flags of a motion trigger that can be sent leave the bit of the button edge free, and
/// hold both debounce times and the kind of motion.
pub proof fn motion_flags_are_separate(motion: MotionTrigger)
    requires
        motion.problem() is None,
    ensures
        0 <= motion.flags() <= 127,
        motion.flags() / 64 == flag_value(motion is Angle, 1),
        motion.flags() % 64 / 8 == motion.debounce().0,
        motion.flags() % 8 == motion.debounce().1,
{
}

} // verus!
