//! What the PawPrints V1.1 protocol promises, in terms of its bytes and of the fields of its values.

use crate::pawprints11::accel::{AxisComparison, AxisDirection, RawAccel};
use crate::pawprints11::buttons::PawButtons;
use crate::pawprints11::command::{Command, FlashSpeed, ShoulderColor};
use crate::pawprints11::event::{self, DetectedRange, PawPrintsEvent};
use crate::pawprints11::event_id::{self, EventId};
use crate::pawprints11::settings::{
    self, AngleRange, ButtonTrigger, CombinedTrigger, ExternalVoltage, MainColor, MotionTrigger,
    ProbabilityEvent, RandomReaction, Settings, ThresholdComparison, TriggerMode,
};
use vstd::prelude::*;

verus! {

// Words that the laws use.

/// Whether the bytes of `packet` from `start` up to `end` are zero.
pub open spec fn are_zero(packet: Seq<u8>, start: int, end: int) -> bool {
    forall|i: int| start <= i < end ==> packet[i] == 0
}

/// Whether `byte` is one where `flag` is set and else zero.
pub open spec fn is_flag(byte: u8, flag: bool) -> bool {
    &&& flag ==> byte == 1
    &&& !flag ==> byte == 0
}

/// Whether `byte` stands for `value` in two's complement.
pub open spec fn is_signed(byte: u8, value: i8) -> bool {
    (byte - value) % 256 == 0
}

/// Whether the two bytes from `start` on stand for `value` in two's complement, the more significant
/// one first.
pub open spec fn is_number(packet: Seq<u8>, start: int, value: i16) -> bool {
    (256 * packet[start] + packet[start + 1] - value) % 65536 == 0
}

/// Whether `byte` is the number of `color`.
pub open spec fn is_main_color(byte: u8, color: MainColor) -> bool {
    &&& 1 <= byte <= 6
    &&& color is Yellow <==> byte == 1
    &&& color is Red <==> byte == 2
    &&& color is Purple <==> byte == 3
    &&& color is Blue <==> byte == 4
    &&& color is Cyan <==> byte == 5
    &&& color is Green <==> byte == 6
}

/// Whether `byte` is the number of `color`.
pub open spec fn is_shoulder_color(byte: u8, color: ShoulderColor) -> bool {
    &&& byte <= 7
    &&& color is Off <==> byte == 0
    &&& color is Yellow <==> byte == 1
    &&& color is Red <==> byte == 2
    &&& color is Purple <==> byte == 3
    &&& color is Blue <==> byte == 4
    &&& color is Cyan <==> byte == 5
    &&& color is Green <==> byte == 6
    &&& color is White <==> byte == 7
}

/// Whether the flag of a weakly pressed bottom button belongs to `buttons`.
pub open spec fn has_weak(buttons: PawButtons) -> bool {
    buttons is BOTTOM_WEAK || buttons is BOTTOM_WEAK_STRONG || buttons is BOTTOM_WEAK_TOP
        || buttons is ALL
}

/// Whether the flag of a strongly pressed bottom button belongs to `buttons`.
pub open spec fn has_strong(buttons: PawButtons) -> bool {
    buttons is BOTTOM_STRONG || buttons is BOTTOM_WEAK_STRONG || buttons is BOTTOM_STRONG_TOP
        || buttons is ALL
}

/// Whether the flag of the top button belongs to `buttons`.
pub open spec fn has_top(buttons: PawButtons) -> bool {
    buttons is TOP || buttons is BOTTOM_WEAK_TOP || buttons is BOTTOM_STRONG_TOP || buttons is ALL
}

/// What the first `count` slots ask for together.
pub open spec fn asked_before(slots: Seq<Option<ProbabilityEvent>>, count: int) -> int
    decreases count,
{
    if count <= 0 {
        0
    } else {
        asked_before(slots, count - 1) + match slots[count - 1] {
            Some(event) => event.probability as int,
            None => 0,
        }
    }
}

// Colors and speeds.

/// A main color has its number, and a number its main color.
pub proof fn main_colors_have_their_numbers(color: MainColor, value: u8)
    ensures
        is_main_color(color.code(), color),
        match MainColor::of_code(value) {
            Some(read) => is_main_color(value, read),
            None => value == 0 || value > 6,
        },
{
}

/// A shoulder color has its number.
pub proof fn shoulder_colors_have_their_numbers(color: ShoulderColor)
    ensures
        is_shoulder_color(color.code(), color),
{
}

/// A flash speed has its number.
pub proof fn flash_speeds_have_their_numbers(speed: FlashSpeed)
    ensures
        speed is Slow <==> speed.code() == 1,
        speed is Fast <==> speed.code() == 2,
        speed is Stop <==> speed.code() == 3,
{
}

// Commands.

/// The commands without colors are one byte long, and those for the shoulder lights start with
/// `0x70`, behind which their colors and their speed stand in order.
pub proof fn commands_are_laid_out(command: Command)
    ensures
        ({
            let packet = command.encoded();
            match command {
                Command::ResetParameters => packet.len() == 1 && packet[0] == 0x5f,
                Command::DetectAngles => packet.len() == 1 && packet[0] == 0x60,
                Command::ShoulderSolid(color) => {
                    &&& packet.len() == 2
                    &&& packet[0] == 0x70
                    &&& is_shoulder_color(packet[1], color)
                },
                Command::ShoulderFlash { first, second, speed } => {
                    &&& packet.len() == 4
                    &&& packet[0] == 0x70
                    &&& is_shoulder_color(packet[1], first)
                    &&& is_shoulder_color(packet[2], second)
                    &&& speed is Slow <==> packet[3] == 1
                    &&& speed is Fast <==> packet[3] == 2
                    &&& speed is Stop <==> packet[3] == 3
                },
            }
        }),
{
}

// Settings.

/// Every packet of settings has seventeen bytes: `0x50`, the number of the main color, the number of
/// the mode, and what belongs to the mode.
pub proof fn packets_name_their_mode(settings: Settings)
    ensures
        ({
            let packet = settings.encoded();
            &&& packet.len() == 17
            &&& packet[0] == 0x50
            &&& is_main_color(packet[1], settings.main_color)
            &&& packet[2] == 0x00 <==> settings.trigger is Disabled
            &&& packet[2] == 0x03 <==> settings.trigger is RandomReaction
            &&& packet[2] == 0x04 <==> settings.trigger is Probability
            &&& packet[2] == 0x05 <==> settings.trigger is Combined
            &&& packet[2] == 0x0f <==> settings.trigger is ExternalVoltage
            &&& packet[2] == 0xd0 <==> settings.trigger is PhysicalData
            &&& settings.trigger is Disabled || settings.trigger is PhysicalData ==> are_zero(
                packet,
                3,
                17,
            )
        }),
{
}

/// Where the fields of a random reaction stand.
pub proof fn random_reactions_are_laid_out(main_color: MainColor, value: RandomReaction)
    ensures
        ({
            let packet = (Settings {
                main_color,
                trigger: TriggerMode::RandomReaction(value),
            }).encoded();
            &&& packet[3] == value.event_id.number()
            &&& 256 * packet[4] + packet[5] == value.random_delay@.start
            &&& 256 * packet[6] + packet[7] == value.random_delay@.end
            &&& 256 * packet[8] + packet[9] == value.reaction_time
            &&& packet[10] == value.trigger_increase
            &&& packet[11] == value.trigger_increase_speed
            &&& packet[12] == value.cancel_decrease
            &&& packet[13] == value.cancel_decrease_speed
            &&& are_zero(packet, 14, 17)
        }),
{
}

/// A random reaction can be sent where its delay is not used up, neither the delay nor the reaction
/// time can be zero, and the bounds of the delay are in order.
pub proof fn random_reactions_are_checked(value: RandomReaction)
    ensures
        ({
            let problem = TriggerMode::RandomReaction(value).problem();
            let delay = value.random_delay@;
            &&& problem is None <==> !delay.exhausted && 1 <= delay.start <= delay.end
                && 1 <= value.reaction_time
            &&& delay.exhausted || delay.start > delay.end ==> problem == Some(
                "random delay lower bound must not exceed upper bound"@,
            )
            &&& !delay.exhausted && delay.start <= delay.end && (delay.start == 0
                || value.reaction_time == 0) ==> problem == Some(
                "random delay and reaction time must be at least 1 second"@,
            )
        }),
{
}

/// What the first slots ask for is their sum.
proof fn sums_are_what_is_asked(slots: Seq<Option<ProbabilityEvent>>, count: int)
    ensures
        settings::probability_sum(slots, count) == asked_before(slots, count),
        count >= 0 ==> asked_before(slots, count) >= 0,
    decreases count,
{
    if count > 0 {
        sums_are_what_is_asked(slots, count - 1);
    }
}

/// Where the slots of the probability mode and the cooldown stand. A slot has the number of its event
/// and its probability, both zero where it is empty. It gets what it asks for as long as the slots up
/// to it ask for no more than `200` together; the first one that asks for more gets what is left, and
/// those behind it nothing.
pub proof fn probability_slots_are_laid_out(
    main_color: MainColor,
    events: [Option<ProbabilityEvent>; 6],
    cooldown: u16,
    index: int,
)
    requires
        0 <= index < 6,
    ensures
        ({
            let packet = (Settings {
                main_color,
                trigger: TriggerMode::Probability { events, cooldown },
            }).encoded();
            let before = asked_before(events@, index);
            &&& 256 * packet[15] + packet[16] == cooldown
            &&& match events@[index] {
                Some(event) => {
                    &&& packet[3 + 2 * index] == event.event_id.number()
                    &&& before + event.probability <= 200 ==> packet[4 + 2 * index]
                        == event.probability
                    &&& before < 200 < before + event.probability ==> packet[4 + 2 * index]
                        == 200 - before
                    &&& before >= 200 ==> packet[4 + 2 * index] == 0
                },
                None => packet[3 + 2 * index] == 0 && packet[4 + 2 * index] == 0,
            }
        }),
{
    sums_are_what_is_asked(events@, index);
    sums_are_what_is_asked(events@, index + 1);
    let packet = (Settings {
        main_color,
        trigger: TriggerMode::Probability { events, cooldown },
    }).encoded();
    assert(packet[3 + 2 * index] == settings::slot_number(events@[index]) && packet[4 + 2 * index]
        == settings::granted_probability(events@, index)) by {
        if index == 0 {
        } else if index == 1 {
        } else if index == 2 {
        } else if index == 3 {
        } else if index == 4 {
        } else {
            assert(index == 5);
        }
    }
}

/// The slots of the probability mode can be sent where no two of them have the same event.
pub proof fn probability_slots_are_checked(events: [Option<ProbabilityEvent>; 6], cooldown: u16)
    ensures
        ({
            let problem = (TriggerMode::Probability { events, cooldown }).problem();
            let twice = exists|i: int, j: int|
                0 <= i < j < 6 && #[trigger] events@[i] is Some && #[trigger] events@[j] is Some
                    && events@[i]->0.event_id == events@[j]->0.event_id;
            &&& twice ==> problem == Some("probability event ids must be unique"@)
            &&& !twice ==> problem is None
        }),
{
    assert forall|i: int, j: int|
        0 <= i < j < 6 && #[trigger] events@[i] is Some && #[trigger] events@[j] is Some implies (
    settings::slot_number(events@[i]) == settings::slot_number(events@[j]) <==> events@[i]->0.event_id
        == events@[j]->0.event_id) by {
        event_id::event_numbers(0, events@[i]->0.event_id, events@[j]->0.event_id);
    }
}

/// Where the fields of the button part of a combined trigger stand; they are zero without one.
pub proof fn button_triggers_are_laid_out(
    main_color: MainColor,
    button: Option<ButtonTrigger>,
    motion: Option<MotionTrigger>,
)
    ensures
        ({
            let packet = (Settings {
                main_color,
                trigger: TriggerMode::Combined(CombinedTrigger { button, motion }),
            }).encoded();
            match button {
                Some(button) => {
                    &&& packet[3] == button.event_id.number()
                    &&& packet[5] == button.trigger_increase_speed
                    &&& packet[6] == button.cancel_decrease
                    &&& packet[7] == button.cancel_decrease_speed
                    &&& packet[8] == button.trigger_increase
                },
                None => packet[3] == 0 && are_zero(packet, 5, 9),
            }
        }),
{
}

/// Where the fields of the acceleration part of a combined trigger stand. The byte of the comparison
/// is one for a trigger above its threshold and zero for one below it.
pub proof fn acceleration_triggers_are_laid_out(
    main_color: MainColor,
    button: Option<ButtonTrigger>,
    event_id: EventId,
    comparison: ThresholdComparison,
    threshold: u16,
    trigger_debounce: u8,
    cancel_debounce: u8,
    parameter_mapping: u8,
)
    ensures
        ({
            let motion = MotionTrigger::Acceleration {
                event_id,
                comparison,
                threshold,
                trigger_debounce,
                cancel_debounce,
                parameter_mapping,
            };
            let packet = (Settings {
                main_color,
                trigger: TriggerMode::Combined(CombinedTrigger { button, motion: Some(motion) }),
            }).encoded();
            &&& packet[9] == event_id.number()
            &&& packet[10] == 1 <==> comparison is Above
            &&& packet[10] == 0 <==> comparison is Below
            &&& 256 * packet[11] + packet[12] == threshold
            &&& are_zero(packet, 13, 16)
            &&& packet[16] == parameter_mapping
        }),
{
}

/// Where the fields of the angle part of a combined trigger stand.
pub proof fn angle_triggers_are_laid_out(
    main_color: MainColor,
    button: Option<ButtonTrigger>,
    event_id: EventId,
    x: AngleRange,
    y: AngleRange,
    z: AngleRange,
    trigger_debounce: u8,
    cancel_debounce: u8,
    parameter_mapping: u8,
)
    ensures
        ({
            let motion = MotionTrigger::Angle {
                event_id,
                x,
                y,
                z,
                trigger_debounce,
                cancel_debounce,
                parameter_mapping,
            };
            let packet = (Settings {
                main_color,
                trigger: TriggerMode::Combined(CombinedTrigger { button, motion: Some(motion) }),
            }).encoded();
            &&& packet[9] == event_id.number()
            &&& is_signed(packet[10], x.lower)
            &&& is_signed(packet[11], x.upper)
            &&& is_signed(packet[12], y.lower)
            &&& is_signed(packet[13], y.upper)
            &&& is_signed(packet[14], z.lower)
            &&& is_signed(packet[15], z.upper)
            &&& packet[16] == parameter_mapping
        }),
{
}

/// The bytes of the motion part are zero without one.
pub proof fn missing_motion_is_zero(main_color: MainColor, button: Option<ButtonTrigger>)
    ensures
        are_zero(
            (Settings {
                main_color,
                trigger: TriggerMode::Combined(CombinedTrigger { button, motion: None }),
            }).encoded(),
            9,
            17,
        ),
{
}

/// The byte of flags of a combined trigger: the highest bit is set for a release edge, the next one
/// for an angle trigger, and below them stand the trigger debounce and the cancellation debounce,
/// three bits each.
pub proof fn combined_flags_are_laid_out(
    main_color: MainColor,
    button: Option<ButtonTrigger>,
    motion: Option<MotionTrigger>,
)
    requires
        match motion {
            Some(MotionTrigger::Acceleration { trigger_debounce, cancel_debounce, .. }) =>
                trigger_debounce <= 7 && cancel_debounce <= 7,
            Some(MotionTrigger::Angle { trigger_debounce, cancel_debounce, .. }) =>
                trigger_debounce <= 7 && cancel_debounce <= 7,
            None => true,
        },
    ensures
        ({
            let flags = (Settings {
                main_color,
                trigger: TriggerMode::Combined(CombinedTrigger { button, motion }),
            }).encoded()[4];
            &&& flags >= 128 <==> button is Some && button->0.edge is Release
            &&& match motion {
                Some(
                    MotionTrigger::Acceleration { trigger_debounce, cancel_debounce, .. },
                ) => {
                    &&& flags % 128 / 64 == 0
                    &&& flags % 64 / 8 == trigger_debounce
                    &&& flags % 8 == cancel_debounce
                },
                Some(MotionTrigger::Angle { trigger_debounce, cancel_debounce, .. }) => {
                    &&& flags % 128 / 64 == 1
                    &&& flags % 64 / 8 == trigger_debounce
                    &&& flags % 8 == cancel_debounce
                },
                None => flags % 128 == 0,
            }
        }),
{
}

/// A combined trigger without motion can be sent. So can one with an acceleration trigger whose
/// debounces are at most `7` and whose threshold is at most `400`; too long debounces are reported
/// first.
pub proof fn acceleration_triggers_are_checked(
    button: Option<ButtonTrigger>,
    event_id: EventId,
    comparison: ThresholdComparison,
    threshold: u16,
    trigger_debounce: u8,
    cancel_debounce: u8,
    parameter_mapping: u8,
)
    ensures
        TriggerMode::Combined(CombinedTrigger { button, motion: None }).problem() is None,
        ({
            let motion = MotionTrigger::Acceleration {
                event_id,
                comparison,
                threshold,
                trigger_debounce,
                cancel_debounce,
                parameter_mapping,
            };
            let problem = TriggerMode::Combined(
                CombinedTrigger { button, motion: Some(motion) },
            ).problem();
            &&& problem is None <==> trigger_debounce <= 7 && cancel_debounce <= 7 && threshold
                <= 400
            &&& trigger_debounce > 7 || cancel_debounce > 7 ==> problem == Some(
                "debounce must not exceed 7"@,
            )
            &&& trigger_debounce <= 7 && cancel_debounce <= 7 && threshold > 400 ==> problem
                == Some("acceleration threshold must not exceed 400"@)
        }),
{
}

/// An angle trigger can be sent where its debounces are at most `7` and the bounds of each window are
/// in order; too long debounces are reported first.
pub proof fn angle_triggers_are_checked(
    button: Option<ButtonTrigger>,
    event_id: EventId,
    x: AngleRange,
    y: AngleRange,
    z: AngleRange,
    trigger_debounce: u8,
    cancel_debounce: u8,
    parameter_mapping: u8,
)
    ensures
        ({
            let motion = MotionTrigger::Angle {
                event_id,
                x,
                y,
                z,
                trigger_debounce,
                cancel_debounce,
                parameter_mapping,
            };
            let problem = TriggerMode::Combined(
                CombinedTrigger { button, motion: Some(motion) },
            ).problem();
            let in_order = x.lower <= x.upper && y.lower <= y.upper && z.lower <= z.upper;
            &&& problem is None <==> trigger_debounce <= 7 && cancel_debounce <= 7 && in_order
            &&& trigger_debounce > 7 || cancel_debounce > 7 ==> problem == Some(
                "debounce must not exceed 7"@,
            )
            &&& trigger_debounce <= 7 && cancel_debounce <= 7 && !in_order ==> problem == Some(
                "angle lower bound must not exceed upper bound"@,
            )
        }),
{
}

/// Where the fields of an external voltage trigger stand. The byte of the input mode is one for a
/// high impedance and zero for the internal pull-up network.
pub proof fn voltage_triggers_are_laid_out(main_color: MainColor, value: ExternalVoltage)
    ensures
        ({
            let packet = (Settings {
                main_color,
                trigger: TriggerMode::ExternalVoltage(value),
            }).encoded();
            &&& packet[3] == value.event_id.number()
            &&& is_flag(packet[4], value.input_mode is HighImpedance)
            &&& packet[5] == value.lower_threshold
            &&& packet[6] == value.upper_threshold
            &&& packet[7] == value.parameter_mapping
            &&& are_zero(packet, 8, 17)
        }),
{
}

/// An external voltage trigger can be sent where no voltage is above `210` and its thresholds are in
/// order; a voltage that is too high is reported first.
pub proof fn voltage_triggers_are_checked(value: ExternalVoltage)
    ensures
        ({
            let problem = TriggerMode::ExternalVoltage(value).problem();
            let highest = value.lower_threshold <= 210 && value.upper_threshold <= 210
                && value.parameter_mapping <= 210;
            &&& problem is None <==> highest && value.lower_threshold <= value.upper_threshold
            &&& !highest ==> problem == Some("voltage values must not exceed 210"@)
            &&& highest && value.lower_threshold > value.upper_threshold ==> problem == Some(
                "voltage lower bound must not exceed upper bound"@,
            )
        }),
{
}

/// Nothing is wrong with settings that have no fields.
pub proof fn plain_modes_are_not_checked(mode: TriggerMode)
    requires
        mode is Disabled || mode is PhysicalData,
    ensures
        mode.problem() is None,
{
}

// Buttons.

/// The flags of every value, and its number: the flags count `1`, `2` and `4`.
pub proof fn buttons_have_their_flags(buttons: PawButtons)
    ensures
        buttons.weak() <==> has_weak(buttons),
        buttons.strong() <==> has_strong(buttons),
        buttons.top() <==> has_top(buttons),
        buttons.number() <= 7,
        buttons.number() % 2 == 1 <==> has_weak(buttons),
        buttons.number() / 2 % 2 == 1 <==> has_strong(buttons),
        buttons.number() / 4 == 1 <==> has_top(buttons),
{
}

/// The three low bits of a byte are the flags of the weakly pressed bottom button, of the strongly
/// pressed one and of the top button, in this order from the lowest bit on.
pub proof fn low_bits_are_the_flags(bits: u8)
    ensures
        has_weak(PawButtons::of_bits(bits)) <==> bits % 2 == 1,
        has_strong(PawButtons::of_bits(bits)) <==> bits / 2 % 2 == 1,
        has_top(PawButtons::of_bits(bits)) <==> bits / 4 % 2 == 1,
{
}

/// A value has the flags that it is made of.
pub proof fn buttons_are_made_of_their_flags(weak: bool, strong: bool, top: bool)
    ensures
        has_weak(PawButtons::of_flags(weak, strong, top)) == weak,
        has_strong(PawButtons::of_flags(weak, strong, top)) == strong,
        has_top(PawButtons::of_flags(weak, strong, top)) == top,
{
}

/// Every operation works on each flag for itself.
pub proof fn operations_work_flag_by_flag(first: PawButtons, second: PawButtons)
    ensures
        has_weak(first.either(second)) == (has_weak(first) || has_weak(second)),
        has_strong(first.either(second)) == (has_strong(first) || has_strong(second)),
        has_top(first.either(second)) == (has_top(first) || has_top(second)),
        has_weak(first.common(second)) == (has_weak(first) && has_weak(second)),
        has_strong(first.common(second)) == (has_strong(first) && has_strong(second)),
        has_top(first.common(second)) == (has_top(first) && has_top(second)),
        has_weak(first.without(second)) == (has_weak(first) && !has_weak(second)),
        has_strong(first.without(second)) == (has_strong(first) && !has_strong(second)),
        has_top(first.without(second)) == (has_top(first) && !has_top(second)),
        has_weak(first.changed(second)) == (has_weak(first) != has_weak(second)),
        has_strong(first.changed(second)) == (has_strong(first) != has_strong(second)),
        has_top(first.changed(second)) == (has_top(first) != has_top(second)),
        has_weak(first.opposite()) == !has_weak(first),
        has_strong(first.opposite()) == !has_strong(first),
        has_top(first.opposite()) == !has_top(first),
        first.covers(second) <==> (has_weak(second) ==> has_weak(first)) && (has_strong(second)
            ==> has_strong(first)) && (has_top(second) ==> has_top(first)),
        first.meets(second) <==> has_weak(first) && has_weak(second) || has_strong(first)
            && has_strong(second) || has_top(first) && has_top(second),
{
}

/// The operators are the union, the intersection, the symmetric difference, the difference and the
/// complement of the flags.
pub proof fn operators_work_flag_by_flag(first: PawButtons, second: PawButtons)
    ensures
        ({
            let sum = <PawButtons as vstd::std_specs::ops::BitOrSpec>::bitor_spec(first, second);
            &&& <PawButtons as vstd::std_specs::ops::BitOrSpec>::obeys_bitor_spec()
            &&& <PawButtons as vstd::std_specs::ops::BitOrSpec>::bitor_req(first, second)
            &&& has_weak(sum) == (has_weak(first) || has_weak(second))
            &&& has_strong(sum) == (has_strong(first) || has_strong(second))
            &&& has_top(sum) == (has_top(first) || has_top(second))
        }),
        ({
            let both = <PawButtons as vstd::std_specs::ops::BitAndSpec>::bitand_spec(
                first,
                second,
            );
            &&& <PawButtons as vstd::std_specs::ops::BitAndSpec>::obeys_bitand_spec()
            &&& <PawButtons as vstd::std_specs::ops::BitAndSpec>::bitand_req(first, second)
            &&& has_weak(both) == (has_weak(first) && has_weak(second))
            &&& has_strong(both) == (has_strong(first) && has_strong(second))
            &&& has_top(both) == (has_top(first) && has_top(second))
        }),
        ({
            let one = <PawButtons as vstd::std_specs::ops::BitXorSpec>::bitxor_spec(
                first,
                second,
            );
            &&& <PawButtons as vstd::std_specs::ops::BitXorSpec>::obeys_bitxor_spec()
            &&& <PawButtons as vstd::std_specs::ops::BitXorSpec>::bitxor_req(first, second)
            &&& has_weak(one) == (has_weak(first) != has_weak(second))
            &&& has_strong(one) == (has_strong(first) != has_strong(second))
            &&& has_top(one) == (has_top(first) != has_top(second))
        }),
        ({
            let rest = <PawButtons as vstd::std_specs::ops::SubSpec>::sub_spec(first, second);
            &&& <PawButtons as vstd::std_specs::ops::SubSpec>::obeys_sub_spec()
            &&& <PawButtons as vstd::std_specs::ops::SubSpec>::sub_req(first, second)
            &&& has_weak(rest) == (has_weak(first) && !has_weak(second))
            &&& has_strong(rest) == (has_strong(first) && !has_strong(second))
            &&& has_top(rest) == (has_top(first) && !has_top(second))
        }),
        ({
            let other = <PawButtons as vstd::std_specs::ops::NotSpec>::not_spec(first);
            &&& <PawButtons as vstd::std_specs::ops::NotSpec>::obeys_not_spec()
            &&& <PawButtons as vstd::std_specs::ops::NotSpec>::not_req(first)
            &&& has_weak(other) == !has_weak(first)
            &&& has_strong(other) == !has_strong(first)
            &&& has_top(other) == !has_top(first)
        }),
{
}

/// The text of a value is made of the names of its flags, from the lowest one on, with bars between
/// them, and there is a text for the value without flags.
pub proof fn texts_are_made_of_names(buttons: PawButtons)
    ensures
        buttons is EMPTY ==> buttons.text() == "0x0"@,
        buttons is BOTTOM_WEAK ==> buttons.text() == "BOTTOM_WEAK"@,
        buttons is BOTTOM_STRONG ==> buttons.text() == "BOTTOM_STRONG"@,
        buttons is TOP ==> buttons.text() == "TOP"@,
        buttons is BOTTOM_WEAK_STRONG ==> buttons.text() == "BOTTOM_WEAK"@ + " | "@
            + "BOTTOM_STRONG"@,
        buttons is BOTTOM_WEAK_TOP ==> buttons.text() == "BOTTOM_WEAK"@ + " | "@ + "TOP"@,
        buttons is BOTTOM_STRONG_TOP ==> buttons.text() == "BOTTOM_STRONG"@ + " | "@ + "TOP"@,
        buttons is ALL ==> buttons.text() == "BOTTOM_WEAK"@ + " | "@ + "BOTTOM_STRONG"@ + " | "@
            + "TOP"@,
{
    reveal_strlit("BOTTOM_WEAK");
    reveal_strlit("BOTTOM_STRONG");
    reveal_strlit("TOP");
    reveal_strlit(" | ");
    reveal_strlit("BOTTOM_WEAK | BOTTOM_STRONG");
    reveal_strlit("BOTTOM_WEAK | TOP");
    reveal_strlit("BOTTOM_STRONG | TOP");
    reveal_strlit("BOTTOM_WEAK | BOTTOM_STRONG | TOP");
}

// Acceleration.

/// A reading has the numbers that its bytes stand for, axis by axis.
pub proof fn readings_are_their_bytes(x: u8, y: u8, z: u8)
    ensures
        is_signed(x, RawAccel::of_bytes(x, y, z).x),
        is_signed(y, RawAccel::of_bytes(x, y, z).y),
        is_signed(z, RawAccel::of_bytes(x, y, z).z),
{
}

/// The axis is X where it covers both others, else Y where it covers Z, else Z; the direction is the
/// sign of the component on that axis.
pub proof fn axes_are_chosen(comparison: AxisComparison)
    ensures
        ({
            let direction = AxisDirection::chosen(comparison);
            &&& direction is PosX || direction is NegX <==> comparison.x_covers_y
                && comparison.x_covers_z
            &&& direction is PosY || direction is NegY <==> !(comparison.x_covers_y
                && comparison.x_covers_z) && comparison.y_covers_z
            &&& direction is PosX ==> comparison.x_up
            &&& direction is NegX ==> !comparison.x_up
            &&& direction is PosY ==> comparison.y_up
            &&& direction is NegY ==> !comparison.y_up
            &&& direction is PosZ ==> comparison.z_up
            &&& direction is NegZ ==> !comparison.z_up
        }),
{
}

/// On numbers, a positive direction is chosen for the largest number without its sign if it is not
/// negative, and the negative one if it is; of equally large ones X comes first, and Y before Z.
pub proof fn largest_numbers_are_chosen(x: int, y: int, z: int)
    ensures
        ({
            let direction = AxisDirection::chosen(AxisComparison::of_numbers(x, y, z));
            &&& direction is PosX <==> x >= 0 && -x <= y <= x && -x <= z <= x
            &&& direction is NegX <==> x < 0 && x <= y <= -x && x <= z <= -x
            &&& direction is PosY <==> y >= 0 && -y < x < y && -y <= z <= y
            &&& direction is NegY <==> y < 0 && y < x < -y && y <= z <= -y
            &&& direction is PosZ <==> z >= 0 && -z < x < z && -z < y < z
            &&& direction is NegZ <==> z < 0 && z < x < -z && z < y < -z
        }),
{
}

// Events.

/// What a packet reports: which event, and each of its fields, from the bytes of the packet.
pub proof fn packets_report_their_bytes(packet: Seq<u8>)
    ensures
        match PawPrintsEvent::reported(packet) {
            Some(PawPrintsEvent::Status { main_color, device_type, battery }) => {
                &&& packet.len() == 4
                &&& packet[0] == 0x51
                &&& is_main_color(packet[1], main_color)
                &&& packet[2] == 3
                &&& device_type == 3
                &&& battery == packet[3]
            },
            Some(PawPrintsEvent::Triggered { main_color, event_id, parameter }) => {
                &&& packet.len() == 4
                &&& packet[0] == 0x5a
                &&& is_main_color(packet[1], main_color)
                &&& 1 <= packet[2] <= 24
                &&& event_id.number() == packet[2]
                &&& parameter == packet[3]
            },
            Some(PawPrintsEvent::Canceled { main_color, event_id }) => {
                &&& packet.len() == 3
                &&& packet[0] == 0x5b
                &&& is_main_color(packet[1], main_color)
                &&& 1 <= packet[2] <= 24
                &&& event_id.number() == packet[2]
            },
            Some(PawPrintsEvent::ParameterChanged { main_color, event_id, parameter }) => {
                &&& packet.len() == 4
                &&& packet[0] == 0x5c
                &&& is_main_color(packet[1], main_color)
                &&& 1 <= packet[2] <= 24
                &&& event_id.number() == packet[2]
                &&& parameter == packet[3]
            },
            Some(
                PawPrintsEvent::PhysicalData {
                    main_color,
                    sequence,
                    pressed,
                    acceleration,
                    accel,
                    external_voltage,
                },
            ) => {
                &&& packet.len() == 9
                &&& packet[0] == 0xd0
                &&& is_main_color(packet[1], main_color)
                &&& sequence == packet[2]
                &&& has_weak(pressed) <==> packet[3] % 2 == 1
                &&& has_strong(pressed) <==> packet[3] / 2 % 2 == 1
                &&& has_top(pressed) <==> packet[3] / 4 % 2 == 1
                &&& acceleration == packet[4]
                &&& is_signed(packet[5], accel.x)
                &&& is_signed(packet[6], accel.y)
                &&& is_signed(packet[7], accel.z)
                &&& external_voltage == packet[8]
            },
            Some(PawPrintsEvent::DetectedAngles { x, y, z }) => {
                &&& packet.len() == 14
                &&& packet[0] == 0xf1
                &&& packet[1] == 0x61
                &&& is_number(packet, 2, x.lower)
                &&& is_number(packet, 4, x.upper)
                &&& is_number(packet, 6, y.lower)
                &&& is_number(packet, 8, y.upper)
                &&& is_number(packet, 10, z.lower)
                &&& is_number(packet, 12, z.upper)
            },
            Some(PawPrintsEvent::Unknown(_)) => false,
            None => {
                let colored = 1 <= packet[1] <= 6;
                let numbered = 1 <= packet[2] <= 24;
                &&& !(packet.len() == 4 && packet[0] == 0x51 && colored && packet[2] == 3)
                &&& !(packet.len() == 4 && packet[0] == 0x5a && colored && numbered)
                &&& !(packet.len() == 3 && packet[0] == 0x5b && colored && numbered)
                &&& !(packet.len() == 4 && packet[0] == 0x5c && colored && numbered)
                &&& !(packet.len() == 9 && packet[0] == 0xd0 && colored)
                &&& !(packet.len() == 14 && packet[0] == 0xf1 && packet[1] == 0x61)
            },
        },
{
    let id = EventId::of_number(packet[2]);
    event_id::event_numbers(packet[2], id->0, id->0);
}

/// A bound of a detected range is halved towards zero, and is the nearest angle that can be told
/// where its half cannot be.
pub proof fn detected_bounds_are_halved(value: i16)
    ensures
        ({
            let half = event::halved(value);
            &&& 0 <= value <= 255 ==> 2 * half <= value <= 2 * half + 1
            &&& -257 <= value <= 0 ==> 2 * half - 1 <= value <= 2 * half
            &&& value > 255 ==> half == 127
            &&& value < -257 ==> half == -128
        }),
{
}

/// The angle window of a detected range has the halves of its bounds, each in its place.
pub proof fn detected_ranges_become_windows(range: DetectedRange)
    ensures
        ({
            let angle = range.as_angle();
            &&& 0 <= range.lower <= 255 ==> 2 * angle.lower <= range.lower <= 2 * angle.lower + 1
            &&& -257 <= range.lower <= 0 ==> 2 * angle.lower - 1 <= range.lower <= 2
                * angle.lower
            &&& range.lower > 255 ==> angle.lower == 127
            &&& range.lower < -257 ==> angle.lower == -128
            &&& 0 <= range.upper <= 255 ==> 2 * angle.upper <= range.upper <= 2 * angle.upper + 1
            &&& -257 <= range.upper <= 0 ==> 2 * angle.upper - 1 <= range.upper <= 2
                * angle.upper
            &&& range.upper > 255 ==> angle.upper == 127
            &&& range.upper < -257 ==> angle.upper == -128
        }),
{
    detected_bounds_are_halved(range.lower);
    detected_bounds_are_halved(range.upper);
}

} // verus!
