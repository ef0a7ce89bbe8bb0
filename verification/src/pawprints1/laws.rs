//! What the legacy PawPrints protocol promises, in terms of its bytes and of the fields of its
//! values.

use crate::laws;
use crate::pawprints1::{
    ButtonTriggerEvent, MultiAcceleration, PawPrintsEvent, SettingMode, Settings,
};
use vstd::prelude::*;

verus! {

// Words that the laws use.

/// Whether the bytes of `packet` from `start` up to `end` are zero.
pub open spec fn are_zero(packet: Seq<u8>, start: int, end: int) -> bool {
    forall|i: int| start <= i < end ==> packet[i] == 0
}

/// Whether `byte` is one where `flag` is set and else zero.
pub open spec fn is_flag(byte: u8, flag: bool) -> bool {
    &&& flag ==> byte == 1
    &&& !flag ==> byte == 0
}

/// Whether `byte` stands for `value` in two's complement.
pub open spec fn is_signed(byte: u8, value: i8) -> bool {
    (byte - value) % 256 == 0
}

/// Whether the two bytes from `start` on stand for `value` in two's complement, the more significant
/// one first.
pub open spec fn is_number(packet: Seq<u8>, start: int, value: i16) -> bool {
    (256 * packet[start] + packet[start + 1] - value) % 65536 == 0
}

// Settings.

/// Every payload has seventeen bytes: `0x50`, the number of the selector, the number of the mode,
/// and what belongs to the mode.
pub proof fn payloads_name_their_mode(settings: Settings)
    ensures
        ({
            let payload = settings.encoded();
            &&& payload.len() == 17
            &&& payload[0] == 0x50
            &&& payload[1] == settings.selector.code()
            &&& payload[2] == 0x00 <==> settings.mode is Disabled
            &&& payload[2] == 0x01 <==> settings.mode is Button
            &&& payload[2] == 0x02 <==> settings.mode is Multi
            &&& payload[2] == 0x0F <==> settings.mode is ExternalVoltage
            &&& payload[2] == 0xFF <==> settings.mode is MotionStream
            &&& settings.mode is Disabled || settings.mode is MotionStream ==> are_zero(
                payload,
                3,
                17,
            )
        }),
{
}

/// Where the fields of a button trigger stand.
pub proof fn button_triggers_are_laid_out(settings: Settings)
    ensures
        settings.mode matches SettingMode::Button {
            button_id,
            event,
            para_speed,
            para_cancel_down,
            para_down_speed,
            para_increase,
        } ==> {
            let payload = settings.encoded();
            &&& payload[3] == button_id
            &&& is_flag(payload[4], event is Release)
            &&& payload[5] == para_speed
            &&& payload[6] == para_cancel_down
            &&& payload[7] == para_down_speed
            &&& payload[8] == para_increase
            &&& are_zero(payload, 9, 17)
        },
{
}

/// The number of a button edge: zero for a press, one for a release.
pub proof fn edges_have_their_numbers(event: ButtonTriggerEvent)
    ensures
        is_flag(event.code(), event is Release),
{
}

/// Where the fields of a combined trigger stand.
pub proof fn combined_triggers_are_laid_out(settings: Settings)
    ensures
        settings.mode matches SettingMode::Multi {
            short_click_id,
            long_click_id,
            acceleration_id,
            acceleration,
            para_mapping,
            debouncing,
            cancel_debouncing,
        } ==> {
            let payload = settings.encoded();
            &&& payload[3] == short_click_id
            &&& payload[4] == 0
            &&& payload[5] == long_click_id
            &&& payload[6] == acceleration_id
            &&& payload[14] == para_mapping
            &&& payload[15] == debouncing
            &&& payload[16] == cancel_debouncing
            &&& match acceleration {
                MultiAcceleration::Overall { threshold, greater_than } => {
                    &&& payload[7] == 0
                    &&& is_flag(payload[8], greater_than)
                    &&& 256 * payload[9] + payload[10] == threshold
                    &&& are_zero(payload, 11, 14)
                },
                MultiAcceleration::Rotation { threshold, greater_than } => {
                    &&& payload[7] == 1
                    &&& is_flag(payload[8], greater_than)
                    &&& 256 * payload[9] + payload[10] == threshold
                    &&& are_zero(payload, 11, 14)
                },
                MultiAcceleration::Fixed { x_low, x_high, y_low, y_high, z_low, z_high } => {
                    &&& payload[7] == 2
                    &&& is_signed(payload[8], x_low)
                    &&& is_signed(payload[9], x_high)
                    &&& is_signed(payload[10], y_low)
                    &&& is_signed(payload[11], y_high)
                    &&& is_signed(payload[12], z_low)
                    &&& is_signed(payload[13], z_high)
                },
            }
        },
{
}

/// Where the fields of an external voltage trigger stand.
pub proof fn voltage_triggers_are_laid_out(settings: Settings)
    ensures
        settings.mode matches SettingMode::ExternalVoltage {
            out_voltage_id,
            pullup,
            lower_threshold,
            upper_threshold,
            para_mapping,
        } ==> {
            let payload = settings.encoded();
            &&& payload[3] == out_voltage_id
            &&& is_flag(payload[4], pullup)
            &&& payload[5] == lower_threshold
            &&& payload[6] == upper_threshold
            &&& payload[7] == para_mapping
            &&& are_zero(payload, 8, 17)
        },
{
}

// Events.

/// What a packet reports: which event, and each of its fields, from the bytes of the packet. A
/// button packet has to have a known selector.
pub proof fn packets_report_their_bytes(packet: Seq<u8>)
    requires
        packet.len() == 4 && packet[0] == 0x5A && packet[2] == 1 && packet[3] == 1 ==> packet[1]
            <= 7,
        packet.len() == 3 && packet[0] == 0x5B && packet[2] == 1 ==> packet[1] <= 7,
    ensures
        match PawPrintsEvent::reported(packet) {
            Some(PawPrintsEvent::ButtonPressed { selector }) => {
                &&& packet.len() == 4
                &&& packet[0] == 0x5A
                &&& packet[1] == selector.code()
                &&& packet[2] == 1
                &&& packet[3] == 1
            },
            Some(PawPrintsEvent::ButtonReleased { selector }) => {
                &&& packet.len() == 3
                &&& packet[0] == 0x5B
                &&& packet[1] == selector.code()
                &&& packet[2] == 1
            },
            Some(
                PawPrintsEvent::State {
                    bottom_first,
                    bottom_second,
                    top,
                    overall,
                    rotation,
                    x,
                    y,
                    z,
                },
            ) => {
                &&& packet.len() == 13
                &&& packet[0] == 0 || packet[0] == 1
                &&& bottom_first <==> packet[0] != 1
                &&& bottom_second <==> packet[1] != 1
                &&& top <==> packet[2] != 1
                &&& is_number(packet, 3, overall)
                &&& is_number(packet, 5, rotation)
                &&& is_number(packet, 7, x)
                &&& is_number(packet, 9, y)
                &&& is_number(packet, 11, z)
            },
            Some(PawPrintsEvent::Motion { sound, x, y, z }) => {
                &&& packet.len() == 9
                &&& packet[0] == 0x48
                &&& is_number(packet, 1, sound)
                &&& is_number(packet, 3, x)
                &&& is_number(packet, 5, y)
                &&& is_number(packet, 7, z)
            },
            Some(PawPrintsEvent::DebugF1 { xd, xu, yd, yu, zd, zu }) => {
                &&& packet.len() == 14
                &&& packet[0] == 0xF1
                &&& is_number(packet, 2, xd)
                &&& is_number(packet, 4, xu)
                &&& is_number(packet, 6, yd)
                &&& is_number(packet, 8, yu)
                &&& is_number(packet, 10, zd)
                &&& is_number(packet, 12, zu)
            },
            Some(PawPrintsEvent::Unknown(_)) => false,
            None => {
                &&& !(packet.len() == 4 && packet[0] == 0x5A && packet[2] == 1 && packet[3] == 1)
                &&& !(packet.len() == 3 && packet[0] == 0x5B && packet[2] == 1)
                &&& !(packet.len() == 13 && packet[0] <= 1)
                &&& !(packet.len() == 9 && packet[0] == 0x48)
                &&& !(packet.len() == 14 && packet[0] == 0xF1)
            },
        },
{
    if packet.len() > 1 {
        laws::led_numbers_have_their_options(packet[1]);
    }
}

/// Only a button packet with a selector above `7` cannot be parsed.
pub proof fn only_strange_selectors_are_unknown(packet: Seq<u8>)
    ensures
        PawPrintsEvent::known_selector(packet) <==> !({
            ||| packet.len() == 4 && packet[0] == 0x5A && packet[1] > 7 && packet[2] == 1
                && packet[3] == 1
            ||| packet.len() == 3 && packet[0] == 0x5B && packet[1] > 7 && packet[2] == 1
        }),
{
}

} // verus!
