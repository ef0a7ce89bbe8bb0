//! Legacy protocol of the DG-LAB PawPrints.

pub mod laws;

use crate::bytes;
use crate::led::LedColor;
use crate::paw_link::NOTIFY_CHARACTERISTIC_UUID;
use vstd::prelude::*;

verus! {

/// The names that the PawPrints of this protocol advertise.
pub const DEVICE_NAMES: [&'static str; 2] = ["47L120100", "47L120300"];

/// Tell whether a device with this name is a PawPrints of this protocol.
pub fn is_device_name(local_name: &str) -> (matches: bool)
    ensures
        matches == (local_name@ == DEVICE_NAMES[0]@ || local_name@ == DEVICE_NAMES[1]@),
{
    local_name.to_owned() == DEVICE_NAMES[0].to_owned() || local_name.to_owned()
        == DEVICE_NAMES[1].to_owned()
}

/// A full PawPrints runtime settings payload.
#[derive(Clone, Copy, Debug, PartialEq, Eq, Structural)]
pub struct Settings {
    /// Selector byte written as byte 1 of the `0x50` settings payload.
    ///
    /// The exact firmware semantics appear to be broader than just LED color, hence the neutral
    /// name.
    pub selector: LedColor,
    /// The mode-specific configuration.
    pub mode: SettingMode,
}

impl Default for Settings {
    fn default() -> (settings: Self)
        ensures
            settings == (Settings { selector: LedColor::Yellow, mode: SettingMode::Disabled }),
    {
        Settings { selector: LedColor::Yellow, mode: SettingMode::Disabled }
    }
}

/// The supported PawPrints settings modes.
#[derive(Clone, Copy, Debug, PartialEq, Eq, Structural)]
pub enum SettingMode {
    /// Clear all configured trigger behavior.
    Disabled,
    /// Button press/release trigger mode.
    Button {
        /// The configured button identifier.
        button_id: u8,
        /// Whether the trigger reacts to press or release.
        event: ButtonTriggerEvent,
        /// Parameter increase speed.
        para_speed: u8,
        /// Parameter decrease applied when the trigger is canceled.
        para_cancel_down: u8,
        /// Parameter decay speed.
        para_down_speed: u8,
        /// Parameter increase amount.
        para_increase: u8,
    },
    /// Combined short click, long click, and acceleration trigger mode.
    Multi {
        /// Trigger id used for short clicks.
        short_click_id: u8,
        /// Trigger id used for long clicks.
        long_click_id: u8,
        /// Trigger id used for acceleration.
        acceleration_id: u8,
        /// Acceleration sub-mode configuration.
        acceleration: MultiAcceleration,
        /// Parameter mapping upper bound.
        para_mapping: u8,
        /// Trigger debounce time.
        debouncing: u8,
        /// Debounce time used when canceling the trigger.
        cancel_debouncing: u8,
    },
    /// External voltage input trigger mode.
    ExternalVoltage {
        /// Trigger identifier.
        out_voltage_id: u8,
        /// Whether the internal pullup should be enabled.
        pullup: bool,
        /// Lower threshold value.
        lower_threshold: u8,
        /// Upper threshold value.
        upper_threshold: u8,
        /// Parameter mapping upper bound.
        para_mapping: u8,
    },
    /// Special motion-stream command.
    MotionStream,
}

/// Button-edge selection used by [`SettingMode::Button`].
#[derive(Clone, Copy, Debug, PartialEq, Eq, Structural)]
pub enum ButtonTriggerEvent {
    /// Trigger on button press.
    Press,
    /// Trigger on button release.
    Release,
}

impl ButtonTriggerEvent {
    /// The number that stands for this edge in a packet.
    pub open spec fn code(self) -> u8 {
        match self {
            ButtonTriggerEvent::Press => 0,
            ButtonTriggerEvent::Release => 1,
        }
    }

    /// Return the number that stands for this edge in a packet.
    pub fn raw(self) -> (value: u8)
        ensures
            value == self.code(),
    {
        match self {
            ButtonTriggerEvent::Press => 0,
            ButtonTriggerEvent::Release => 1,
        }
    }
}

/// Acceleration configuration used by [`SettingMode::Multi`].
#[derive(Clone, Copy, Debug, PartialEq, Eq, Structural)]
pub enum MultiAcceleration {
    /// Overall acceleration threshold.
    Overall {
        /// Threshold value in big-endian `u16` form on the wire.
        threshold: u16,
        /// Whether the threshold comparison is "greater than".
        greater_than: bool,
    },
    /// Rotation/angle threshold.
    Rotation {
        /// Threshold value in big-endian `u16` form on the wire.
        threshold: u16,
        /// Whether the threshold comparison is "greater than".
        greater_than: bool,
    },
    /// Fixed XYZ window thresholds.
    Fixed {
        /// Minimum X threshold.
        x_low: i8,
        /// Maximum X threshold.
        x_high: i8,
        /// Minimum Y threshold.
        y_low: i8,
        /// Maximum Y threshold.
        y_high: i8,
        /// Minimum Z threshold.
        z_low: i8,
        /// Maximum Z threshold.
        z_high: i8,
    },
}

/// One for `true`, zero for `false`.
pub open spec fn bit(flag: bool) -> u8 {
    if flag {
        1
    } else {
        0
    }
}

/// Return one for `true` and zero for `false`.
fn to_bit(flag: bool) -> (value: u8)
    ensures
        value == bit(flag),
{
    if flag {
        1
    } else {
        0
    }
}

impl MultiAcceleration {
    /// The seven bytes that describe this configuration.
    pub open spec fn encoded(self) -> Seq<u8> {
        match self {
            MultiAcceleration::Overall { threshold, greater_than } => seq![
                0x00,
                bit(greater_than),
                bytes::high_byte(threshold),
                bytes::low_byte(threshold),
                0,
                0,
                0,
            ],
            MultiAcceleration::Rotation { threshold, greater_than } => seq![
                0x01,
                bit(greater_than),
                bytes::high_byte(threshold),
                bytes::low_byte(threshold),
                0,
                0,
                0,
            ],
            MultiAcceleration::Fixed { x_low, x_high, y_low, y_high, z_low, z_high } => seq![
                0x02,
                bytes::signed_byte(x_low),
                bytes::signed_byte(x_high),
                bytes::signed_byte(y_low),
                bytes::signed_byte(y_high),
                bytes::signed_byte(z_low),
                bytes::signed_byte(z_high),
            ],
        }
    }

    /// Serialize this configuration.
    fn to_bytes(self) -> (fields: [u8; 7])
        ensures
            fields@ == self.encoded(),
    {
        let fields = match self {
            MultiAcceleration::Overall { threshold, greater_than } => {
                let limit: (u8, u8) = bytes::split(threshold);
                [0x00u8, to_bit(greater_than), limit.0, limit.1, 0, 0, 0]
            },
            MultiAcceleration::Rotation { threshold, greater_than } => {
                let limit: (u8, u8) = bytes::split(threshold);
                [0x01u8, to_bit(greater_than), limit.0, limit.1, 0, 0, 0]
            },
            MultiAcceleration::Fixed { x_low, x_high, y_low, y_high, z_low, z_high } => [
                0x02u8,
                bytes::to_signed_byte(x_low),
                bytes::to_signed_byte(x_high),
                bytes::to_signed_byte(y_low),
                bytes::to_signed_byte(y_high),
                bytes::to_signed_byte(z_low),
                bytes::to_signed_byte(z_high),
            ],
        };
        assert(fields@ =~= self.encoded());
        fields
    }
}

impl SettingMode {
    /// The fifteen bytes that describe this mode.
    pub open spec fn encoded(self) -> Seq<u8> {
        match self {
            SettingMode::Disabled => seq![0, 0, 0, 0, 0, 0, 0, 0, 0, 0, 0, 0, 0, 0, 0],
            SettingMode::Button {
                button_id,
                event,
                para_speed,
                para_cancel_down,
                para_down_speed,
                para_increase,
            } => seq![
                0x01,
                button_id,
                event.code(),
                para_speed,
                para_cancel_down,
                para_down_speed,
                para_increase,
                0,
                0,
                0,
                0,
                0,
                0,
                0,
                0,
            ],
            SettingMode::Multi {
                short_click_id,
                long_click_id,
                acceleration_id,
                acceleration,
                para_mapping,
                debouncing,
                cancel_debouncing,
            } => seq![0x02, short_click_id, 0, long_click_id, acceleration_id]
                + acceleration.encoded() + seq![para_mapping, debouncing, cancel_debouncing],
            SettingMode::ExternalVoltage {
                out_voltage_id,
                pullup,
                lower_threshold,
                upper_threshold,
                para_mapping,
            } => seq![
                0x0F,
                out_voltage_id,
                bit(pullup),
                lower_threshold,
                upper_threshold,
                para_mapping,
                0,
                0,
                0,
                0,
                0,
                0,
                0,
                0,
                0,
            ],
            SettingMode::MotionStream => seq![0xFF, 0, 0, 0, 0, 0, 0, 0, 0, 0, 0, 0, 0, 0, 0],
        }
    }
}

impl Settings {
    /// The seventeen bytes of the `0x50` payload.
    pub open spec fn encoded(self) -> Seq<u8> {
        seq![0x50u8, self.selector.code()] + self.mode.encoded()
    }

    /// Serialize this `0x50` payload.
    pub fn to_bytes(self) -> (payload: [u8; 17])
        ensures
            payload@ == self.encoded(),
    {
        let selector: u8 = self.selector.raw();
        let payload = match self.mode {
            SettingMode::Disabled => [0x50u8, selector, 0, 0, 0, 0, 0, 0, 0, 0, 0, 0, 0, 0, 0, 0, 0],
            SettingMode::Button {
                button_id,
                event,
                para_speed,
                para_cancel_down,
                para_down_speed,
                para_increase,
            } => [
                0x50u8,
                selector,
                0x01,
                button_id,
                event.raw(),
                para_speed,
                para_cancel_down,
                para_down_speed,
                para_increase,
                0,
                0,
                0,
                0,
                0,
                0,
                0,
                0,
            ],
            SettingMode::Multi {
                short_click_id,
                long_click_id,
                acceleration_id,
                acceleration,
                para_mapping,
                debouncing,
                cancel_debouncing,
            } => {
                let fields: [u8; 7] = acceleration.to_bytes();
                [
                    0x50u8,
                    selector,
                    0x02,
                    short_click_id,
                    0,
                    long_click_id,
                    acceleration_id,
                    fields[0],
                    fields[1],
                    fields[2],
                    fields[3],
                    fields[4],
                    fields[5],
                    fields[6],
                    para_mapping,
                    debouncing,
                    cancel_debouncing,
                ]
            },
            SettingMode::ExternalVoltage {
                out_voltage_id,
                pullup,
                lower_threshold,
                upper_threshold,
                para_mapping,
            } => [
                0x50u8,
                selector,
                0x0F,
                out_voltage_id,
                to_bit(pullup),
                lower_threshold,
                upper_threshold,
                para_mapping,
                0,
                0,
                0,
                0,
                0,
                0,
                0,
                0,
                0,
            ],
            SettingMode::MotionStream => [
                0x50u8,
                selector,
                0xFF,
                0,
                0,
                0,
                0,
                0,
                0,
                0,
                0,
                0,
                0,
                0,
                0,
                0,
                0,
            ],
        };
        assert(payload@ =~= self.encoded());
        payload
    }
}

/// A parsed PawPrints notification event.
#[derive(Clone, Debug, PartialEq, Eq)]
pub enum PawPrintsEvent {
    /// A short button-press edge packet.
    ButtonPressed {
        /// Selector/context byte returned by the firmware.
        selector: LedColor,
    },
    /// A short button-release edge packet.
    ButtonReleased {
        /// Selector/context byte returned by the firmware.
        selector: LedColor,
    },
    /// A 13-byte state packet with digital state and motion values.
    State {
        /// Bottom first button state. `true` means the raw value was not `1`.
        bottom_first: bool,
        /// Bottom second button state. `true` means the raw value was not `1`.
        bottom_second: bool,
        /// Top button state. `true` means the raw value was not `1`.
        top: bool,
        /// Overall acceleration value.
        overall: i16,
        /// Rotation/angle value.
        rotation: i16,
        /// X-axis value.
        x: i16,
        /// Y-axis value.
        y: i16,
        /// Z-axis value.
        z: i16,
    },
    /// A `0x48` motion packet.
    Motion {
        /// Sound value.
        sound: i16,
        /// X-axis value.
        x: i16,
        /// Y-axis value.
        y: i16,
        /// Z-axis value.
        z: i16,
    },
    /// A `0xF1` debug packet.
    DebugF1 {
        /// X-down threshold value.
        xd: i16,
        /// X-up threshold value.
        xu: i16,
        /// Y-down threshold value.
        yd: i16,
        /// Y-up threshold value.
        yu: i16,
        /// Z-down threshold value.
        zd: i16,
        /// Z-up threshold value.
        zu: i16,
    },
    /// A packet that is not recognized yet.
    Unknown(Vec<u8>),
}

/// Whether this is the packet of a button press.
pub open spec fn is_press(packet: Seq<u8>) -> bool {
    packet.len() == 4 && packet[0] == 0x5A && packet[2] == 0x01 && packet[3] == 0x01
}

/// Whether this is the packet of a button release.
pub open spec fn is_release(packet: Seq<u8>) -> bool {
    packet.len() == 3 && packet[0] == 0x5B && packet[2] == 0x01
}

/// The number at `index`.
pub open spec fn number_at(packet: Seq<u8>, index: int) -> i16 {
    bytes::big_endian(packet[index], packet[index + 1])
}

/// Read the number at `index`.
fn read_number(packet: &[u8], index: usize) -> (value: i16)
    requires
        index + 2 <= packet@.len(),
    ensures
        value == number_at(packet@, index as int),
{
    bytes::from_big_endian(packet[index], packet[index + 1])
}

impl PawPrintsEvent {
    /// Whether the selector of a button packet is one of the known options.
    pub open spec fn known_selector(packet: Seq<u8>) -> bool {
        is_press(packet) || is_release(packet) ==> packet[1] <= 7
    }

    /// The event that a known packet reports; other packets have none.
    pub open spec fn reported(packet: Seq<u8>) -> Option<Self> {
        if is_press(packet) {
            match LedColor::of_code(packet[1]) {
                Some(selector) => Some(PawPrintsEvent::ButtonPressed { selector }),
                None => None,
            }
        } else if is_release(packet) {
            match LedColor::of_code(packet[1]) {
                Some(selector) => Some(PawPrintsEvent::ButtonReleased { selector }),
                None => None,
            }
        } else if packet.len() == 13 && packet[0] <= 1 {
            Some(
                PawPrintsEvent::State {
                    bottom_first: packet[0] != 1,
                    bottom_second: packet[1] != 1,
                    top: packet[2] != 1,
                    overall: number_at(packet, 3),
                    rotation: number_at(packet, 5),
                    x: number_at(packet, 7),
                    y: number_at(packet, 9),
                    z: number_at(packet, 11),
                },
            )
        } else if packet.len() == 9 && packet[0] == 0x48 {
            Some(
                PawPrintsEvent::Motion {
                    sound: number_at(packet, 1),
                    x: number_at(packet, 3),
                    y: number_at(packet, 5),
                    z: number_at(packet, 7),
                },
            )
        } else if packet.len() == 14 && packet[0] == 0xF1 {
            Some(
                PawPrintsEvent::DebugF1 {
                    xd: number_at(packet, 2),
                    xu: number_at(packet, 4),
                    yd: number_at(packet, 6),
                    yu: number_at(packet, 8),
                    zd: number_at(packet, 10),
                    zu: number_at(packet, 12),
                },
            )
        } else {
            None
        }
    }

    /// Tell whether [`Self::from_bytes`] can parse the packet: the selector of a button packet has
    /// to be one of the known options.
    pub fn has_known_selector(packet: &[u8]) -> (known: bool)
        ensures
            known == PawPrintsEvent::known_selector(packet@),
    {
        let press = packet.len() == 4 && packet[0] == 0x5A && packet[2] == 0x01 && packet[3]
            == 0x01;
        let release = packet.len() == 3 && packet[0] == 0x5B && packet[2] == 0x01;
        if press || release {
            packet[1] <= 7
        } else {
            true
        }
    }

    /// Parse one notification, retaining packets that are not recognized as [`Self::Unknown`].
    pub fn from_bytes(packet: &[u8]) -> (event: Self)
        requires
            PawPrintsEvent::known_selector(packet@),
        ensures
            match PawPrintsEvent::reported(packet@) {
                Some(reported) => event == reported,
                None => event matches PawPrintsEvent::Unknown(kept) && kept@ == packet@,
            },
    {
        if packet.len() == 4 && packet[0] == 0x5A && packet[2] == 0x01 && packet[3] == 0x01 {
            return PawPrintsEvent::ButtonPressed { selector: LedColor::from(packet[1]) };
        }
        if packet.len() == 3 && packet[0] == 0x5B && packet[2] == 0x01 {
            return PawPrintsEvent::ButtonReleased { selector: LedColor::from(packet[1]) };
        }
        if packet.len() == 13 && (packet[0] == 0x00 || packet[0] == 0x01) {
            return PawPrintsEvent::State {
                bottom_first: packet[0] != 1,
                bottom_second: packet[1] != 1,
                top: packet[2] != 1,
                overall: read_number(packet, 3),
                rotation: read_number(packet, 5),
                x: read_number(packet, 7),
                y: read_number(packet, 9),
                z: read_number(packet, 11),
            };
        }
        if packet.len() == 9 && packet[0] == 0x48 {
            return PawPrintsEvent::Motion {
                sound: read_number(packet, 1),
                x: read_number(packet, 3),
                y: read_number(packet, 5),
                z: read_number(packet, 7),
            };
        }
        if packet.len() == 14 && packet[0] == 0xF1 {
            return PawPrintsEvent::DebugF1 {
                xd: read_number(packet, 2),
                xu: read_number(packet, 4),
                yd: read_number(packet, 6),
                yu: read_number(packet, 8),
                zd: read_number(packet, 10),
                zu: read_number(packet, 12),
            };
        }
        PawPrintsEvent::Unknown(vstd::slice::slice_to_vec(packet))
    }

    /// Parse a notification of the characteristic `uuid`; only the notify characteristic reports
    /// events.
    pub fn from_notification(uuid: u128, packet: &[u8]) -> (event: Option<Self>)
        requires
            uuid == NOTIFY_CHARACTERISTIC_UUID ==> PawPrintsEvent::known_selector(packet@),
        ensures
            uuid != NOTIFY_CHARACTERISTIC_UUID ==> event is None,
            uuid == NOTIFY_CHARACTERISTIC_UUID ==> match PawPrintsEvent::reported(packet@) {
                Some(reported) => event == Some(reported),
                None => event matches Some(PawPrintsEvent::Unknown(kept)) && kept@ == packet@,
            },
    {
        if uuid == NOTIFY_CHARACTERISTIC_UUID {
            Some(PawPrintsEvent::from_bytes(packet))
        } else {
            None
        }
    }
}

/// Every payload has seventeen bytes and starts with `0x50` and the selector; one that clears all
/// trigger behavior holds only zeros behind them.
pub proof fn payload_shape(settings: Settings)
    ensures
        settings.encoded().len() == 17,
        settings.encoded()[0] == 0x50,
        settings.encoded()[1] == settings.selector.code(),
        settings.mode == SettingMode::Disabled ==> forall|i: int|
            2 <= i < 17 ==> settings.encoded()[i] == 0,
{
}

} // verus!
