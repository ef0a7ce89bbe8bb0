//! Notifications.

use crate::bytes;
use crate::paw_link::NOTIFY_CHARACTERISTIC_UUID;
use crate::pawprints11::accel::RawAccel;
use crate::pawprints11::buttons::PawButtons;
use crate::pawprints11::event_id::EventId;
use crate::pawprints11::settings::{AngleRange, MainColor, MotionTrigger};
use vstd::prelude::*;

verus! {

/// One signed range reported by automatic angle detection.
#[derive(Clone, Copy, Debug, PartialEq, Eq, Structural)]
pub struct DetectedRange {
    /// Raw signed lower bound.
    pub lower: i16,
    /// Raw signed upper bound.
    pub upper: i16,
}

/// A parsed V1.1 notification.
#[derive(Clone, Debug, PartialEq)]
pub enum PawPrintsEvent {
    /// `0x51` status and battery report.
    Status {
        /// Main indicator color.
        main_color: MainColor,
        /// Device type (`3` for V1.1).
        device_type: u8,
        /// Battery level.
        battery: u8,
    },
    /// `0x5a` event-triggered report.
    Triggered {
        /// Main indicator color.
        main_color: MainColor,
        /// Triggered event.
        event_id: EventId,
        /// Current parameter.
        parameter: u8,
    },
    /// `0x5b` event-canceled report.
    Canceled {
        /// Main indicator color.
        main_color: MainColor,
        /// Canceled event.
        event_id: EventId,
    },
    /// `0x5c` parameter-change report.
    ParameterChanged {
        /// Main indicator color.
        main_color: MainColor,
        /// Changed event.
        event_id: EventId,
        /// New parameter.
        parameter: u8,
    },
    /// `0xd0` physical sensor report.
    PhysicalData {
        /// Main indicator color.
        main_color: MainColor,
        /// Packet sequence number.
        sequence: u8,
        /// Whether the button is pressed.
        pressed: PawButtons,
        /// Overall acceleration sample.
        acceleration: u8,
        /// acceleration
        accel: RawAccel,
        /// External-voltage sample in centivolts.
        external_voltage: u8,
    },
    /// `0xf1 0x61` automatic XYZ detection result.
    DetectedAngles {
        /// X range.
        x: DetectedRange,
        /// Y range.
        y: DetectedRange,
        /// Z range.
        z: DetectedRange,
    },
    /// An unrecognized or malformed packet.
    Unknown(Vec<u8>),
}

/// The range that the four bytes from `start` on stand for.
pub open spec fn range_at(packet: Seq<u8>, start: int) -> DetectedRange {
    DetectedRange {
        lower: bytes::big_endian(packet[start], packet[start + 1]),
        upper: bytes::big_endian(packet[start + 2], packet[start + 3]),
    }
}

/// Half of `value`, without its fraction, moved into what an `i8` can hold.
pub open spec fn halved(value: i16) -> i8 {
    let half: int = if value >= 0 {
        value / 2
    } else {
        -(-value / 2)
    };
    (if half < -128 {
        -128
    } else if half > 127 {
        127
    } else {
        half
    }) as i8
}

impl DetectedRange {
    /// The angle window that this range stands for in the settings.
    pub open spec fn as_angle(self) -> AngleRange {
        AngleRange { lower: halved(self.lower), upper: halved(self.upper) }
    }
}

impl PawPrintsEvent {
    /// The event that a well-formed packet reports; other packets have none.
    pub open spec fn reported(packet: Seq<u8>) -> Option<Self> {
        if packet.len() == 14 && packet[0] == 0xf1 && packet[1] == 0x61 {
            Some(
                PawPrintsEvent::DetectedAngles {
                    x: range_at(packet, 2),
                    y: range_at(packet, 6),
                    z: range_at(packet, 10),
                },
            )
        } else if packet.len() < 3 {
            None
        } else {
            match (MainColor::of_code(packet[1]), EventId::of_number(packet[2])) {
                (Some(main_color), Some(event_id)) if packet.len() == 4 && packet[0]
                    == 0x5a => Some(
                    PawPrintsEvent::Triggered { main_color, event_id, parameter: packet[3] },
                ),
                (Some(main_color), Some(event_id)) if packet.len() == 3 && packet[0]
                    == 0x5b => Some(PawPrintsEvent::Canceled { main_color, event_id }),
                (Some(main_color), Some(event_id)) if packet.len() == 4 && packet[0]
                    == 0x5c => Some(
                    PawPrintsEvent::ParameterChanged { main_color, event_id, parameter: packet[3] },
                ),
                (Some(main_color), _) if packet.len() == 4 && packet[0] == 0x51 && packet[2]
                    == 0x03 => Some(
                    PawPrintsEvent::Status { main_color, device_type: 3, battery: packet[3] },
                ),
                (Some(main_color), _) if packet.len() == 9 && packet[0] == 0xd0 => Some(
                    PawPrintsEvent::PhysicalData {
                        main_color,
                        sequence: packet[2],
                        pressed: PawButtons::of_bits(packet[3]),
                        acceleration: packet[4],
                        accel: RawAccel::of_bytes(packet[5], packet[6], packet[7]),
                        external_voltage: packet[8],
                    },
                ),
                _ => None,
            }
        }
    }

    /// Parse one notification, retaining malformed packets as [`Self::Unknown`].
    pub fn from_bytes(packet: &[u8]) -> (event: Self)
        ensures
            match PawPrintsEvent::reported(packet@) {
                Some(reported) => event == reported,
                None => event matches PawPrintsEvent::Unknown(kept) && kept@ == packet@,
            },
    {
        if packet.len() == 14 && packet[0] == 0xf1 && packet[1] == 0x61 {
            return PawPrintsEvent::DetectedAngles {
                x: detected_range(packet, 2),
                y: detected_range(packet, 6),
                z: detected_range(packet, 10),
            };
        }
        if packet.len() >= 3 {
            if let Some(main_color) = MainColor::from_raw(packet[1]) {
                if packet.len() == 4 && packet[0] == 0x51 && packet[2] == 0x03 {
                    return PawPrintsEvent::Status {
                        main_color,
                        device_type: 0x03,
                        battery: packet[3],
                    };
                }
                if packet.len() == 9 && packet[0] == 0xd0 {
                    return PawPrintsEvent::PhysicalData {
                        main_color,
                        sequence: packet[2],
                        pressed: PawButtons::from_bits_truncate(packet[3]),
                        acceleration: packet[4],
                        accel: RawAccel::from_u8(packet[5], packet[6], packet[7]),
                        external_voltage: packet[8],
                    };
                }
                if let Ok(event_id) = EventId::new(packet[2]) {
                    if packet.len() == 4 && packet[0] == 0x5a {
                        return PawPrintsEvent::Triggered {
                            main_color,
                            event_id,
                            parameter: packet[3],
                        };
                    }
                    if packet.len() == 3 && packet[0] == 0x5b {
                        return PawPrintsEvent::Canceled { main_color, event_id };
                    }
                    if packet.len() == 4 && packet[0] == 0x5c {
                        return PawPrintsEvent::ParameterChanged {
                            main_color,
                            event_id,
                            parameter: packet[3],
                        };
                    }
                }
            }
        }
        PawPrintsEvent::Unknown(vstd::slice::slice_to_vec(packet))
    }

    /// Parse a notification of the characteristic `uuid`; only the notify characteristic reports
    /// events.
    pub fn from_notification(uuid: u128, packet: &[u8]) -> (event: Option<Self>)
        ensures
            uuid != NOTIFY_CHARACTERISTIC_UUID ==> event is None,
            uuid == NOTIFY_CHARACTERISTIC_UUID ==> match PawPrintsEvent::reported(packet@) {
                Some(reported) => event == Some(reported),
                None => event matches Some(PawPrintsEvent::Unknown(kept)) && kept@ == packet@,
            },
    {
        if uuid == NOTIFY_CHARACTERISTIC_UUID {
            Some(PawPrintsEvent::from_bytes(packet))
        } else {
            None
        }
    }

    /// Convert an automatic detection result into V1.1 angle-trigger ranges.
    pub fn angle_ranges(&self) -> (result: Option<[AngleRange; 3]>)
        ensures
            match *self {
                PawPrintsEvent::DetectedAngles { x, y, z } => result matches Some(ranges)
                    && ranges@ == seq![x.as_angle(), y.as_angle(), z.as_angle()],
                _ => result is None,
            },
    {
        match self {
            PawPrintsEvent::DetectedAngles { x, y, z } => Some(
                [convert_range(*x), convert_range(*y), convert_range(*z)],
            ),
            _ => None,
        }
    }
}

/// Read the range that starts at `start`.
fn detected_range(packet: &[u8], start: usize) -> (range: DetectedRange)
    requires
        start + 4 <= packet@.len(),
    ensures
        range == range_at(packet@, start as int),
{
    DetectedRange {
        lower: bytes::from_big_endian(packet[start], packet[start + 1]),
        upper: bytes::from_big_endian(packet[start + 2], packet[start + 3]),
    }
}

/// Halve `value` and move the result into what an `i8` can hold.
fn halve(value: i16) -> (half: i8)
    ensures
        half == halved(value),
{
    let wide: i32 = value as i32;
    let half: i32 = if wide >= 0 {
        wide / 2
    } else {
        -((-wide) / 2)
    };
    if half < -128 {
        -128
    } else if half > 127 {
        127
    } else {
        half as i8
    }
}

/// Turn a detected range into the angle window of the settings.
pub fn convert_range(range: DetectedRange) -> (angle: AngleRange)
    ensures
        angle == range.as_angle(),
{
    AngleRange { lower: halve(range.lower), upper: halve(range.upper) }
}

/// A detected range with its bounds in order becomes an angle window with its bounds in order,
/// as the settings ask for.
pub proof fn detected_order_is_kept(range: DetectedRange)
    requires
        range.lower <= range.upper,
    ensures
        range.as_angle().ordered(),
{
}

/// A detection result with all bounds in order can be sent back as an angle trigger.
pub proof fn detected_angles_can_be_sent(
    x: DetectedRange,
    y: DetectedRange,
    z: DetectedRange,
    event_id: EventId,
    trigger_debounce: u8,
    cancel_debounce: u8,
    parameter_mapping: u8,
)
    requires
        x.lower <= x.upper,
        y.lower <= y.upper,
        z.lower <= z.upper,
        trigger_debounce <= 7,
        cancel_debounce <= 7,
    ensures
        (MotionTrigger::Angle {
            event_id,
            x: x.as_angle(),
            y: y.as_angle(),
            z: z.as_angle(),
            trigger_debounce,
            cancel_debounce,
            parameter_mapping,
        }).problem() is None,
{
    detected_order_is_kept(x);
    detected_order_is_kept(y);
    detected_order_is_kept(z);
}

/// Only three to fourteen bytes with a known head are recognized.
pub proof fn reported_packets_have_a_known_head(packet: Seq<u8>)
    requires
        PawPrintsEvent::reported(packet) is Some,
    ensures
        3 <= packet.len() <= 14,
        packet[0] == 0x51 || packet[0] == 0x5a || packet[0] == 0x5b || packet[0] == 0x5c
            || packet[0] == 0xd0 || packet[0] == 0xf1,
{
}

} // verus!
