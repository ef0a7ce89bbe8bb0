//! Standalone commands.

use vstd::prelude::*;

verus! {

/// Shoulder-light colors accepted by the `0x70` command.
#[derive(Clone, Copy, Debug, PartialEq, Eq, Structural)]
pub enum ShoulderColor {
    /// Off.
    Off,
    /// Yellow.
    Yellow,
    /// Red.
    Red,
    /// Purple.
    Purple,
    /// Blue.
    Blue,
    /// Cyan.
    Cyan,
    /// Green.
    Green,
    /// White.
    White,
}

impl ShoulderColor {
    /// The number that stands for this color in a packet.
    pub open spec fn code(self) -> u8 {
        match self {
            ShoulderColor::Off => 0,
            ShoulderColor::Yellow => 1,
            ShoulderColor::Red => 2,
            ShoulderColor::Purple => 3,
            ShoulderColor::Blue => 4,
            ShoulderColor::Cyan => 5,
            ShoulderColor::Green => 6,
            ShoulderColor::White => 7,
        }
    }

    /// Return the number that stands for this color in a packet.
    pub fn raw(self) -> (value: u8)
        ensures
            value == self.code(),
    {
        match self {
            ShoulderColor::Off => 0,
            ShoulderColor::Yellow => 1,
            ShoulderColor::Red => 2,
            ShoulderColor::Purple => 3,
            ShoulderColor::Blue => 4,
            ShoulderColor::Cyan => 5,
            ShoulderColor::Green => 6,
            ShoulderColor::White => 7,
        }
    }
}

/// Shoulder-light flash speed or stop action.
#[derive(Clone, Copy, Debug, PartialEq, Eq, Structural)]
pub enum FlashSpeed {
    /// Slow flashing.
    Slow,
    /// Fast flashing.
    Fast,
    /// Stop flashing.
    Stop,
}

impl FlashSpeed {
    /// The number that stands for this speed in a packet.
    pub open spec fn code(self) -> u8 {
        match self {
            FlashSpeed::Slow => 1,
            FlashSpeed::Fast => 2,
            FlashSpeed::Stop => 3,
        }
    }

    /// Return the number that stands for this speed in a packet.
    pub fn raw(self) -> (value: u8)
        ensures
            value == self.code(),
    {
        match self {
            FlashSpeed::Slow => 1,
            FlashSpeed::Fast => 2,
            FlashSpeed::Stop => 3,
        }
    }
}

/// Standalone V1.1 commands.
#[derive(Clone, Copy, Debug, PartialEq, Eq, Structural)]
pub enum Command {
    /// Reset current parameter values (`0x5f`).
    ResetParameters,
    /// Begin automatic angle detection (`0x60`).
    DetectAngles,
    /// Set a solid shoulder-light color.
    ShoulderSolid(ShoulderColor),
    /// Configure shoulder-light flashing.
    ShoulderFlash {
        /// First color.
        first: ShoulderColor,
        /// Second color.
        second: ShoulderColor,
        /// Flash speed/action.
        speed: FlashSpeed,
    },
}

impl Command {
    /// The bytes of this command.
    pub open spec fn encoded(self) -> Seq<u8> {
        match self {
            Command::ResetParameters => seq![0x5f],
            Command::DetectAngles => seq![0x60],
            Command::ShoulderSolid(color) => seq![0x70, color.code()],
            Command::ShoulderFlash { first, second, speed } => seq![
                0x70,
                first.code(),
                second.code(),
                speed.code(),
            ],
        }
    }

    /// Serialize the command.
    pub fn to_bytes(self) -> (packet: Vec<u8>)
        ensures
            packet@ == self.encoded(),
    {
        match self {
            Command::ResetParameters => vec![0x5f],
            Command::DetectAngles => vec![0x60],
            Command::ShoulderSolid(color) => vec![0x70, color.raw()],
            Command::ShoulderFlash { first, second, speed } => vec![
                0x70,
                first.raw(),
                second.raw(),
                speed.raw(),
            ],
        }
    }
}

/// No two colors have the same number.
pub proof fn shoulder_colors_are_distinct(first: ShoulderColor, second: ShoulderColor)
    requires
        first.code() == second.code(),
    ensures
        first == second,
{
}

/// No two commands have the same bytes.
pub proof fn commands_are_distinct(first: Command, second: Command)
    requires
        first.encoded() == second.encoded(),
    ensures
        first == second,
{
    let packet = first.encoded();
    match (first, second) {
        (Command::ShoulderSolid(one), Command::ShoulderSolid(other)) => {
            assert(packet[1] == one.code() && packet[1] == other.code());
            shoulder_colors_are_distinct(one, other);
        },
        (
            Command::ShoulderFlash { first: a, second: b, speed },
            Command::ShoulderFlash { first: c, second: d, speed: other },
        ) => {
            assert(packet[1] == a.code() && packet[1] == c.code());
            assert(packet[2] == b.code() && packet[2] == d.code());
            assert(packet[3] == speed.code() && packet[3] == other.code());
            shoulder_colors_are_distinct(a, c);
            shoulder_colors_are_distinct(b, d);
        },
        _ => {
            assert(packet.len() == second.encoded().len());
            assert(packet[0] == second.encoded()[0]);
        },
    }
}

} // verus!
