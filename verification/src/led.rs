//! Colors of the indicators.

use vstd::prelude::*;

verus! {

/// LED setting values accepted by the short `0x70` LED command and by `0x50`.
///
/// The values are the numbers `0..=7`; they have no stable color labels.
#[derive(Clone, Copy, Debug, PartialEq, Eq, Structural)]
pub enum LedColor {
    /// Raw LED option `0`.
    Off,
    /// Raw LED option `1`.
    Yellow,
    /// Raw LED option `2`.
    Red,
    /// Raw LED option `3`.
    Purple,
    /// Raw LED option `4`.
    Blue,
    /// Raw LED option `5`.
    LightBlue,
    /// Raw LED option `6`.
    Green,
    /// Raw LED option `7`.
    White,
}

impl LedColor {
    /// The number of this option.
    pub open spec fn code(self) -> u8 {
        match self {
            LedColor::Off => 0,
            LedColor::Yellow => 1,
            LedColor::Red => 2,
            LedColor::Purple => 3,
            LedColor::Blue => 4,
            LedColor::LightBlue => 5,
            LedColor::Green => 6,
            LedColor::White => 7,
        }
    }

    /// The option with this number, if there is one.
    pub open spec fn of_code(value: u8) -> Option<Self> {
        if value == 0 {
            Some(LedColor::Off)
        } else if value == 1 {
            Some(LedColor::Yellow)
        } else if value == 2 {
            Some(LedColor::Red)
        } else if value == 3 {
            Some(LedColor::Purple)
        } else if value == 4 {
            Some(LedColor::Blue)
        } else if value == 5 {
            Some(LedColor::LightBlue)
        } else if value == 6 {
            Some(LedColor::Green)
        } else if value == 7 {
            Some(LedColor::White)
        } else {
            None
        }
    }

    /// Return the option with the number `value`, which must be at most `7`.
    pub fn from(value: u8) -> (color: Self)
        requires
            value <= 7,
        ensures
            LedColor::of_code(value) == Some(color),
            color.code() == value,
    {
        match value {
            0 => LedColor::Off,
            1 => LedColor::Yellow,
            2 => LedColor::Red,
            3 => LedColor::Purple,
            4 => LedColor::Blue,
            5 => LedColor::LightBlue,
            6 => LedColor::Green,
            _ => LedColor::White,
        }
    }

    /// Return the number of this option.
    pub fn raw(self) -> (value: u8)
        ensures
            value == self.code(),
    {
        match self {
            LedColor::Off => 0,
            LedColor::Yellow => 1,
            LedColor::Red => 2,
            LedColor::Purple => 3,
            LedColor::Blue => 4,
            LedColor::LightBlue => 5,
            LedColor::Green => 6,
            LedColor::White => 7,
        }
    }

    /// The short `0x70` packet that shows this color.
    pub fn short_packet(self) -> (packet: [u8; 2])
        ensures
            packet@ == seq![0x70, self.code()],
    {
        [0x70, self.raw()]
    }
}

/// An option is found by its number, and the numbers are `0..=7`.
pub proof fn led_color_round_trip(color: LedColor, value: u8)
    ensures
        LedColor::of_code(color.code()) == Some(color),
        LedColor::of_code(value) is Some <==> value <= 7,
{
}

} // verus!
