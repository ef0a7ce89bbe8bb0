//! Acceleration readings.

use crate::bytes;
use vstd::prelude::*;

verus! {

/// Raw acceleration readings received directly from the sensor.
///
/// Each axis is a signed 8-bit value before any scaling, calibration or unit conversion.
#[derive(Debug, Clone, Copy, PartialEq, Eq, Structural)]
pub struct RawAccel {
    /// Raw reading for the X axis.
    pub x: i8,
    /// Raw reading for the Y axis.
    pub y: i8,
    /// Raw reading for the Z axis.
    pub z: i8,
}

impl RawAccel {
    /// The readings that three bytes stand for.
    pub open spec fn of_bytes(x: u8, y: u8, z: u8) -> Self {
        RawAccel {
            x: bytes::byte_as_signed(x),
            y: bytes::byte_as_signed(y),
            z: bytes::byte_as_signed(z),
        }
    }

    /// Read the three axes from their bytes.
    pub fn from_u8(x: u8, y: u8, z: u8) -> (readings: Self)
        ensures
            readings == RawAccel::of_bytes(x, y, z),
    {
        RawAccel {
            x: bytes::from_signed_byte(x),
            y: bytes::from_signed_byte(y),
            z: bytes::from_signed_byte(z),
        }
    }
}

/// Which side of the sensor points most strongly in the direction of acceleration, such as
/// gravity.
#[derive(Debug, Clone, Copy, PartialEq, Eq, Structural)]
pub enum AxisDirection {
    /// Positive X direction.
    PosX,
    /// Negative X direction.
    NegX,
    /// Positive Y direction.
    PosY,
    /// Negative Y direction.
    NegY,
    /// Positive Z direction.
    PosZ,
    /// Negative Z direction.
    NegZ,
}

/// How the components of a reading compare, as far as the choice of an axis needs it.
#[derive(Debug, Clone, Copy, PartialEq, Eq, Structural)]
pub struct AxisComparison {
    /// Whether X is at least as large as Y, both without their signs.
    pub x_covers_y: bool,
    /// Whether X is at least as large as Z, both without their signs.
    pub x_covers_z: bool,
    /// Whether Y is at least as large as Z, both without their signs.
    pub y_covers_z: bool,
    /// Whether X is zero or positive.
    pub x_up: bool,
    /// Whether Y is zero or positive.
    pub y_up: bool,
    /// Whether Z is zero or positive.
    pub z_up: bool,
}

impl AxisComparison {
    /// How three numbers compare.
    pub open spec fn of_numbers(x: int, y: int, z: int) -> Self {
        AxisComparison {
            x_covers_y: magnitude(x) >= magnitude(y),
            x_covers_z: magnitude(x) >= magnitude(z),
            y_covers_z: magnitude(y) >= magnitude(z),
            x_up: x >= 0,
            y_up: y >= 0,
            z_up: z >= 0,
        }
    }
}

/// A number without its sign.
pub open spec fn magnitude(value: int) -> int {
    if value >= 0 {
        value
    } else {
        -value
    }
}

impl AxisDirection {
    /// The direction along one axis.
    pub open spec fn along(positive: Self, negative: Self, up: bool) -> Self {
        if up {
            positive
        } else {
            negative
        }
    }

    /// The axis that carries the largest component; of equal ones X comes first, then Y.
    pub open spec fn chosen(comparison: AxisComparison) -> Self {
        if comparison.x_covers_y && comparison.x_covers_z {
            AxisDirection::along(AxisDirection::PosX, AxisDirection::NegX, comparison.x_up)
        } else if comparison.y_covers_z {
            AxisDirection::along(AxisDirection::PosY, AxisDirection::NegY, comparison.y_up)
        } else {
            AxisDirection::along(AxisDirection::PosZ, AxisDirection::NegZ, comparison.z_up)
        }
    }

    /// Choose the axis that carries the largest component.
    pub fn dominant(comparison: AxisComparison) -> (direction: Self)
        ensures
            direction == AxisDirection::chosen(comparison),
    {
        if comparison.x_covers_y && comparison.x_covers_z {
            if comparison.x_up {
                AxisDirection::PosX
            } else {
                AxisDirection::NegX
            }
        } else if comparison.y_covers_z {
            if comparison.y_up {
                AxisDirection::PosY
            } else {
                AxisDirection::NegY
            }
        } else if comparison.z_up {
            AxisDirection::PosZ
        } else {
            AxisDirection::NegZ
        }
    }

    /// The component of a reading in this direction.
    pub open spec fn component(self, x: int, y: int, z: int) -> int {
        match self {
            AxisDirection::PosX => x,
            AxisDirection::NegX => -x,
            AxisDirection::PosY => y,
            AxisDirection::NegY => -y,
            AxisDirection::PosZ => z,
            AxisDirection::NegZ => -z,
        }
    }
}

/// On numbers, no component is larger, without its sign, than the one in the chosen direction.
pub proof fn chosen_axis_carries_the_largest_component(x: int, y: int, z: int)
    ensures
        ({
            let largest = AxisDirection::chosen(AxisComparison::of_numbers(x, y, z)).component(
                x,
                y,
                z,
            );
            magnitude(x) <= largest && magnitude(y) <= largest && magnitude(z) <= largest
        }),
{
}

} // verus!
