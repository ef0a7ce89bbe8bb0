//! Pairs of channel values.

use vstd::prelude::*;

verus! {

/// A pair of values, one for each of the two channels.
#[derive(Clone, Copy, Debug, PartialEq, Eq, Structural, Default)]
pub struct Stereo<T> {
    /// The value of channel A.
    pub a: T,
    /// The value of channel B.
    pub b: T,
}

impl<T: Copy> Stereo<T> {
    /// Use the same value on both channels.
    pub fn symmetric(value: T) -> (pair: Self)
        ensures
            pair.a == value,
            pair.b == value,
    {
        Stereo { a: value, b: value }
    }
}

impl<T> From<(T, T)> for Stereo<T> {
    fn from(pair: (T, T)) -> (result: Self) {
        Stereo { a: pair.0, b: pair.1 }
    }
}

impl<T> vstd::std_specs::convert::FromSpecImpl<(T, T)> for Stereo<T> {
    open spec fn obeys_from_spec() -> bool {
        true
    }

    open spec fn from_spec(pair: (T, T)) -> Self {
        Stereo { a: pair.0, b: pair.1 }
    }
}

} // verus!
