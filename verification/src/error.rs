//! What can go wrong.

use vstd::prelude::*;

verus! {

/// What can go wrong on this side of the Bluetooth link.
#[derive(Clone, Copy, Debug, PartialEq, Eq)]
pub enum Error {
    /// The device lacks the characteristic with this UUID, given as a 128-bit number.
    MissingCharacteristic(u128),
    /// The PawPrints settings cannot be sent; the text says why.
    InvalidPawPrintsSettings(&'static str),
}

} // verus!
