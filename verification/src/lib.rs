//! Verified protocol logic for the smart electronic toys created by DG-LAB.
//!
//! The supported devices are the Coyote 3 and the PawPrints. Everything in this
//! crate works on plain values: it builds the packets that are written to a
//! device, reads the packets that a device sends, and decides what a connection
//! does next. Talking to the Bluetooth stack is left to the caller.

pub mod bytes;
pub mod coyote3;
pub mod error;
pub mod hex;
pub mod laws;
pub mod led;
pub mod link;
pub mod paw_link;
pub mod pawprints1;
pub mod pawprints11;
pub mod stereo;
pub mod wire;

pub use error::Error;
pub use led::LedColor;
pub use stereo::Stereo;
