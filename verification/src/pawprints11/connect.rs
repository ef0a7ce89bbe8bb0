//! How a device is found and written to.

use crate::error::Error;
use crate::paw_link::ConnectStep;
use crate::pawprints11::settings::Settings;
use vstd::prelude::*;

verus! {

/// The name that a PawPrints V1.1 advertises.
pub const DEVICE_NAME: &'static str = "47L120300";

/// Tell whether a device with this name is a PawPrints V1.1.
pub fn is_device_name(local_name: &str) -> (matches: bool)
    ensures
        matches == (local_name@ == DEVICE_NAME@),
{
    local_name.to_owned() == DEVICE_NAME.to_owned()
}

/// The bit of the properties of a characteristic that allows to write without a response.
pub const WRITE_WITHOUT_RESPONSE: u8 = 0x04;

/// The bit of the properties of a characteristic that allows to write with a response.
pub const WRITE: u8 = 0x08;

/// How a characteristic is written.
#[derive(Clone, Copy, Debug, PartialEq, Eq, Structural)]
pub enum WriteType {
    /// The device acknowledges what it receives.
    WithResponse,
    /// The device does not acknowledge what it receives.
    WithoutResponse,
}

/// Choose how to write a characteristic with these properties: without a response wherever it
/// allows that.
pub fn supported_write_type(properties: u8) -> (write_type: WriteType)
    ensures
        write_type == if properties / WRITE_WITHOUT_RESPONSE % 2 == 1 {
            WriteType::WithoutResponse
        } else {
            WriteType::WithResponse
        },
{
    assert(properties & 0x04 != 0 <==> properties / 4 % 2 == 1) by (bit_vector);
    if properties & WRITE_WITHOUT_RESPONSE != 0 {
        WriteType::WithoutResponse
    } else {
        WriteType::WithResponse
    }
}

/// Begin a connection that will apply `settings`: return their packet and the first step.
///
/// Settings that cannot be sent end the connection here, before any adapter or device is used.
pub fn begin(settings: &Settings, adapter_given: bool, peripheral_given: bool) -> (result: Result<
    ([u8; 17], ConnectStep),
    Error,
>)
    ensures
        match result {
            Ok((packet, step)) => {
                &&& settings.trigger.problem() is None
                &&& packet@ == settings.encoded()
                &&& step == ConnectStep::initial(adapter_given, peripheral_given)
            },
            Err(error) => error matches Error::InvalidPawPrintsSettings(reason)
                && settings.trigger.problem() == Some(reason@),
        },
{
    match settings.to_bytes() {
        Ok(packet) => Ok((packet, ConnectStep::first(adapter_given, peripheral_given))),
        Err(error) => Err(error),
    }
}

} // verus!
