//! How a Coyote 3 is connected to.

use crate::coyote3::settings::DeviceSettings;
use crate::coyote3::state::{
    State, BATTERY_CHARACTERISTIC_UUID, NOTIFY_CHARACTERISTIC_UUID, WRITE_CHARACTERISTIC_UUID,
};
use crate::error::Error;
use crate::link::{self, LinkEvent, LinkStep};
use vstd::prelude::*;

verus! {

/// The name that a Coyote 3 advertises.
pub const DEVICE_NAME: &'static str = "47L121000";

/// Tell whether a device with this name is a Coyote 3.
pub fn is_device_name(local_name: &str) -> (matches: bool)
    ensures
        matches == (local_name@ == DEVICE_NAME@),
{
    local_name.to_owned() == DEVICE_NAME.to_owned()
}

/// The first required characteristic that is not among `uuids`.
pub open spec fn missing_characteristic(uuids: Seq<u128>) -> Option<u128> {
    if !uuids.contains(BATTERY_CHARACTERISTIC_UUID) {
        Some(BATTERY_CHARACTERISTIC_UUID)
    } else if !uuids.contains(NOTIFY_CHARACTERISTIC_UUID) {
        Some(NOTIFY_CHARACTERISTIC_UUID)
    } else if !uuids.contains(WRITE_CHARACTERISTIC_UUID) {
        Some(WRITE_CHARACTERISTIC_UUID)
    } else {
        None
    }
}

/// Check that a device has all the characteristics that are needed.
pub fn validate_characteristic_uuids(uuids: &[u128]) -> (result: Result<(), Error>)
    ensures
        match missing_characteristic(uuids@) {
            Some(uuid) => result == Err::<(), Error>(Error::MissingCharacteristic(uuid)),
            None => result is Ok,
        },
{
    proof {
        link::first_position_exists(uuids@, BATTERY_CHARACTERISTIC_UUID, 0);
        link::first_position_exists(uuids@, NOTIFY_CHARACTERISTIC_UUID, 0);
        link::first_position_exists(uuids@, WRITE_CHARACTERISTIC_UUID, 0);
    }
    if link::find_first(uuids, BATTERY_CHARACTERISTIC_UUID, 0).is_none() {
        return Err(Error::MissingCharacteristic(BATTERY_CHARACTERISTIC_UUID));
    }
    if link::find_first(uuids, NOTIFY_CHARACTERISTIC_UUID, 0).is_none() {
        return Err(Error::MissingCharacteristic(NOTIFY_CHARACTERISTIC_UUID));
    }
    if link::find_first(uuids, WRITE_CHARACTERISTIC_UUID, 0).is_none() {
        return Err(Error::MissingCharacteristic(WRITE_CHARACTERISTIC_UUID));
    }
    Ok(())
}

/// Where the required characteristics stand in the list of the device.
#[derive(Clone, Copy, Debug, PartialEq, Eq, Structural)]
pub struct Characteristics {
    /// The position of the battery characteristic.
    pub battery: usize,
    /// The position of the notify characteristic.
    pub notify: usize,
    /// The position of the write characteristic.
    pub write: usize,
}

impl Characteristics {
    /// The first positions of the required characteristics.
    pub open spec fn located(uuids: Seq<u128>) -> Self
        recommends
            missing_characteristic(uuids) is None,
    {
        Characteristics {
            battery: link::first_position(uuids, BATTERY_CHARACTERISTIC_UUID, 0)->0,
            notify: link::first_position(uuids, NOTIFY_CHARACTERISTIC_UUID, 0)->0,
            write: link::first_position(uuids, WRITE_CHARACTERISTIC_UUID, 0)->0,
        }
    }

    /// Find the required characteristics.
    pub fn locate(uuids: &[u128]) -> (result: Result<Self, Error>)
        ensures
            match missing_characteristic(uuids@) {
                Some(uuid) => result == Err::<Self, Error>(Error::MissingCharacteristic(uuid)),
                None => result == Ok::<Self, Error>(Characteristics::located(uuids@)),
            },
    {
        match validate_characteristic_uuids(uuids) {
            Ok(()) => {},
            Err(error) => {
                return Err(error);
            },
        }
        proof {
            link::first_position_exists(uuids@, BATTERY_CHARACTERISTIC_UUID, 0);
            link::first_position_exists(uuids@, NOTIFY_CHARACTERISTIC_UUID, 0);
            link::first_position_exists(uuids@, WRITE_CHARACTERISTIC_UUID, 0);
        }
        Ok(
            Characteristics {
                battery: link::find_first(uuids, BATTERY_CHARACTERISTIC_UUID, 0).unwrap(),
                notify: link::find_first(uuids, NOTIFY_CHARACTERISTIC_UUID, 0).unwrap(),
                write: link::find_first(uuids, WRITE_CHARACTERISTIC_UUID, 0).unwrap(),
            },
        )
    }
}

/// What the connection to a Coyote 3 does next.
#[derive(Clone, Copy, Debug, PartialEq, Eq)]
pub enum ConnectStep {
    /// Get to the services of the device.
    Link(LinkStep),
    /// List the characteristics of the device.
    ListCharacteristics,
    /// Subscribe to the battery level.
    SubscribeBattery(Characteristics),
    /// Subscribe to the intensity reports.
    SubscribeNotify(Characteristics),
    /// Read the battery level.
    ReadBattery(Characteristics),
    /// Start to take in notifications, from this state on.
    OpenNotifications(Characteristics, State),
    /// Write the settings of the state to the device.
    WriteSettings(Characteristics, State),
    /// The connection is complete.
    Connected(Characteristics, State),
    /// The device cannot be used.
    Failed(Error),
}

/// What a connection to a Coyote 3 starts from.
#[derive(Clone, Copy, Debug, PartialEq, Eq, Structural)]
pub struct ConnectSetup {
    /// Whether the caller brings an adapter.
    pub adapter_given: bool,
    /// Whether the caller brings a device.
    pub peripheral_given: bool,
    /// The settings to use.
    pub settings: DeviceSettings,
}

impl ConnectStep {
    /// The step of a connection whose way to the services is at `step`.
    pub open spec fn of_link(step: LinkStep) -> Self {
        if step is Ready {
            ConnectStep::ListCharacteristics
        } else {
            ConnectStep::Link(step)
        }
    }

    /// The first step.
    pub open spec fn initial(setup: ConnectSetup) -> Self {
        ConnectStep::of_link(LinkStep::initial(setup.adapter_given, setup.peripheral_given))
    }

    /// The step that follows this one after `event`, where `uuids` are the characteristics that
    /// were listed and `battery_value` is the battery value that was read, as far as that has been
    /// done. An event that this step does not wait for leaves it as it is.
    pub open spec fn next(
        self,
        setup: ConnectSetup,
        uuids: Seq<u128>,
        battery_value: Seq<u8>,
        event: LinkEvent,
    ) -> Self {
        match self {
            ConnectStep::Link(step) => ConnectStep::of_link(
                step.next(setup.peripheral_given, event),
            ),
            ConnectStep::Connected(..) | ConnectStep::Failed(_) => self,
            _ => if event != LinkEvent::Done {
                self
            } else {
                match self {
                    ConnectStep::ListCharacteristics => match missing_characteristic(uuids) {
                        Some(uuid) => ConnectStep::Failed(Error::MissingCharacteristic(uuid)),
                        None => ConnectStep::SubscribeBattery(Characteristics::located(uuids)),
                    },
                    ConnectStep::SubscribeBattery(found) => ConnectStep::SubscribeNotify(found),
                    ConnectStep::SubscribeNotify(found) => ConnectStep::ReadBattery(found),
                    ConnectStep::ReadBattery(found) => ConnectStep::OpenNotifications(
                        found,
                        State::at_start(battery_value, setup.settings),
                    ),
                    ConnectStep::OpenNotifications(found, state) => ConnectStep::WriteSettings(
                        found,
                        state,
                    ),
                    ConnectStep::WriteSettings(found, state) => ConnectStep::Connected(
                        found,
                        state,
                    ),
                    _ => self,
                }
            },
        }
    }

    /// Return the first step.
    pub fn first(setup: ConnectSetup) -> (step: Self)
        ensures
            step == ConnectStep::initial(setup),
    {
        ConnectStep::Link(LinkStep::first(setup.adapter_given, setup.peripheral_given))
    }

    /// Return the step that follows this one after `event`.
    pub fn advance(
        self,
        setup: ConnectSetup,
        uuids: &[u128],
        battery_value: &[u8],
        event: LinkEvent,
    ) -> (step: Self)
        ensures
            step == self.next(setup, uuids@, battery_value@, event),
    {
        if let ConnectStep::Link(step) = self {
            let step = step.advance(setup.peripheral_given, event);
            return if step == LinkStep::Ready {
                ConnectStep::ListCharacteristics
            } else {
                ConnectStep::Link(step)
            };
        }
        if event != LinkEvent::Done {
            return self;
        }
        match self {
            ConnectStep::ListCharacteristics => match Characteristics::locate(uuids) {
                Ok(found) => ConnectStep::SubscribeBattery(found),
                Err(error) => ConnectStep::Failed(error),
            },
            ConnectStep::SubscribeBattery(found) => ConnectStep::SubscribeNotify(found),
            ConnectStep::SubscribeNotify(found) => ConnectStep::ReadBattery(found),
            ConnectStep::ReadBattery(found) => ConnectStep::OpenNotifications(
                found,
                State::connected(battery_value, setup.settings),
            ),
            ConnectStep::OpenNotifications(found, state) => ConnectStep::WriteSettings(
                found,
                state,
            ),
            ConnectStep::WriteSettings(found, state) => ConnectStep::Connected(found, state),
            _ => self,
        }
    }
}

// Laws.

/// The step that a connection is at after some events.
pub open spec fn connect_after(
    setup: ConnectSetup,
    uuids: Seq<u128>,
    battery_value: Seq<u8>,
    events: Seq<LinkEvent>,
) -> ConnectStep
    decreases events.len(),
{
    if events.len() == 0 {
        ConnectStep::initial(setup)
    } else {
        connect_after(setup, uuids, battery_value, events.drop_last()).next(
            setup,
            uuids,
            battery_value,
            events.last(),
        )
    }
}

/// Whether what a step holds fits what the connection started from and what was read.
pub open spec fn step_fits(
    step: ConnectStep,
    setup: ConnectSetup,
    uuids: Seq<u128>,
    battery_value: Seq<u8>,
) -> bool {
    match step {
        ConnectStep::Link(_) | ConnectStep::ListCharacteristics => true,
        ConnectStep::SubscribeBattery(found)
        | ConnectStep::SubscribeNotify(found)
        | ConnectStep::ReadBattery(found) => missing_characteristic(uuids) is None && found
            == Characteristics::located(uuids),
        ConnectStep::OpenNotifications(found, state)
        | ConnectStep::WriteSettings(found, state)
        | ConnectStep::Connected(found, state) => missing_characteristic(uuids) is None && found
            == Characteristics::located(uuids) && state == State::at_start(
            battery_value,
            setup.settings,
        ),
        ConnectStep::Failed(error) => missing_characteristic(uuids) matches Some(uuid) && error
            == Error::MissingCharacteristic(uuid),
    }
}

/// At every step of every connection the characteristics are those of the device, and the state
/// that will be published holds the battery level that was read and the constrained settings. A
/// connection fails exactly with the first characteristic that is missing.
pub proof fn connection_fits_the_device(
    setup: ConnectSetup,
    uuids: Seq<u128>,
    battery_value: Seq<u8>,
    events: Seq<LinkEvent>,
)
    ensures
        step_fits(connect_after(setup, uuids, battery_value, events), setup, uuids, battery_value),
    decreases events.len(),
{
    if events.len() > 0 {
        connection_fits_the_device(setup, uuids, battery_value, events.drop_last());
    }
}

/// No connection is complete before the settings were written to the device.
pub proof fn settings_are_written_on_every_connection(
    setup: ConnectSetup,
    uuids: Seq<u128>,
    battery_value: Seq<u8>,
    events: Seq<LinkEvent>,
)
    requires
        connect_after(setup, uuids, battery_value, events) is Connected,
    ensures
        exists|i: int|
            0 <= i < events.len() && #[trigger] events[i] == LinkEvent::Done && connect_after(
                setup,
                uuids,
                battery_value,
                events.take(i),
            ) == ConnectStep::WriteSettings(
                Characteristics::located(uuids),
                State::at_start(battery_value, setup.settings),
            ),
    decreases events.len(),
{
    if events.len() > 0 {
        let before = events.drop_last();
        let step = connect_after(setup, uuids, battery_value, before);
        connection_fits_the_device(setup, uuids, battery_value, before);
        if step is Connected {
            settings_are_written_on_every_connection(setup, uuids, battery_value, before);
            let i = choose|i: int|
                0 <= i < before.len() && #[trigger] before[i] == LinkEvent::Done && connect_after(
                    setup,
                    uuids,
                    battery_value,
                    before.take(i),
                ) == ConnectStep::WriteSettings(
                    Characteristics::located(uuids),
                    State::at_start(battery_value, setup.settings),
                );
            assert(before.take(i) =~= events.take(i));
            assert(events[i] == before[i]);
        } else {
            let last = events.len() - 1;
            assert(events.take(last) =~= before);
            assert(events[last] == LinkEvent::Done);
        }
    }
}

impl ConnectStep {
    /// Whether the device to use is settled at this step.
    pub open spec fn has_device(self) -> bool {
        match self {
            ConnectStep::Link(step) => step.has_device(),
            _ => true,
        }
    }
}

/// Until the services are known, a connection is where the way to them is.
pub proof fn connection_starts_with_the_link(
    setup: ConnectSetup,
    uuids: Seq<u128>,
    battery_value: Seq<u8>,
    events: Seq<LinkEvent>,
)
    ensures
        ({
            let way = link::link_after(setup.adapter_given, setup.peripheral_given, events);
            match connect_after(setup, uuids, battery_value, events) {
                ConnectStep::Link(step) => step == way && way !is Ready,
                _ => way is Ready,
            }
        }),
    decreases events.len(),
{
    if events.len() > 0 {
        connection_starts_with_the_link(setup, uuids, battery_value, events.drop_last());
    }
}

/// A connection that was not given a device uses only one whose name was accepted.
pub proof fn only_accepted_devices_are_connected(
    setup: ConnectSetup,
    uuids: Seq<u128>,
    battery_value: Seq<u8>,
    events: Seq<LinkEvent>,
)
    requires
        !setup.peripheral_given,
        connect_after(setup, uuids, battery_value, events).has_device(),
    ensures
        exists|i: int|
            0 <= i < events.len() && #[trigger] events[i] == (LinkEvent::Candidate {
                accepted: true,
            }) && connect_after(setup, uuids, battery_value, events.take(i)) == ConnectStep::Link(
                LinkStep::InspectCandidate,
            ),
{
    connection_starts_with_the_link(setup, uuids, battery_value, events);
    link::only_accepted_devices_are_used(setup.adapter_given, events);
    let i = choose|i: int|
        0 <= i < events.len() && #[trigger] events[i] == (LinkEvent::Candidate { accepted: true })
            && link::link_after(setup.adapter_given, false, events.take(i))
            == LinkStep::InspectCandidate;
    connection_starts_with_the_link(setup, uuids, battery_value, events.take(i));
    assert(events[i] == (LinkEvent::Candidate { accepted: true }));
}

} // verus!
