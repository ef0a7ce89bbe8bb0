//! What the connections to both kinds of PawPrints have in common.

use crate::error::Error;
use crate::link::{self, LinkEvent, LinkStep};
use vstd::prelude::*;

verus! {

/// The characteristic that commands are written to.
pub const WRITE_CHARACTERISTIC_UUID: u128 = 0x0000150a_0000_1000_8000_00805f9b34fb;

/// The characteristic that notifies of events.
pub const NOTIFY_CHARACTERISTIC_UUID: u128 = 0x0000150b_0000_1000_8000_00805f9b34fb;

/// What the connection to a PawPrints does next.
#[derive(Clone, Copy, Debug, PartialEq, Eq)]
pub enum ConnectStep {
    /// Get to the services of the device.
    Link(LinkStep),
    /// List the characteristics of the device.
    ListCharacteristics,
    /// Subscribe to the notify characteristic at this position.
    Subscribe(usize),
    /// Write the settings to the characteristic at this position.
    WriteSettings(usize),
    /// The connection is complete; commands go to the characteristic at this position.
    Connected(usize),
    /// The device cannot be used.
    Failed(Error),
}

impl ConnectStep {
    /// The step of a connection whose way to the services is at `step`.
    pub open spec fn of_link(step: LinkStep) -> Self {
        if step is Ready {
            ConnectStep::ListCharacteristics
        } else {
            ConnectStep::Link(step)
        }
    }

    /// The first step.
    pub open spec fn initial(adapter_given: bool, peripheral_given: bool) -> Self {
        ConnectStep::of_link(LinkStep::initial(adapter_given, peripheral_given))
    }

    /// The step that follows once all notify characteristics before `start` are subscribed to:
    /// the next one of them, or, where there is none, the last write characteristic.
    pub open spec fn subscribed_before(uuids: Seq<u128>, start: int) -> Self {
        match link::first_position(uuids, NOTIFY_CHARACTERISTIC_UUID, start) {
            Some(position) => ConnectStep::Subscribe(position),
            None => if !uuids.contains(NOTIFY_CHARACTERISTIC_UUID) {
                ConnectStep::Failed(Error::MissingCharacteristic(NOTIFY_CHARACTERISTIC_UUID))
            } else {
                match link::last_position(uuids, WRITE_CHARACTERISTIC_UUID, uuids.len() as int) {
                    Some(position) => ConnectStep::WriteSettings(position),
                    None => ConnectStep::Failed(
                        Error::MissingCharacteristic(WRITE_CHARACTERISTIC_UUID),
                    ),
                }
            },
        }
    }

    /// The step that follows this one after `event`, where `uuids` are the characteristics that
    /// were listed, as far as that has been done. An event that this step does not wait for leaves
    /// it as it is.
    pub open spec fn next(
        self,
        peripheral_given: bool,
        uuids: Seq<u128>,
        event: LinkEvent,
    ) -> Self {
        match self {
            ConnectStep::Link(step) => ConnectStep::of_link(step.next(peripheral_given, event)),
            ConnectStep::ListCharacteristics if event == LinkEvent::Done => {
                ConnectStep::subscribed_before(uuids, 0)
            },
            ConnectStep::Subscribe(position) if event == LinkEvent::Done => {
                ConnectStep::subscribed_before(uuids, position + 1)
            },
            ConnectStep::WriteSettings(position) if event == LinkEvent::Done => {
                ConnectStep::Connected(position)
            },
            _ => self,
        }
    }

    /// Return the first step.
    pub fn first(adapter_given: bool, peripheral_given: bool) -> (step: Self)
        ensures
            step == ConnectStep::initial(adapter_given, peripheral_given),
    {
        ConnectStep::Link(LinkStep::first(adapter_given, peripheral_given))
    }

    /// Return the step that follows once all notify characteristics before `start` are subscribed
    /// to.
    fn after_subscriptions(uuids: &[u128], start: usize) -> (step: Self)
        ensures
            step == ConnectStep::subscribed_before(uuids@, start as int),
    {
        proof {
            link::first_position_exists(uuids@, NOTIFY_CHARACTERISTIC_UUID, 0);
        }
        if let Some(position) = link::find_first(uuids, NOTIFY_CHARACTERISTIC_UUID, start) {
            return ConnectStep::Subscribe(position);
        }
        if link::find_first(uuids, NOTIFY_CHARACTERISTIC_UUID, 0).is_none() {
            return ConnectStep::Failed(Error::MissingCharacteristic(NOTIFY_CHARACTERISTIC_UUID));
        }
        match link::find_last(uuids, WRITE_CHARACTERISTIC_UUID) {
            Some(position) => ConnectStep::WriteSettings(position),
            None => ConnectStep::Failed(Error::MissingCharacteristic(WRITE_CHARACTERISTIC_UUID)),
        }
    }

    /// Return the step that follows this one after `event`.
    pub fn advance(
        self,
        peripheral_given: bool,
        uuids: &[u128],
        event: LinkEvent,
    ) -> (step: Self)
        ensures
            step == self.next(peripheral_given, uuids@, event),
    {
        match self {
            ConnectStep::Link(step) => {
                let step = step.advance(peripheral_given, event);
                if step == LinkStep::Ready {
                    ConnectStep::ListCharacteristics
                } else {
                    ConnectStep::Link(step)
                }
            },
            ConnectStep::ListCharacteristics if event == LinkEvent::Done => {
                Self::after_subscriptions(uuids, 0)
            },
            ConnectStep::Subscribe(position) if event == LinkEvent::Done => {
                let start: usize = if position < uuids.len() {
                    position + 1
                } else {
                    position
                };
                Self::after_subscriptions(uuids, start)
            },
            ConnectStep::WriteSettings(position) if event == LinkEvent::Done => {
                ConnectStep::Connected(position)
            },
            _ => self,
        }
    }
}

// Laws.

/// The step that a connection is at after some events.
pub open spec fn connect_after(
    adapter_given: bool,
    peripheral_given: bool,
    uuids: Seq<u128>,
    events: Seq<LinkEvent>,
) -> ConnectStep
    decreases events.len(),
{
    if events.len() == 0 {
        ConnectStep::initial(adapter_given, peripheral_given)
    } else {
        connect_after(adapter_given, peripheral_given, uuids, events.drop_last()).next(
            peripheral_given,
            uuids,
            events.last(),
        )
    }
}

/// Whether `step` was done in the course of some events.
#[verifier::opaque]
pub open spec fn was_done(
    adapter_given: bool,
    peripheral_given: bool,
    uuids: Seq<u128>,
    events: Seq<LinkEvent>,
    step: ConnectStep,
) -> bool {
    exists|i: int|
        0 <= i < events.len() && #[trigger] events[i] == LinkEvent::Done && connect_after(
            adapter_given,
            peripheral_given,
            uuids,
            events.take(i),
        ) == step
}

/// What was done stays done when more events come.
proof fn done_stays_done(
    adapter_given: bool,
    peripheral_given: bool,
    uuids: Seq<u128>,
    events: Seq<LinkEvent>,
    step: ConnectStep,
)
    requires
        events.len() > 0,
        was_done(adapter_given, peripheral_given, uuids, events.drop_last(), step),
    ensures
        was_done(adapter_given, peripheral_given, uuids, events, step),
{
    reveal(was_done);
    let before = events.drop_last();
    let i = choose|i: int|
        0 <= i < before.len() && #[trigger] before[i] == LinkEvent::Done && connect_after(
            adapter_given,
            peripheral_given,
            uuids,
            before.take(i),
        ) == step;
    assert(before.take(i) =~= events.take(i));
    assert(events[i] == before[i]);
}

/// A step that the last event completed is done.
proof fn last_is_done(
    adapter_given: bool,
    peripheral_given: bool,
    uuids: Seq<u128>,
    events: Seq<LinkEvent>,
)
    requires
        events.len() > 0,
        events.last() == LinkEvent::Done,
    ensures
        was_done(
            adapter_given,
            peripheral_given,
            uuids,
            events,
            connect_after(adapter_given, peripheral_given, uuids, events.drop_last()),
        ),
{
    reveal(was_done);
    let last = events.len() - 1;
    assert(events.take(last) =~= events.drop_last());
    assert(events[last] == LinkEvent::Done);
}

/// Whether the notify characteristics before `end` have all been subscribed to.
#[verifier::opaque]
pub open spec fn subscriptions_done(
    adapter_given: bool,
    peripheral_given: bool,
    uuids: Seq<u128>,
    events: Seq<LinkEvent>,
    end: int,
) -> bool {
    forall|i: int|
        0 <= i < end && i < uuids.len() && #[trigger] uuids[i] == NOTIFY_CHARACTERISTIC_UUID
            ==> was_done(
            adapter_given,
            peripheral_given,
            uuids,
            events,
            ConnectStep::Subscribe(i as usize),
        )
}

/// Subscriptions that are done stay done when more events come.
proof fn subscriptions_stay_done(
    adapter_given: bool,
    peripheral_given: bool,
    uuids: Seq<u128>,
    events: Seq<LinkEvent>,
    end: int,
)
    requires
        events.len() > 0,
        subscriptions_done(adapter_given, peripheral_given, uuids, events.drop_last(), end),
    ensures
        subscriptions_done(adapter_given, peripheral_given, uuids, events, end),
{
    reveal(subscriptions_done);
    assert forall|i: int|
        0 <= i < end && i < uuids.len() && #[trigger] uuids[i]
            == NOTIFY_CHARACTERISTIC_UUID implies was_done(
        adapter_given,
        peripheral_given,
        uuids,
        events,
        ConnectStep::Subscribe(i as usize),
    ) by {
        done_stays_done(
            adapter_given,
            peripheral_given,
            uuids,
            events,
            ConnectStep::Subscribe(i as usize),
        );
    }
}

/// Whether `step` is one that may be reached after some events: a subscription only where all
/// notify characteristics before it were subscribed to, the settings and what follows only where
/// all of them were, at the last write characteristic, and a failure only where the characteristic
/// that it names is missing, the notify characteristic before the write characteristic.
pub open spec fn step_is_due(
    adapter_given: bool,
    peripheral_given: bool,
    uuids: Seq<u128>,
    events: Seq<LinkEvent>,
    step: ConnectStep,
) -> bool {
    match step {
        ConnectStep::Subscribe(position) => {
            &&& position < uuids.len()
            &&& uuids[position as int] == NOTIFY_CHARACTERISTIC_UUID
            &&& subscriptions_done(
                adapter_given,
                peripheral_given,
                uuids,
                events,
                position as int,
            )
        },
        ConnectStep::WriteSettings(position) | ConnectStep::Connected(position) => {
            &&& position < uuids.len()
            &&& uuids[position as int] == WRITE_CHARACTERISTIC_UUID
            &&& forall|i: int| position < i < uuids.len() ==> uuids[i] != WRITE_CHARACTERISTIC_UUID
            &&& uuids.contains(NOTIFY_CHARACTERISTIC_UUID)
            &&& subscriptions_done(
                adapter_given,
                peripheral_given,
                uuids,
                events,
                uuids.len() as int,
            )
        },
        ConnectStep::Failed(error) => {
            ||| error == Error::MissingCharacteristic(NOTIFY_CHARACTERISTIC_UUID)
                && !uuids.contains(NOTIFY_CHARACTERISTIC_UUID)
            ||| error == Error::MissingCharacteristic(WRITE_CHARACTERISTIC_UUID)
                && !uuids.contains(WRITE_CHARACTERISTIC_UUID) && uuids.contains(
                NOTIFY_CHARACTERISTIC_UUID,
            )
        },
        _ => true,
    }
}

/// Nothing has to be subscribed to before the first characteristic.
proof fn no_subscription_is_done_first(
    adapter_given: bool,
    peripheral_given: bool,
    uuids: Seq<u128>,
    events: Seq<LinkEvent>,
)
    ensures
        subscriptions_done(adapter_given, peripheral_given, uuids, events, 0),
{
    reveal(subscriptions_done);
}

/// One more subscription is done once the one at `position` is.
proof fn subscription_adds_up(
    adapter_given: bool,
    peripheral_given: bool,
    uuids: Seq<u128>,
    events: Seq<LinkEvent>,
    position: usize,
)
    requires
        subscriptions_done(adapter_given, peripheral_given, uuids, events, position as int),
        was_done(
            adapter_given,
            peripheral_given,
            uuids,
            events,
            ConnectStep::Subscribe(position),
        ),
    ensures
        subscriptions_done(adapter_given, peripheral_given, uuids, events, position + 1),
{
    reveal(subscriptions_done);
}

/// Without a notify characteristic from `start` on, the subscriptions before `start` are all.
proof fn no_subscription_is_left(
    adapter_given: bool,
    peripheral_given: bool,
    uuids: Seq<u128>,
    events: Seq<LinkEvent>,
    start: int,
    end: int,
)
    requires
        subscriptions_done(adapter_given, peripheral_given, uuids, events, start),
        forall|i: int| start <= i < end ==> uuids[i] != NOTIFY_CHARACTERISTIC_UUID,
    ensures
        subscriptions_done(adapter_given, peripheral_given, uuids, events, end),
{
    reveal(subscriptions_done);
}

/// What follows the subscriptions before `start` is due once they are done.
proof fn next_subscription_is_due(
    adapter_given: bool,
    peripheral_given: bool,
    uuids: Seq<u128>,
    events: Seq<LinkEvent>,
    start: int,
)
    requires
        0 <= start <= uuids.len() <= usize::MAX,
        subscriptions_done(adapter_given, peripheral_given, uuids, events, start),
    ensures
        step_is_due(
            adapter_given,
            peripheral_given,
            uuids,
            events,
            ConnectStep::subscribed_before(uuids, start),
        ),
{
    link::first_position_is_first(uuids, NOTIFY_CHARACTERISTIC_UUID, start);
    match link::first_position(uuids, NOTIFY_CHARACTERISTIC_UUID, start) {
        Some(position) => {
            no_subscription_is_left(
                adapter_given,
                peripheral_given,
                uuids,
                events,
                start,
                position as int,
            );
        },
        None => {
            link::last_position_is_last(uuids, WRITE_CHARACTERISTIC_UUID, uuids.len() as int);
            no_subscription_is_left(
                adapter_given,
                peripheral_given,
                uuids,
                events,
                start,
                uuids.len() as int,
            );
        },
    }
}

/// A step that is due stays due when more events come.
proof fn due_stays_due(
    adapter_given: bool,
    peripheral_given: bool,
    uuids: Seq<u128>,
    events: Seq<LinkEvent>,
    step: ConnectStep,
)
    requires
        events.len() > 0,
        step_is_due(adapter_given, peripheral_given, uuids, events.drop_last(), step),
    ensures
        step_is_due(adapter_given, peripheral_given, uuids, events, step),
{
    match step {
        ConnectStep::Subscribe(position) => {
            subscriptions_stay_done(
                adapter_given,
                peripheral_given,
                uuids,
                events,
                position as int,
            );
        },
        ConnectStep::WriteSettings(_) | ConnectStep::Connected(_) => {
            subscriptions_stay_done(
                adapter_given,
                peripheral_given,
                uuids,
                events,
                uuids.len() as int,
            );
        },
        _ => {},
    }
}

/// What follows a step that is due, once it is done, is due too.
proof fn due_leads_to_due(
    adapter_given: bool,
    peripheral_given: bool,
    uuids: Seq<u128>,
    events: Seq<LinkEvent>,
    step: ConnectStep,
)
    requires
        uuids.len() <= usize::MAX,
        step !is Link,
        step_is_due(adapter_given, peripheral_given, uuids, events, step),
        was_done(adapter_given, peripheral_given, uuids, events, step),
    ensures
        step_is_due(
            adapter_given,
            peripheral_given,
            uuids,
            events,
            step.next(peripheral_given, uuids, LinkEvent::Done),
        ),
{
    match step {
        ConnectStep::ListCharacteristics => {
            no_subscription_is_done_first(adapter_given, peripheral_given, uuids, events);
            next_subscription_is_due(adapter_given, peripheral_given, uuids, events, 0);
        },
        ConnectStep::Subscribe(position) => {
            subscription_adds_up(adapter_given, peripheral_given, uuids, events, position);
            next_subscription_is_due(
                adapter_given,
                peripheral_given,
                uuids,
                events,
                position + 1,
            );
        },
        _ => {},
    }
}

/// Every notify characteristic of the device is subscribed to, in the order of the list, before
/// the settings are written to the last write characteristic; a connection fails only where one of
/// the two characteristics is missing.
pub proof fn subscriptions_come_before_settings(
    adapter_given: bool,
    peripheral_given: bool,
    uuids: Seq<u128>,
    events: Seq<LinkEvent>,
)
    requires
        uuids.len() <= usize::MAX,
    ensures
        step_is_due(
            adapter_given,
            peripheral_given,
            uuids,
            events,
            connect_after(adapter_given, peripheral_given, uuids, events),
        ),
    decreases events.len(),
{
    if events.len() > 0 {
        let before = events.drop_last();
        let step = connect_after(adapter_given, peripheral_given, uuids, before);
        subscriptions_come_before_settings(adapter_given, peripheral_given, uuids, before);
        due_stays_due(adapter_given, peripheral_given, uuids, events, step);
        if step !is Link && events.last() == LinkEvent::Done {
            last_is_done(adapter_given, peripheral_given, uuids, events);
            due_leads_to_due(adapter_given, peripheral_given, uuids, events, step);
        }
    }
}

/// Only writing the settings completes a connection.
proof fn only_settings_complete(
    step: ConnectStep,
    peripheral_given: bool,
    uuids: Seq<u128>,
    event: LinkEvent,
    position: usize,
)
    requires
        step.next(peripheral_given, uuids, event) == ConnectStep::Connected(position),
    ensures
        step == ConnectStep::Connected(position) || step == ConnectStep::WriteSettings(position)
            && event == LinkEvent::Done,
{
}

/// No connection is complete before the settings were written to the device.
pub proof fn settings_are_written_on_every_connection(
    adapter_given: bool,
    peripheral_given: bool,
    uuids: Seq<u128>,
    events: Seq<LinkEvent>,
    position: usize,
)
    requires
        connect_after(adapter_given, peripheral_given, uuids, events) == ConnectStep::Connected(
            position,
        ),
    ensures
        was_done(
            adapter_given,
            peripheral_given,
            uuids,
            events,
            ConnectStep::WriteSettings(position),
        ),
    decreases events.len(),
{
    if events.len() > 0 {
        let before = events.drop_last();
        let step = connect_after(adapter_given, peripheral_given, uuids, before);
        only_settings_complete(step, peripheral_given, uuids, events.last(), position);
        if step == ConnectStep::Connected(position) {
            settings_are_written_on_every_connection(
                adapter_given,
                peripheral_given,
                uuids,
                before,
                position,
            );
            done_stays_done(
                adapter_given,
                peripheral_given,
                uuids,
                events,
                ConnectStep::WriteSettings(position),
            );
        } else {
            last_is_done(adapter_given, peripheral_given, uuids, events);
        }
    }
}

impl ConnectStep {
    /// Whether the device to use is settled at this step.
    pub open spec fn has_device(self) -> bool {
        match self {
            ConnectStep::Link(step) => step.has_device(),
            _ => true,
        }
    }
}

/// Until the services are known, a connection is where the way to them is.
pub proof fn connection_starts_with_the_link(
    adapter_given: bool,
    peripheral_given: bool,
    uuids: Seq<u128>,
    events: Seq<LinkEvent>,
)
    ensures
        ({
            let way = link::link_after(adapter_given, peripheral_given, events);
            match connect_after(adapter_given, peripheral_given, uuids, events) {
                ConnectStep::Link(step) => step == way && way !is Ready,
                _ => way is Ready,
            }
        }),
    decreases events.len(),
{
    if events.len() > 0 {
        connection_starts_with_the_link(
            adapter_given,
            peripheral_given,
            uuids,
            events.drop_last(),
        );
    }
}

/// A connection that was not given a device uses only one whose name was accepted.
pub proof fn only_accepted_devices_are_connected(
    adapter_given: bool,
    uuids: Seq<u128>,
    events: Seq<LinkEvent>,
)
    requires
        connect_after(adapter_given, false, uuids, events).has_device(),
    ensures
        exists|i: int|
            0 <= i < events.len() && #[trigger] events[i] == (LinkEvent::Candidate {
                accepted: true,
            }) && connect_after(adapter_given, false, uuids, events.take(i)) == ConnectStep::Link(
                LinkStep::InspectCandidate,
            ),
{
    connection_starts_with_the_link(adapter_given, false, uuids, events);
    link::only_accepted_devices_are_used(adapter_given, events);
    let i = choose|i: int|
        0 <= i < events.len() && #[trigger] events[i] == (LinkEvent::Candidate { accepted: true })
            && link::link_after(adapter_given, false, events.take(i))
            == LinkStep::InspectCandidate;
    connection_starts_with_the_link(adapter_given, false, uuids, events.take(i));
    assert(events[i] == (LinkEvent::Candidate { accepted: true }));
}

} // verus!
