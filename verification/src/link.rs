//! How a connection gets from nothing to the services of a device.

use vstd::prelude::*;

verus! {

/// What a connection does next on its way to the services of a device.
#[derive(Clone, Copy, Debug, PartialEq, Eq, Structural)]
pub enum LinkStep {
    /// Open the first Bluetooth adapter.
    OpenAdapter,
    /// Start to scan for devices and to listen to the adapter.
    StartScan,
    /// Wait for what the adapter tells next.
    AwaitEvent,
    /// Look at the device that was discovered and read its name.
    InspectCandidate,
    /// Stop scanning; the device that was looked at last is the one to use.
    StopScan,
    /// Connect to the device.
    Connect,
    /// Discover the services of the device.
    DiscoverServices,
    /// The services are known.
    Ready,
}

/// What came out of a step.
#[derive(Clone, Copy, Debug, PartialEq, Eq, Structural)]
pub enum LinkEvent {
    /// The step was done.
    Done,
    /// The adapter has discovered a device.
    Discovered,
    /// The adapter told something else.
    Ignored,
    /// The name of the device that was looked at is known.
    Candidate {
        /// Whether it is the name of the device that is looked for.
        accepted: bool,
    },
}

impl LinkStep {
    /// The step that follows once there is an adapter.
    pub open spec fn with_adapter(peripheral_given: bool) -> Self {
        if peripheral_given {
            LinkStep::Connect
        } else {
            LinkStep::StartScan
        }
    }

    /// The first step.
    pub open spec fn initial(adapter_given: bool, peripheral_given: bool) -> Self {
        if adapter_given {
            LinkStep::with_adapter(peripheral_given)
        } else {
            LinkStep::OpenAdapter
        }
    }

    /// The step that follows this one after `event`; an event that this step does not wait for
    /// leaves it as it is.
    pub open spec fn next(self, peripheral_given: bool, event: LinkEvent) -> Self {
        match (self, event) {
            (LinkStep::OpenAdapter, LinkEvent::Done) => LinkStep::with_adapter(peripheral_given),
            (LinkStep::StartScan, LinkEvent::Done) => LinkStep::AwaitEvent,
            (LinkStep::AwaitEvent, LinkEvent::Discovered) => LinkStep::InspectCandidate,
            (LinkStep::InspectCandidate, LinkEvent::Candidate { accepted }) => if accepted {
                LinkStep::StopScan
            } else {
                LinkStep::AwaitEvent
            },
            (LinkStep::StopScan, LinkEvent::Done) => LinkStep::Connect,
            (LinkStep::Connect, LinkEvent::Done) => LinkStep::DiscoverServices,
            (LinkStep::DiscoverServices, LinkEvent::Done) => LinkStep::Ready,
            _ => self,
        }
    }

    /// Return the first step. An adapter and a device that the caller brings are used as they are.
    pub fn first(adapter_given: bool, peripheral_given: bool) -> (step: Self)
        ensures
            step == LinkStep::initial(adapter_given, peripheral_given),
    {
        if !adapter_given {
            LinkStep::OpenAdapter
        } else if peripheral_given {
            LinkStep::Connect
        } else {
            LinkStep::StartScan
        }
    }

    /// Return the step that follows this one after `event`.
    pub fn advance(self, peripheral_given: bool, event: LinkEvent) -> (step: Self)
        ensures
            step == self.next(peripheral_given, event),
    {
        match (self, event) {
            (LinkStep::OpenAdapter, LinkEvent::Done) => LinkStep::first(true, peripheral_given),
            (LinkStep::StartScan, LinkEvent::Done) => LinkStep::AwaitEvent,
            (LinkStep::AwaitEvent, LinkEvent::Discovered) => LinkStep::InspectCandidate,
            (LinkStep::InspectCandidate, LinkEvent::Candidate { accepted }) => if accepted {
                LinkStep::StopScan
            } else {
                LinkStep::AwaitEvent
            },
            (LinkStep::StopScan, LinkEvent::Done) => LinkStep::Connect,
            (LinkStep::Connect, LinkEvent::Done) => LinkStep::DiscoverServices,
            (LinkStep::DiscoverServices, LinkEvent::Done) => LinkStep::Ready,
            _ => self,
        }
    }

    /// Whether the device to use is settled at this step.
    pub open spec fn has_device(self) -> bool {
        self is StopScan || self is Connect || self is DiscoverServices || self is Ready
    }
}

/// The step that a connection is at after some events.
pub open spec fn link_after(
    adapter_given: bool,
    peripheral_given: bool,
    events: Seq<LinkEvent>,
) -> LinkStep
    decreases events.len(),
{
    if events.len() == 0 {
        LinkStep::initial(adapter_given, peripheral_given)
    } else {
        link_after(adapter_given, peripheral_given, events.drop_last()).next(
            peripheral_given,
            events.last(),
        )
    }
}

/// A connection that was not given a device never uses one whose name it did not accept: the
/// device is settled only after an accepted name.
pub proof fn only_accepted_devices_are_used(adapter_given: bool, events: Seq<LinkEvent>)
    requires
        link_after(adapter_given, false, events).has_device(),
    ensures
        exists|i: int|
            0 <= i < events.len() && #[trigger] events[i] == (LinkEvent::Candidate {
                accepted: true,
            }) && link_after(adapter_given, false, events.take(i)) == LinkStep::InspectCandidate,
    decreases events.len(),
{
    if events.len() > 0 {
        let before = events.drop_last();
        if link_after(adapter_given, false, before).has_device() {
            only_accepted_devices_are_used(adapter_given, before);
            let i = choose|i: int|
                0 <= i < before.len() && #[trigger] before[i] == (LinkEvent::Candidate {
                    accepted: true,
                }) && link_after(adapter_given, false, before.take(i))
                    == LinkStep::InspectCandidate;
            assert(before.take(i) =~= events.take(i));
            assert(events[i] == before[i]);
        } else {
            let last = events.len() - 1;
            assert(events.take(last) =~= before);
            assert(events[last] == (LinkEvent::Candidate { accepted: true }));
        }
    }
}

/// A connection that was given a device never scans: it takes the adapter, connects and discovers
/// the services.
pub proof fn given_devices_need_no_scan(adapter_given: bool, events: Seq<LinkEvent>)
    ensures
        ({
            let step = link_after(adapter_given, true, events);
            step is OpenAdapter || step is Connect || step is DiscoverServices || step is Ready
        }),
    decreases events.len(),
{
    if events.len() > 0 {
        given_devices_need_no_scan(adapter_given, events.drop_last());
    }
}

/// The first position from `start` on at which `uuid` stands.
pub open spec fn first_position(uuids: Seq<u128>, uuid: u128, start: int) -> Option<usize>
    decreases uuids.len() - start,
{
    if start >= uuids.len() {
        None
    } else if uuids[start] == uuid {
        Some(start as usize)
    } else {
        first_position(uuids, uuid, start + 1)
    }
}

/// The last position before `end` at which `uuid` stands.
pub open spec fn last_position(uuids: Seq<u128>, uuid: u128, end: int) -> Option<usize>
    decreases end,
{
    if end <= 0 {
        None
    } else if uuids[end - 1] == uuid {
        Some((end - 1) as usize)
    } else {
        last_position(uuids, uuid, end - 1)
    }
}

/// There is a first position from `start` on exactly where `uuid` stands there at all.
pub proof fn first_position_exists(uuids: Seq<u128>, uuid: u128, start: int)
    requires
        0 <= start,
    ensures
        first_position(uuids, uuid, start) is Some <==> exists|i: int|
            start <= i < uuids.len() && uuids[i] == uuid,
    decreases uuids.len() - start,
{
    if start < uuids.len() && uuids[start] != uuid {
        first_position_exists(uuids, uuid, start + 1);
    }
}

/// The first position is one at which `uuid` stands, and it stands at none before; without a
/// first position it stands nowhere.
pub proof fn first_position_is_first(uuids: Seq<u128>, uuid: u128, start: int)
    requires
        0 <= start <= uuids.len() <= usize::MAX,
    ensures
        match first_position(uuids, uuid, start) {
            Some(found) => {
                &&& start <= found < uuids.len()
                &&& uuids[found as int] == uuid
                &&& forall|i: int| start <= i < found ==> uuids[i] != uuid
            },
            None => forall|i: int| start <= i < uuids.len() ==> uuids[i] != uuid,
        },
    decreases uuids.len() - start,
{
    if start < uuids.len() && uuids[start] != uuid {
        first_position_is_first(uuids, uuid, start + 1);
    }
}

/// The last position is one at which `uuid` stands, and it stands at none behind it; without a
/// last position it stands nowhere.
pub proof fn last_position_is_last(uuids: Seq<u128>, uuid: u128, end: int)
    requires
        0 <= end <= uuids.len() <= usize::MAX,
    ensures
        match last_position(uuids, uuid, end) {
            Some(found) => {
                &&& found < end
                &&& uuids[found as int] == uuid
                &&& forall|i: int| found < i < end ==> uuids[i] != uuid
            },
            None => forall|i: int| 0 <= i < end ==> uuids[i] != uuid,
        },
    decreases end,
{
    if end > 0 && uuids[end - 1] != uuid {
        last_position_is_last(uuids, uuid, end - 1);
    }
}

/// Find the first position from `start` on at which `uuid` stands.
pub fn find_first(uuids: &[u128], uuid: u128, start: usize) -> (found: Option<usize>)
    ensures
        found == first_position(uuids@, uuid, start as int),
{
    let mut index: usize = start;
    while index < uuids.len()
        invariant
            start <= index,
            first_position(uuids@, uuid, start as int) == first_position(
                uuids@,
                uuid,
                index as int,
            ),
        decreases uuids.len() - index,
    {
        if uuids[index] == uuid {
            return Some(index);
        }
        index = index + 1;
    }
    None
}

/// Find the last position at which `uuid` stands.
pub fn find_last(uuids: &[u128], uuid: u128) -> (found: Option<usize>)
    ensures
        found == last_position(uuids@, uuid, uuids@.len() as int),
{
    let mut index: usize = uuids.len();
    while index > 0
        invariant
            index <= uuids@.len(),
            last_position(uuids@, uuid, uuids@.len() as int) == last_position(
                uuids@,
                uuid,
                index as int,
            ),
        decreases index,
    {
        index = index - 1;
        if uuids[index] == uuid {
            return Some(index);
        }
    }
    None
}

} // verus!
