//! What the parts that the protocols share promise.

use crate::bytes;
use crate::error::Error;
use crate::hex;
use crate::led::LedColor;
use crate::link::{self, LinkEvent, LinkStep};
use crate::paw_link::{ConnectStep, NOTIFY_CHARACTERISTIC_UUID, WRITE_CHARACTERISTIC_UUID};
use crate::stereo::Stereo;
use vstd::prelude::*;

verus! {

// Bytes.

/// A byte and the signed number that it stands for differ by a multiple of 256, and two bytes and
/// the signed number that they stand for by a multiple of 65536.
pub proof fn bytes_are_twos_complement(value: i8, byte: u8, high: u8, low: u8)
    ensures
        (bytes::signed_byte(value) - value) % 256 == 0,
        (bytes::byte_as_signed(byte) - byte) % 256 == 0,
        (bytes::big_endian(high, low) - (256 * high + low)) % 65536 == 0,
{
}

/// The bytes of a number are its digits to the base of 256, the more significant one first.
pub proof fn bytes_are_digits(value: u16)
    ensures
        256 * bytes::high_byte(value) + bytes::low_byte(value) == value,
{
}

/// The number of an LED option.
pub proof fn led_options_have_their_numbers(color: LedColor)
    ensures
        color.code() <= 7,
        color is Off <==> color.code() == 0,
        color is Yellow <==> color.code() == 1,
        color is Red <==> color.code() == 2,
        color is Purple <==> color.code() == 3,
        color is Blue <==> color.code() == 4,
        color is LightBlue <==> color.code() == 5,
        color is Green <==> color.code() == 6,
        color is White <==> color.code() == 7,
{
}

/// The option that a number stands for has that number, and no number above `7` stands for one.
pub proof fn led_numbers_have_their_options(value: u8)
    ensures
        match LedColor::of_code(value) {
            Some(color) => {
                &&& value == 0 <==> color is Off
                &&& value == 1 <==> color is Yellow
                &&& value == 2 <==> color is Red
                &&& value == 3 <==> color is Purple
                &&& value == 4 <==> color is Blue
                &&& value == 5 <==> color is LightBlue
                &&& value == 6 <==> color is Green
                &&& value == 7 <==> color is White
            },
            None => value > 7,
        },
{
}

/// Both channels of a pair that is made of two values have their own.
pub proof fn pairs_keep_their_order<T>(first: T, second: T)
    ensures
        ({
            let pair = <Stereo<T> as vstd::std_specs::convert::FromSpec<(T, T)>>::from_spec(
                (first, second),
            );
            &&& <Stereo<T> as vstd::std_specs::convert::FromSpec<(T, T)>>::obeys_from_spec()
            &&& pair.a == first
            &&& pair.b == second
        }),
{
}

/// The value of a hexadecimal digit.
pub open spec fn digit_value(digit: char) -> int {
    if '0' <= digit <= '9' {
        digit as int - '0' as int
    } else {
        digit as int - 'A' as int + 10
    }
}

/// The text of a packet has two digits for every byte, which can be read back from them; the digits
/// are `0` to `9` and `A` to `F`.
pub proof fn packets_can_be_read_back(packet: Seq<u8>, i: int)
    requires
        0 <= i < packet.len(),
    ensures
        ({
            let text = hex::hex_text(packet);
            &&& text.len() == 2 * packet.len()
            &&& '0' <= text[2 * i] <= '9' || 'A' <= text[2 * i] <= 'F'
            &&& '0' <= text[2 * i + 1] <= '9' || 'A' <= text[2 * i + 1] <= 'F'
            &&& 16 * digit_value(text[2 * i]) + digit_value(text[2 * i + 1]) == packet[i]
        }),
{
}

// The way to the services.

/// A link takes these steps, each once the one before is done: open the adapter, scan, wait, look at
/// every device that is discovered, stop the scan, connect, discover the services. A device that is
/// not accepted leads back to waiting, and a device that was given spares the scan.
pub proof fn links_take_their_steps(peripheral_given: bool)
    ensures
        LinkStep::OpenAdapter.next(true, LinkEvent::Done) == LinkStep::Connect,
        LinkStep::OpenAdapter.next(false, LinkEvent::Done) == LinkStep::StartScan,
        LinkStep::StartScan.next(peripheral_given, LinkEvent::Done) == LinkStep::AwaitEvent,
        LinkStep::AwaitEvent.next(peripheral_given, LinkEvent::Discovered)
            == LinkStep::InspectCandidate,
        LinkStep::InspectCandidate.next(
            peripheral_given,
            LinkEvent::Candidate { accepted: true },
        ) == LinkStep::StopScan,
        LinkStep::InspectCandidate.next(
            peripheral_given,
            LinkEvent::Candidate { accepted: false },
        ) == LinkStep::AwaitEvent,
        LinkStep::StopScan.next(peripheral_given, LinkEvent::Done) == LinkStep::Connect,
        LinkStep::Connect.next(peripheral_given, LinkEvent::Done) == LinkStep::DiscoverServices,
        LinkStep::DiscoverServices.next(peripheral_given, LinkEvent::Done) == LinkStep::Ready,
{
}

/// A link waits for what belongs to its step.
pub proof fn links_wait_for_their_steps(step: LinkStep, peripheral_given: bool, event: LinkEvent)
    ensures
        step.next(peripheral_given, event) != step ==> match event {
            LinkEvent::Done => !(step is AwaitEvent) && !(step is InspectCandidate),
            LinkEvent::Discovered => step is AwaitEvent,
            LinkEvent::Ignored => false,
            LinkEvent::Candidate { .. } => step is InspectCandidate,
        },
        LinkStep::Ready.next(peripheral_given, event) == LinkStep::Ready,
{
}

/// A link starts with what it was not given: the adapter, then the device.
pub proof fn links_start_with_what_is_missing(adapter_given: bool, peripheral_given: bool)
    ensures
        !adapter_given ==> LinkStep::initial(adapter_given, peripheral_given)
            == LinkStep::OpenAdapter,
        adapter_given && !peripheral_given ==> LinkStep::initial(adapter_given, peripheral_given)
            == LinkStep::StartScan,
        adapter_given && peripheral_given ==> LinkStep::initial(adapter_given, peripheral_given)
            == LinkStep::Connect,
{
}

// The connection to a PawPrints.

/// A connection starts with the way to the services, from what it was not given on, follows it step
/// by step, and lists the characteristics once it has arrived.
pub proof fn paw_connections_follow_the_link(
    adapter_given: bool,
    peripheral_given: bool,
    uuids: Seq<u128>,
    step: LinkStep,
    event: LinkEvent,
)
    ensures
        ({
            let first = ConnectStep::initial(adapter_given, peripheral_given);
            let link = step.next(peripheral_given, event);
            let after = ConnectStep::Link(step).next(peripheral_given, uuids, event);
            &&& !adapter_given ==> first == ConnectStep::Link(LinkStep::OpenAdapter)
            &&& adapter_given && !peripheral_given ==> first == ConnectStep::Link(
                LinkStep::StartScan,
            )
            &&& adapter_given && peripheral_given ==> first == ConnectStep::Link(
                LinkStep::Connect,
            )
            &&& link is Ready ==> after == ConnectStep::ListCharacteristics
            &&& !(link is Ready) ==> after == ConnectStep::Link(link)
        }),
{
}

/// Once the subscriptions before `start` are done, the connection goes on with the next notify
/// characteristic from `start` on; where there is none, with the last write characteristic; and
/// where one of the two is not listed at all it fails with that one.
pub proof fn subscriptions_follow_the_list(uuids: Seq<u128>, start: int)
    requires
        0 <= start,
        uuids.len() <= usize::MAX,
    ensures
        match ConnectStep::subscribed_before(uuids, start) {
            ConnectStep::Subscribe(position) => {
                &&& start <= position < uuids.len()
                &&& uuids[position as int] == NOTIFY_CHARACTERISTIC_UUID
                &&& forall|i: int|
                    start <= i < position ==> uuids[i] != NOTIFY_CHARACTERISTIC_UUID
            },
            ConnectStep::WriteSettings(position) => {
                &&& forall|i: int|
                    start <= i < uuids.len() ==> uuids[i] != NOTIFY_CHARACTERISTIC_UUID
                &&& uuids.contains(NOTIFY_CHARACTERISTIC_UUID)
                &&& position < uuids.len()
                &&& uuids[position as int] == WRITE_CHARACTERISTIC_UUID
                &&& forall|i: int|
                    position < i < uuids.len() ==> uuids[i] != WRITE_CHARACTERISTIC_UUID
            },
            ConnectStep::Failed(error) => {
                &&& forall|i: int|
                    start <= i < uuids.len() ==> uuids[i] != NOTIFY_CHARACTERISTIC_UUID
                &&& if uuids.contains(NOTIFY_CHARACTERISTIC_UUID) {
                    &&& error == Error::MissingCharacteristic(WRITE_CHARACTERISTIC_UUID)
                    &&& !uuids.contains(WRITE_CHARACTERISTIC_UUID)
                } else {
                    error == Error::MissingCharacteristic(NOTIFY_CHARACTERISTIC_UUID)
                }
            },
            _ => false,
        },
{
    if start <= uuids.len() {
        link::first_position_is_first(uuids, NOTIFY_CHARACTERISTIC_UUID, start);
    }
    link::last_position_is_last(uuids, WRITE_CHARACTERISTIC_UUID, uuids.len() as int);
}

/// A connection goes on as soon as a step is done: with the first subscription once the
/// characteristics are listed, with the next one behind it once a subscription is done, and to its
/// end once the settings are written, with the characteristic that they were written to.
pub proof fn paw_connections_take_their_steps(
    peripheral_given: bool,
    uuids: Seq<u128>,
    position: usize,
)
    ensures
        ConnectStep::ListCharacteristics.next(peripheral_given, uuids, LinkEvent::Done)
            == ConnectStep::subscribed_before(uuids, 0),
        ConnectStep::Subscribe(position).next(peripheral_given, uuids, LinkEvent::Done)
            == ConnectStep::subscribed_before(uuids, position + 1),
        ConnectStep::WriteSettings(position).next(peripheral_given, uuids, LinkEvent::Done)
            == ConnectStep::Connected(position),
{
}

/// Behind the way to the services, only what is done moves a connection; one that is complete or has
/// failed stays so.
pub proof fn paw_connections_wait_for_their_steps(
    step: ConnectStep,
    peripheral_given: bool,
    uuids: Seq<u128>,
    event: LinkEvent,
)
    requires
        !(step is Link),
        event != LinkEvent::Done || step is Connected || step is Failed,
    ensures
        step.next(peripheral_given, uuids, event) == step,
{
}

} // verus!
