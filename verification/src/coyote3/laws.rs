//! What the Coyote 3 protocol promises, in terms of its bytes and of the fields of its values.

use crate::coyote3::connect::{self, Characteristics, ConnectSetup, ConnectStep};
use crate::coyote3::frame::{B0Frame, Command};
use crate::coyote3::intensity::{
    self, Handshake, IntensityChange, PendingIntensityChange, PreparedIntensity,
};
use crate::coyote3::pulse::{self, EncodedPulse, EncodedPulses, Pulse, Pulses};
use crate::coyote3::runtime::{
    ChannelRuntime, ChannelShape, DoNotChangeIntensityShape, EncodedShape, EncodedShapeContext,
    IntensityContext, IntensityShape, Shape, ShapeContext, ZeroShape,
};
use crate::coyote3::settings::DeviceSettings;
use crate::coyote3::state::{
    self, Notification, State, BATTERY_CHARACTERISTIC_UUID, NOTIFY_CHARACTERISTIC_UUID,
    WRITE_CHARACTERISTIC_UUID,
};
use crate::coyote3::task::{self, RuntimeEvent, RuntimeStep, StateCallbackSlot};
use crate::coyote3::waveforms::{
    self, Breathing, TableShape, Tidal, BREATHING_FRAMES, TIDAL_FRAMES,
};
use crate::link::{self, LinkEvent, LinkStep};
use crate::stereo::Stereo;
use vstd::prelude::*;

verus! {

// Words that the laws use.

/// Whether `sent` is `value` cut off at `bound`.
pub open spec fn is_cut(sent: u8, value: u8, bound: u8) -> bool {
    &&& sent <= bound
    &&& value <= bound ==> sent == value
    &&& value > bound ==> sent == bound
}

/// Whether `code` stands for a frequency of `hertz`.
///
/// Zero disables a channel. Up to 100 Hz, a period of `t = 1000 / hertz` milliseconds has the code
/// `t` where it is shorter than 100 ms and the code `(t - 100) / 5 + 100` up to half a second,
/// without the fraction; one second has the code `240`. Higher frequencies count as 100 Hz.
pub open spec fn is_code_of(code: u8, hertz: u8) -> bool {
    &&& hertz == 0 ==> code == 0
    &&& hertz == 1 ==> code == 240
    &&& 2 <= hertz <= 10 ==> 5 * hertz * (code - 100) <= 1000 - 100 * hertz < 5 * hertz * (code
        - 99)
    &&& 10 < hertz <= 100 ==> hertz * code <= 1000 < hertz * (code + 1)
    &&& hertz > 100 ==> code == 10
}

/// Whether `sent` is the frequency value `value`, moved into `10..=240` unless it is zero.
pub open spec fn is_in_band(sent: u8, value: u8) -> bool {
    &&& value == 0 ==> sent == 0
    &&& 0 < value < 10 ==> sent == 10
    &&& 10 <= value <= 240 ==> sent == value
    &&& value > 240 ==> sent == 240
}

/// Whether `byte` has the number of the kind of `change`.
pub open spec fn is_kind(byte: u8, change: IntensityChange) -> bool {
    &&& byte == 0 <==> change is DoNotChange
    &&& byte == 1 <==> change is RelativeIncrease
    &&& byte == 2 <==> change is RelativeDecrease
    &&& byte == 3 <==> change is AbsoluteChange
}

/// Whether `byte` is the amount of `change`, cut off at `200`.
pub open spec fn is_amount(byte: u8, change: IntensityChange) -> bool {
    match change {
        IntensityChange::DoNotChange => byte == 0,
        IntensityChange::RelativeIncrease(value) => is_cut(byte, value, 200),
        IntensityChange::RelativeDecrease(value) => is_cut(byte, value, 200),
        IntensityChange::AbsoluteChange(value) => is_cut(byte, value, 200),
    }
}

/// By how much a relative change moves a level, cut off at `200`.
pub open spec fn step_of(change: IntensityChange) -> int {
    match change {
        IntensityChange::RelativeIncrease(value) => if value <= 200 {
            value as int
        } else {
            200
        },
        IntensityChange::RelativeDecrease(value) => if value <= 200 {
            -value
        } else {
            -200
        },
        _ => 0,
    }
}

/// Whether `result` is `value`, cut off at `low` and at `high`.
pub open spec fn is_limited(result: int, value: int, low: int, high: int) -> bool {
    &&& low <= result <= high
    &&& low <= value <= high ==> result == value
    &&& value < low ==> result == low
    &&& value > high ==> result == high
}

// Waveform.

/// The frequency value of a pulse is the code of its frequency.
pub proof fn frequencies_have_their_codes(pulse: Pulse)
    ensures
        is_code_of(pulse.frequency_code(), pulse.frequency),
        is_code_of(pulse.encoded().frequency, pulse.frequency),
        is_cut(pulse.encoded().intensity, pulse.intensity, 100),
{
    let hertz = pulse.frequency as int;
    let code = pulse.frequency_code() as int;
    if 0 < hertz <= 100 {
        pulse::compressed_period_range(hertz);
    }
    if 10 < hertz <= 100 {
        vstd::arithmetic::div_mod::lemma_fundamental_div_mod(1000, hertz);
        assert(hertz * code <= 1000 < hertz * (code + 1)) by (nonlinear_arith)
            requires
                1000 == hertz * code + 1000int % hertz,
                0 <= 1000int % hertz < hertz,
        ;
    } else if 2 <= hertz <= 10 {
        let rest = 1000 - 100 * hertz;
        let part = 5 * hertz;
        vstd::arithmetic::div_mod::lemma_fundamental_div_mod(rest, part);
        assert(code == rest / part + 100);
        assert(part * (code - 100) <= rest < part * (code - 99)) by (nonlinear_arith)
            requires
                rest == part * (code - 100) + rest % part,
                0 <= rest % part < part,
        ;
    } else if hertz > 100 {
        assert(1000int / 100 == 10);
    }
}

/// A frame of four pulses is sent column by column: the bytes of column `i` stand for pulse `i`,
/// the frequency and the amplitude of channel A in the first two rows and those of channel B in the
/// last two.
pub proof fn every_pulse_has_its_column(pulses: Seq<Stereo<Pulse>>, i: int)
    requires
        pulses.len() == 4,
        0 <= i < 4,
    ensures
        ({
            let rows = pulse::waveform_rows(Pulses::encoded(pulses));
            &&& is_code_of(rows@[0]@[i], pulses[i].a.frequency)
            &&& is_cut(rows@[1]@[i], pulses[i].a.intensity, 100)
            &&& is_code_of(rows@[2]@[i], pulses[i].b.frequency)
            &&& is_cut(rows@[3]@[i], pulses[i].b.intensity, 100)
        }),
{
    assert(i == 0 || i == 1 || i == 2 || i == 3);
    frequencies_have_their_codes(pulses[i].a);
    frequencies_have_their_codes(pulses[i].b);
}

/// A frame of four protocol-native pulses is sent column by column, with the values moved into the
/// ranges of the protocol.
pub proof fn every_encoded_pulse_has_its_column(pulses: Seq<Stereo<EncodedPulse>>, i: int)
    requires
        pulses.len() == 4,
        0 <= i < 4,
    ensures
        ({
            let rows = pulse::waveform_rows(EncodedPulses::in_range(pulses));
            &&& is_in_band(rows@[0]@[i], pulses[i].a.frequency)
            &&& is_cut(rows@[1]@[i], pulses[i].a.intensity, 100)
            &&& is_in_band(rows@[2]@[i], pulses[i].b.frequency)
            &&& is_cut(rows@[3]@[i], pulses[i].b.intensity, 100)
        }),
{
    assert(i == 0 || i == 1 || i == 2 || i == 3);
}

/// The values of a protocol-native pulse are moved into the ranges of the protocol.
pub proof fn encoded_pulses_are_moved_into_range(pulse: EncodedPulse)
    ensures
        is_in_band(pulse.in_range().frequency, pulse.frequency),
        is_cut(pulse.in_range().intensity, pulse.intensity, 100),
{
}

// Commands.

/// The command that sends pulses has twenty bytes: `0xB0`, the number and the kinds of the
/// intensity change, its two amounts, and the four rows of the waveform.
pub proof fn pulse_commands_are_laid_out(frame: B0Frame, row: int, column: int)
    requires
        0 <= row < 4,
        0 <= column < 4,
    ensures
        ({
            let bytes = Command::SendPulses(frame).encoded();
            let change = frame.intensity.intensity;
            &&& bytes.len() == 20
            &&& bytes[0] == 0xB0
            &&& bytes[1] / 16 == frame.intensity.sequence % 16
            &&& is_kind(bytes[1] / 4 % 4, change.a)
            &&& is_kind(bytes[1] % 4, change.b)
            &&& is_amount(bytes[2], change.a)
            &&& is_amount(bytes[3], change.b)
            &&& bytes[4 + 4 * row + column] == frame.pulses@[row]@[column]
        }),
{
    assert(row == 0 || row == 1 || row == 2 || row == 3);
}

/// The frame that is made of pulses carries their intensity change without a number, and their
/// waveform.
pub proof fn pulses_become_frames(pulses: Pulses, i: int)
    requires
        0 <= i < 4,
    ensures
        ({
            let frame = <B0Frame as vstd::std_specs::convert::FromSpec<Pulses>>::from_spec(pulses);
            &&& <B0Frame as vstd::std_specs::convert::FromSpec<Pulses>>::obeys_from_spec()
            &&& frame.intensity.sequence == 0
            &&& frame.intensity.intensity == pulses.intensity
            &&& is_code_of(frame.pulses@[0]@[i], pulses.pulses@[i].a.frequency)
            &&& is_cut(frame.pulses@[1]@[i], pulses.pulses@[i].a.intensity, 100)
            &&& is_code_of(frame.pulses@[2]@[i], pulses.pulses@[i].b.frequency)
            &&& is_cut(frame.pulses@[3]@[i], pulses.pulses@[i].b.intensity, 100)
        }),
{
    every_pulse_has_its_column(pulses.pulses@, i);
}

/// The settings command has seven bytes: `0xBF`, both limits cut off at `200`, and the balance
/// parameters as they are.
pub proof fn settings_commands_are_laid_out(settings: DeviceSettings)
    ensures
        ({
            let bytes = Command::UpdateSettings(settings).encoded();
            &&& bytes.len() == 7
            &&& bytes[0] == 0xBF
            &&& is_cut(bytes[1], settings.limit.a, 200)
            &&& is_cut(bytes[2], settings.limit.b, 200)
            &&& bytes[3] == settings.frequency_balance.a
            &&& bytes[4] == settings.frequency_balance.b
            &&& bytes[5] == settings.intensity_balance.a
            &&& bytes[6] == settings.intensity_balance.b
        }),
{
}

/// Only the limits of settings are constrained, each to at most `200`.
pub proof fn only_limits_are_constrained(settings: DeviceSettings)
    ensures
        is_cut(settings.constrained().limit.a, settings.limit.a, 200),
        is_cut(settings.constrained().limit.b, settings.limit.b, 200),
        settings.constrained().frequency_balance == settings.frequency_balance,
        settings.constrained().intensity_balance == settings.intensity_balance,
{
}

// Intensity changes.

/// The number of the kind of a change and its amount.
pub proof fn changes_have_kinds_and_amounts(change: IntensityChange)
    ensures
        change.kind() <= 3,
        is_kind(change.kind(), change),
        is_amount(change.amount(), change),
{
}

/// Changes that wait add up: an absolute change replaces what waits, a relative one moves it by its
/// amount, at most from one end of the range to the other, and no change leaves it.
pub proof fn waiting_changes_add_up(pending: PendingIntensityChange, change: IntensityChange)
    ensures
        match (change, pending) {
            (IntensityChange::DoNotChange, _) => pending.merged(change) == pending,
            (IntensityChange::AbsoluteChange(value), _) => {
                &&& pending.merged(change) matches PendingIntensityChange::Absolute(level)
                &&& is_limited(level as int, value as int, 0, 200)
            },
            (_, PendingIntensityChange::Empty) => {
                &&& pending.merged(change) matches PendingIntensityChange::Relative(by)
                &&& by == step_of(change)
            },
            (_, PendingIntensityChange::Relative(before)) => {
                &&& pending.merged(change) matches PendingIntensityChange::Relative(by)
                &&& is_limited(by as int, before + step_of(change), -200, 200)
            },
            (_, PendingIntensityChange::Absolute(before)) => {
                &&& pending.merged(change) matches PendingIntensityChange::Absolute(level)
                &&& is_limited(level as int, before + step_of(change), 0, 200)
            },
        },
{
}

/// Two waiting changes add up in the same way, the later one behind the earlier one.
pub proof fn waiting_changes_compose(
    first: PendingIntensityChange,
    later: PendingIntensityChange,
)
    ensures
        match (later, first) {
            (PendingIntensityChange::Empty, _) => first.composed(later) == first,
            (PendingIntensityChange::Absolute(_), _) => first.composed(later) == later,
            (PendingIntensityChange::Relative(step), PendingIntensityChange::Empty) => {
                &&& first.composed(later) matches PendingIntensityChange::Relative(by)
                &&& is_limited(by as int, step as int, -200, 200)
            },
            (PendingIntensityChange::Relative(step), PendingIntensityChange::Relative(before)) => {
                &&& first.composed(later) matches PendingIntensityChange::Relative(by)
                &&& is_limited(by as int, before + step, -200, 200)
            },
            (PendingIntensityChange::Relative(step), PendingIntensityChange::Absolute(before)) => {
                &&& first.composed(later) matches PendingIntensityChange::Absolute(level)
                &&& is_limited(level as int, before + step, 0, 200)
            },
        },
{
}

/// A change by some steps, as it waits.
pub proof fn waiting_changes_shift(pending: PendingIntensityChange, delta: int)
    ensures
        match pending {
            PendingIntensityChange::Empty => {
                &&& pending.shifted(delta) matches PendingIntensityChange::Relative(by)
                &&& is_limited(by as int, delta, -200, 200)
            },
            PendingIntensityChange::Relative(before) => {
                &&& pending.shifted(delta) matches PendingIntensityChange::Relative(by)
                &&& is_limited(by as int, before + delta, -200, 200)
            },
            PendingIntensityChange::Absolute(before) => {
                &&& pending.shifted(delta) matches PendingIntensityChange::Absolute(level)
                &&& is_limited(level as int, before + delta, 0, 200)
            },
        },
{
}

/// What waits is sent as one change: an increase where the level is to rise, a decrease where it is
/// to fall, an absolute change where it is to be set, and none where nothing is to change.
pub proof fn waiting_changes_become_commands(pending: PendingIntensityChange)
    ensures
        match pending {
            PendingIntensityChange::Empty => pending.as_change() is DoNotChange,
            PendingIntensityChange::Relative(by) => {
                &&& by == 0 ==> pending.as_change() is DoNotChange
                &&& 0 < by <= 200 ==> {
                    &&& pending.as_change() matches IntensityChange::RelativeIncrease(value)
                    &&& value == by
                }
                &&& -200 <= by < 0 ==> {
                    &&& pending.as_change() matches IntensityChange::RelativeDecrease(value)
                    &&& value == -by
                }
            },
            PendingIntensityChange::Absolute(level) => 0 <= level <= 200 ==> {
                &&& pending.as_change() matches IntensityChange::AbsoluteChange(value)
                &&& value == level
            },
        },
{
}

/// While an absolute change is unanswered, what comes on top of it counts from its level; else what
/// comes is added to what waits.
pub proof fn changes_queue_behind_the_sent_one(
    pending: PendingIntensityChange,
    sent: IntensityChange,
    change: IntensityChange,
)
    ensures
        change is DoNotChange ==> intensity::queued(pending, sent, change) == pending,
        !(change is DoNotChange) && !(pending is Empty && sent is AbsoluteChange)
            ==> intensity::queued(pending, sent, change) == pending.merged(change),
        pending is Empty ==> (sent matches IntensityChange::AbsoluteChange(level) ==> {
            let base: int = if level <= 200 {
                level as int
            } else {
                200
            };
            &&& change is RelativeIncrease || change is RelativeDecrease ==> {
                &&& intensity::queued(pending, sent, change) matches
                    PendingIntensityChange::Absolute(after)
                &&& is_limited(after as int, base + step_of(change), 0, 200)
            }
            &&& change matches IntensityChange::AbsoluteChange(value) ==> {
                &&& intensity::queued(pending, sent, change) matches
                    PendingIntensityChange::Absolute(after)
                &&& is_limited(after as int, value as int, 0, 200)
            }
        }),
{
}

/// The numbers of the changes go round from `1` to `15`.
pub proof fn numbers_go_round(number: u8)
    requires
        1 <= number <= 15,
    ensures
        intensity::next_in_cycle(number) == number % 15 + 1,
{
}

/// A new exchange has sent nothing, has nothing waiting, and starts with the number one.
pub proof fn exchanges_start_afresh()
    ensures
        Handshake::at_start().next_number == 1,
        Handshake::at_start().unanswered is None,
        Handshake::at_start().waiting.a is Empty,
        Handshake::at_start().waiting.b is Empty,
{
}

/// With nothing unanswered, a frame carries everything that waits together with what comes, under
/// the next number, and nothing waits any more; where that changes nothing, the frame has no number
/// and none is used up.
pub proof fn frames_carry_all_changes(handshake: Handshake, intensity: Stereo<IntensityChange>)
    requires
        handshake.unanswered is None,
        1 <= handshake.next_number <= 15,
    ensures
        ({
            let sent = handshake.prepared(intensity);
            let after = handshake.after_prepare(intensity);
            &&& sent.intensity.a == handshake.waiting.a.merged(intensity.a).as_change()
            &&& sent.intensity.b == handshake.waiting.b.merged(intensity.b).as_change()
            &&& after.waiting.a is Empty
            &&& after.waiting.b is Empty
            &&& if sent.intensity.a is DoNotChange && sent.intensity.b is DoNotChange {
                &&& sent.sequence == 0
                &&& after.unanswered is None
                &&& after.next_number == handshake.next_number
            } else {
                &&& sent.sequence == handshake.next_number
                &&& after.unanswered == Some(sent)
                &&& after.next_number == handshake.next_number % 15 + 1
            }
        }),
{
}

/// A change that comes while nothing waits and nothing is unanswered is sent as it is, with its
/// amount cut off at `200`; a relative change by nothing is not sent.
pub proof fn lone_changes_are_sent_as_they_are(
    handshake: Handshake,
    intensity: Stereo<IntensityChange>,
)
    requires
        handshake.unanswered is None,
        handshake.waiting.a is Empty,
        handshake.waiting.b is Empty,
    ensures
        is_sent_as_it_is(handshake.prepared(intensity).intensity.a, intensity.a),
        is_sent_as_it_is(handshake.prepared(intensity).intensity.b, intensity.b),
{
}

/// Whether `sent` is `change` with its amount cut off at `200`.
pub open spec fn is_sent_as_it_is(sent: IntensityChange, change: IntensityChange) -> bool {
    match change {
        IntensityChange::DoNotChange => sent is DoNotChange,
        IntensityChange::RelativeIncrease(value) => if value == 0 {
            sent is DoNotChange
        } else {
            sent matches IntensityChange::RelativeIncrease(by) && is_cut(by, value, 200)
        },
        IntensityChange::RelativeDecrease(value) => if value == 0 {
            sent is DoNotChange
        } else {
            sent matches IntensityChange::RelativeDecrease(by) && is_cut(by, value, 200)
        },
        IntensityChange::AbsoluteChange(value) => sent matches IntensityChange::AbsoluteChange(to)
            && is_cut(to, value, 200),
    }
}

/// While a change is unanswered, frames carry none and have no number, the change stays unanswered,
/// and what comes waits on its own channel.
pub proof fn frames_carry_nothing_meanwhile(
    handshake: Handshake,
    sent: PreparedIntensity,
    intensity: Stereo<IntensityChange>,
)
    requires
        handshake.unanswered == Some(sent),
    ensures
        ({
            let frame = handshake.prepared(intensity);
            let after = handshake.after_prepare(intensity);
            &&& frame.sequence == 0
            &&& frame.intensity.a is DoNotChange
            &&& frame.intensity.b is DoNotChange
            &&& after.unanswered == Some(sent)
            &&& after.next_number == handshake.next_number
            &&& after.waiting.a == intensity::queued(
                handshake.waiting.a,
                sent.intensity.a,
                intensity.a,
            )
            &&& after.waiting.b == intensity::queued(
                handshake.waiting.b,
                sent.intensity.b,
                intensity.b,
            )
        }),
{
}

/// An answer settles the unanswered change exactly where it has its number, which is never zero; it
/// changes nothing else.
pub proof fn answers_settle_their_change(handshake: Handshake, sequence: u8)
    ensures
        ({
            let after = handshake.after_answer(sequence);
            let fits = sequence != 0 && handshake.unanswered is Some
                && handshake.unanswered->0.sequence == sequence;
            &&& handshake.is_answered_by(sequence) == fits
            &&& fits ==> after.unanswered is None
            &&& !fits ==> after.unanswered == handshake.unanswered
            &&& after.waiting == handshake.waiting
            &&& after.next_number == handshake.next_number
        }),
{
}

/// A frame that could not be sent gives its change back where it carried the unanswered one: it
/// waits again on its own channel, before what came meanwhile. Otherwise nothing changes.
pub proof fn failed_frames_give_their_change_back(
    handshake: Handshake,
    prepared: PreparedIntensity,
)
    ensures
        ({
            let after = handshake.after_rollback(prepared);
            let fits = prepared.sequence != 0 && handshake.unanswered is Some
                && handshake.unanswered->0.sequence == prepared.sequence;
            let empty = PendingIntensityChange::Empty;
            &&& !fits ==> after == handshake
            &&& fits ==> {
                &&& after.unanswered is None
                &&& after.next_number == handshake.next_number
                &&& after.waiting.a == empty.merged(prepared.intensity.a).composed(
                    handshake.waiting.a,
                )
                &&& after.waiting.b == empty.merged(prepared.intensity.b).composed(
                    handshake.waiting.b,
                )
            }
        }),
{
}

// Notifications.

/// A value of four bytes that starts with `0xb1` reports a number and the levels of both channels;
/// one of seven bytes that starts with `0xbe` reports settings; no other value reports anything.
pub proof fn values_report_their_bytes(value: Seq<u8>)
    ensures
        match Notification::reported(value) {
            Some(Notification::IntensityChange { serial, intensity }) => {
                &&& value.len() == 4
                &&& value[0] == 0xb1
                &&& value[1] == serial
                &&& value[2] == intensity.a
                &&& value[3] == intensity.b
            },
            Some(Notification::DeviceSettingsChange(settings)) => {
                &&& value.len() == 7
                &&& value[0] == 0xbe
                &&& value[1] == settings.limit.a
                &&& value[2] == settings.limit.b
                &&& value[3] == settings.frequency_balance.a
                &&& value[4] == settings.frequency_balance.b
                &&& value[5] == settings.intensity_balance.a
                &&& value[6] == settings.intensity_balance.b
            },
            None => !(value.len() == 4 && value[0] == 0xb1) && !(value.len() == 7 && value[0]
                == 0xbe),
        },
{
}

/// A battery value is a single byte, the level.
pub proof fn battery_values_are_single_bytes(value: Seq<u8>)
    ensures
        state::battery_level(value) is Some <==> value.len() == 1,
        state::battery_level(value) matches Some(level) ==> level == value[0],
{
}

/// After an intensity report with any number, zero too, the published levels are the reported ones
/// and the last number is the reported one, whatever was published before; the flag tells whether a
/// change is still unanswered, and nothing else has changed. The report settles the unanswered
/// change exactly where it has its number.
pub proof fn intensity_reports_are_published(
    state: State,
    handshake: Handshake,
    serial: u8,
    a: u8,
    b: u8,
)
    ensures
        ({
            let report = Notification::IntensityChange { serial, intensity: Stereo { a, b } };
            let exchange = handshake.after_notification(report);
            let after = state.after_notification(exchange, report);
            let fits = serial != 0 && handshake.unanswered is Some
                && handshake.unanswered->0.sequence == serial;
            &&& Notification::reported(seq![0xb1, serial, a, b]) == Some(report)
            &&& after.intensity.a == a
            &&& after.intensity.b == b
            &&& after.last_intensity_sequence == serial
            &&& after.intensity_update_pending == (handshake.unanswered is Some && !fits)
            &&& after.battery == state.battery
            &&& after.settings == state.settings
            &&& exchange.unanswered == if fits {
                None
            } else {
                handshake.unanswered
            }
            &&& exchange.waiting == handshake.waiting
            &&& exchange.next_number == handshake.next_number
        }),
{
}

/// A settings report changes neither what is published nor the exchange.
pub proof fn settings_reports_change_nothing(
    state: State,
    handshake: Handshake,
    settings: DeviceSettings,
)
    ensures
        ({
            let report = Notification::DeviceSettingsChange(settings);
            &&& handshake.after_notification(report) == handshake
            &&& state.after_notification(handshake, report) == state
        }),
{
}

/// The flag that is published tells whether a change is unanswered; publishing it changes nothing
/// else.
pub proof fn flag_tells_of_the_unanswered_change(state: State, handshake: Handshake)
    ensures
        state.mirroring(handshake).intensity_update_pending == (handshake.unanswered is Some),
        state.mirroring(handshake).battery == state.battery,
        state.mirroring(handshake).intensity == state.intensity,
        state.mirroring(handshake).settings == state.settings,
        state.mirroring(handshake).last_intensity_sequence == state.last_intensity_sequence,
{
}

/// A new connection publishes the battery level that was read, or zero, the settings with both
/// limits cut off at `200`, and zero for everything else.
pub proof fn connections_publish_their_start(battery_value: Seq<u8>, settings: DeviceSettings)
    ensures
        ({
            let start = State::at_start(battery_value, settings);
            &&& battery_value.len() == 1 ==> start.battery == battery_value[0]
            &&& battery_value.len() != 1 ==> start.battery == 0
            &&& start.intensity.a == 0
            &&& start.intensity.b == 0
            &&& start.last_intensity_sequence == 0
            &&& !start.intensity_update_pending
            &&& is_cut(start.settings.limit.a, settings.limit.a, 200)
            &&& is_cut(start.settings.limit.b, settings.limit.b, 200)
            &&& start.settings.frequency_balance == settings.frequency_balance
            &&& start.settings.intensity_balance == settings.intensity_balance
        }),
{
}

// Connections.

/// A characteristic is reported missing exactly where it is needed and not listed: the battery
/// characteristic before the notify characteristic before the write characteristic.
pub proof fn missing_characteristics_are_reported(uuids: Seq<u128>)
    ensures
        match connect::missing_characteristic(uuids) {
            None => {
                &&& uuids.contains(BATTERY_CHARACTERISTIC_UUID)
                &&& uuids.contains(NOTIFY_CHARACTERISTIC_UUID)
                &&& uuids.contains(WRITE_CHARACTERISTIC_UUID)
            },
            Some(uuid) => {
                &&& !uuids.contains(uuid)
                &&& uuid == BATTERY_CHARACTERISTIC_UUID || uuid == NOTIFY_CHARACTERISTIC_UUID
                    || uuid == WRITE_CHARACTERISTIC_UUID
                &&& uuid != BATTERY_CHARACTERISTIC_UUID ==> uuids.contains(
                    BATTERY_CHARACTERISTIC_UUID,
                )
                &&& uuid == WRITE_CHARACTERISTIC_UUID ==> uuids.contains(
                    NOTIFY_CHARACTERISTIC_UUID,
                )
            },
        },
{
}

/// Whether `uuid` is listed at `position` and at no position before.
pub open spec fn is_first_at(uuids: Seq<u128>, uuid: u128, position: usize) -> bool {
    &&& position < uuids.len()
    &&& uuids[position as int] == uuid
    &&& forall|i: int| 0 <= i < position ==> uuids[i] != uuid
}

/// Each characteristic is taken from where its own UUID is listed first.
pub proof fn characteristics_are_found(uuids: Seq<u128>)
    requires
        uuids.len() <= usize::MAX,
        uuids.contains(BATTERY_CHARACTERISTIC_UUID),
        uuids.contains(NOTIFY_CHARACTERISTIC_UUID),
        uuids.contains(WRITE_CHARACTERISTIC_UUID),
    ensures
        is_first_at(
            uuids,
            BATTERY_CHARACTERISTIC_UUID,
            Characteristics::located(uuids).battery,
        ),
        is_first_at(uuids, NOTIFY_CHARACTERISTIC_UUID, Characteristics::located(uuids).notify),
        is_first_at(uuids, WRITE_CHARACTERISTIC_UUID, Characteristics::located(uuids).write),
{
    link::first_position_is_first(uuids, BATTERY_CHARACTERISTIC_UUID, 0);
    link::first_position_is_first(uuids, NOTIFY_CHARACTERISTIC_UUID, 0);
    link::first_position_is_first(uuids, WRITE_CHARACTERISTIC_UUID, 0);
}

/// A connection starts with the way to the services, from what it was not given on, follows it step
/// by step, and lists the characteristics once it has arrived.
pub proof fn connections_follow_the_link(
    setup: ConnectSetup,
    uuids: Seq<u128>,
    battery_value: Seq<u8>,
    step: LinkStep,
    event: LinkEvent,
)
    ensures
        ({
            let first = ConnectStep::initial(setup);
            let link = step.next(setup.peripheral_given, event);
            let after = ConnectStep::Link(step).next(setup, uuids, battery_value, event);
            &&& !setup.adapter_given ==> first == ConnectStep::Link(LinkStep::OpenAdapter)
            &&& setup.adapter_given && !setup.peripheral_given ==> first == ConnectStep::Link(
                LinkStep::StartScan,
            )
            &&& setup.adapter_given && setup.peripheral_given ==> first == ConnectStep::Link(
                LinkStep::Connect,
            )
            &&& link is Ready ==> after == ConnectStep::ListCharacteristics
            &&& !(link is Ready) ==> after == ConnectStep::Link(link)
        }),
{
}

/// A connection takes its steps in this order, each once the one before is done: subscribe to the
/// battery level, subscribe to the reports, read the battery level, take in notifications, write the
/// settings. What was found and what was read is kept on the way.
pub proof fn connections_take_their_steps(
    setup: ConnectSetup,
    uuids: Seq<u128>,
    battery_value: Seq<u8>,
    found: Characteristics,
    state: State,
)
    ensures
        ({
            let done = LinkEvent::Done;
            &&& ConnectStep::SubscribeBattery(found).next(setup, uuids, battery_value, done)
                == ConnectStep::SubscribeNotify(found)
            &&& ConnectStep::SubscribeNotify(found).next(setup, uuids, battery_value, done)
                == ConnectStep::ReadBattery(found)
            &&& ConnectStep::ReadBattery(found).next(setup, uuids, battery_value, done)
                == ConnectStep::OpenNotifications(
                found,
                State::at_start(battery_value, setup.settings),
            )
            &&& ConnectStep::OpenNotifications(found, state).next(
                setup,
                uuids,
                battery_value,
                done,
            ) == ConnectStep::WriteSettings(found, state)
            &&& ConnectStep::WriteSettings(found, state).next(setup, uuids, battery_value, done)
                == ConnectStep::Connected(found, state)
        }),
{
}

/// Once the characteristics are listed, a connection goes on with them where none is missing, and
/// else fails with the one that is.
pub proof fn connections_need_their_characteristics(
    setup: ConnectSetup,
    uuids: Seq<u128>,
    battery_value: Seq<u8>,
)
    ensures
        match ConnectStep::ListCharacteristics.next(
            setup,
            uuids,
            battery_value,
            LinkEvent::Done,
        ) {
            ConnectStep::SubscribeBattery(found) => {
                &&& found == Characteristics::located(uuids)
                &&& uuids.contains(BATTERY_CHARACTERISTIC_UUID)
                &&& uuids.contains(NOTIFY_CHARACTERISTIC_UUID)
                &&& uuids.contains(WRITE_CHARACTERISTIC_UUID)
            },
            ConnectStep::Failed(error) => {
                &&& error matches crate::error::Error::MissingCharacteristic(uuid)
                &&& Some(uuid) == connect::missing_characteristic(uuids)
            },
            _ => false,
        },
{
}

/// Behind the way to the services, only what is done moves a connection; one that is complete or has
/// failed stays so.
pub proof fn connections_wait_for_their_steps(
    setup: ConnectSetup,
    uuids: Seq<u128>,
    battery_value: Seq<u8>,
    step: ConnectStep,
    event: LinkEvent,
)
    requires
        !(step is Link),
        event != LinkEvent::Done || step is Connected || step is Failed,
    ensures
        step.next(setup, uuids, battery_value, event) == step,
{
}

// Shapes.

/// What is sent for the last pulse of a channel is that pulse, as a code or moved into range.
pub proof fn last_pulses_are_sent(shape: ChannelShape)
    ensures
        match shape {
            ChannelShape::Hertz { shape: _, current } => {
                &&& is_code_of(shape.sent().frequency, current.frequency)
                &&& is_cut(shape.sent().intensity, current.intensity, 100)
            },
            ChannelShape::Encoded { shape: _, current } => {
                &&& is_in_band(shape.sent().frequency, current.frequency)
                &&& is_cut(shape.sent().intensity, current.intensity, 100)
            },
        },
{
    if let ChannelShape::Hertz { shape: _, current } = shape {
        frequencies_have_their_codes(current);
    }
}

/// A shape with frequencies in hertz makes a pulse by being asked once, with the chunk, the channel
/// intensity, and the frequency and the intensity of the pulse that it made before; what it is asked
/// later comes behind that.
pub proof fn shapes_are_asked_for_every_pulse(
    shape: Box<dyn Shape>,
    current: Pulse,
    chunk_index: u8,
    channel_intensity: u8,
    after: ChannelShape,
    asked: Seq<ShapeContext>,
    given: Seq<Pulse>,
)
    requires
        (ChannelShape::Hertz { shape, current }).makes(chunk_index, channel_intensity, after),
    ensures
        ({
            let context = ShapeContext {
                chunk_index,
                frequency: current.frequency,
                channel_intensity,
                pulse_intensity: current.intensity,
            };
            &&& after matches ChannelShape::Hertz { shape: later, current: made }
            &&& shape.answers(seq![context], seq![made])
            &&& later.answers(asked, given) ==> shape.answers(
                seq![context] + asked,
                seq![made] + given,
            )
        }),
{
    if let ChannelShape::Hertz { shape: later, current: made } = after {
        let context = ShapeContext {
            chunk_index,
            frequency: current.frequency,
            channel_intensity,
            pulse_intensity: current.intensity,
        };
        assert(later.answers(seq![], seq![]));
        assert(seq![context] + Seq::<ShapeContext>::empty() =~= seq![context]);
        assert(seq![made] + Seq::<Pulse>::empty() =~= seq![made]);
    }
}

/// A shape with frequencies of the protocol makes a pulse by being asked once, with the chunk, the
/// channel intensity, and the frequency and the intensity of the pulse that it made before; what it
/// is asked later comes behind that.
pub proof fn encoded_shapes_are_asked_for_every_pulse(
    shape: Box<dyn EncodedShape>,
    current: EncodedPulse,
    chunk_index: u8,
    channel_intensity: u8,
    after: ChannelShape,
    asked: Seq<EncodedShapeContext>,
    given: Seq<EncodedPulse>,
)
    requires
        (ChannelShape::Encoded { shape, current }).makes(chunk_index, channel_intensity, after),
    ensures
        ({
            let context = EncodedShapeContext {
                chunk_index,
                frequency: current.frequency,
                channel_intensity,
                pulse_intensity: current.intensity,
            };
            &&& after matches ChannelShape::Encoded { shape: later, current: made }
            &&& shape.answers(seq![context], seq![made])
            &&& later.answers(asked, given) ==> shape.answers(
                seq![context] + asked,
                seq![made] + given,
            )
        }),
{
    if let ChannelShape::Encoded { shape: later, current: made } = after {
        let context = EncodedShapeContext {
            chunk_index,
            frequency: current.frequency,
            channel_intensity,
            pulse_intensity: current.intensity,
        };
        assert(later.answers(seq![], seq![]));
        assert(seq![context] + Seq::<EncodedShapeContext>::empty() =~= seq![context]);
        assert(seq![made] + Seq::<EncodedPulse>::empty() =~= seq![made]);
    }
}

/// An intensity shape makes a change by being asked once, with the channel intensity; what it is
/// asked later comes behind that.
pub proof fn intensity_shapes_are_asked_for_every_change(
    before: ChannelRuntime,
    channel_intensity: u8,
    change: IntensityChange,
    after: ChannelRuntime,
    asked: Seq<IntensityContext>,
    given: Seq<IntensityChange>,
)
    requires
        before.changes(channel_intensity, change, after),
    ensures
        ({
            let context = IntensityContext { channel_intensity };
            &&& before.intensity_shape.answers(seq![context], seq![change])
            &&& after.intensity_shape.answers(asked, given) ==> before.intensity_shape.answers(
                seq![context] + asked,
                seq![change] + given,
            )
        }),
{
    let context = IntensityContext { channel_intensity };
    assert(after.intensity_shape.answers(seq![], seq![]));
    assert(seq![context] + Seq::<IntensityContext>::empty() =~= seq![context]);
    assert(seq![change] + Seq::<IntensityChange>::empty() =~= seq![change]);
}

/// A frame is made of the four chunks `0` to `3` in turn: there are four states of the channel, each
/// made from the one before by the pulse of its chunk, and pulse `i` of the frame is what is sent
/// for state `i`. The intensity change is made once.
pub proof fn frames_are_made_chunk_by_chunk(
    before: ChannelRuntime,
    channel_intensity: u8,
    change: IntensityChange,
    sent: Seq<EncodedPulse>,
    after: ChannelRuntime,
)
    requires
        before.renders(channel_intensity, change, sent, after),
    ensures
        before.changes(channel_intensity, change, after),
        sent.len() == 4,
        exists|made: Seq<ChannelShape>| #[trigger]
            are_the_chunks(before.shape, channel_intensity, made, sent) && made[3] == after.shape,
{
    let (first, second, third) = choose|
        first: ChannelShape,
        second: ChannelShape,
        third: ChannelShape,
    |
        {
            &&& #[trigger] before.shape.makes(0, channel_intensity, first)
            &&& #[trigger] first.makes(1, channel_intensity, second)
            &&& #[trigger] second.makes(2, channel_intensity, third)
            &&& third.makes(3, channel_intensity, after.shape)
            &&& sent == seq![first.sent(), second.sent(), third.sent(), after.shape.sent()]
        };
    let made = seq![first, second, third, after.shape];
    assert(are_the_chunks(before.shape, channel_intensity, made, sent) && made[3] == after.shape);
}

/// Whether `made` are the states of a channel after its four chunks, and `sent` is what is sent.
pub open spec fn are_the_chunks(
    before: ChannelShape,
    channel_intensity: u8,
    made: Seq<ChannelShape>,
    sent: Seq<EncodedPulse>,
) -> bool {
    &&& made.len() == 4
    &&& sent.len() == 4
    &&& before.makes(0, channel_intensity, made[0])
    &&& made[0].makes(1, channel_intensity, made[1])
    &&& made[1].makes(2, channel_intensity, made[2])
    &&& made[2].makes(3, channel_intensity, made[3])
    &&& forall|i: int| 0 <= i < 4 ==> #[trigger] sent[i] == made[i].sent()
}

/// A channel that starts with a shape asks that shape and no other, and counts a silent pulse as the
/// one before its first.
pub proof fn channels_start_with_their_shape<S: Shape>(
    channel: ChannelShape,
    shape: S,
    asked: Seq<ShapeContext>,
    given: Seq<Pulse>,
)
    requires
        channel.starts(shape),
    ensures
        channel matches ChannelShape::Hertz { shape: own, current } && current.frequency == 0
            && current.intensity == 0 && own.answers(asked, given) == shape.answers(asked, given)
            && own.ready() == shape.ready(),
{
}

/// A channel that starts with a shape of the protocol asks that shape and no other, and counts a
/// silent pulse as the one before its first.
pub proof fn channels_start_with_their_encoded_shape<S: EncodedShape>(
    channel: ChannelShape,
    shape: S,
    asked: Seq<EncodedShapeContext>,
    given: Seq<EncodedPulse>,
)
    requires
        channel.starts_encoded(shape),
    ensures
        channel matches ChannelShape::Encoded { shape: own, current } && current.frequency == 0
            && current.intensity == 0 && own.answers(asked, given) == shape.answers(asked, given)
            && own.ready() == shape.ready(),
{
}

/// A channel that follows an intensity shape asks that shape and no other.
pub proof fn channels_follow_their_intensity_shape<S: IntensityShape>(
    channel: ChannelRuntime,
    shape: S,
    asked: Seq<IntensityContext>,
    given: Seq<IntensityChange>,
)
    requires
        channel.follows(shape),
    ensures
        channel.intensity_shape.answers(asked, given) == shape.answers(asked, given),
        channel.intensity_shape.ready() == shape.ready(),
{
}

/// The shapes that come with the library answer every question with silence and with no change.
pub proof fn silent_shapes_are_silent(
    asked: Seq<ShapeContext>,
    given: Seq<Pulse>,
    intensity_asked: Seq<IntensityContext>,
    changes: Seq<IntensityChange>,
    i: int,
)
    ensures
        ZeroShape.answers(asked, given) ==> asked.len() == given.len(),
        ZeroShape.answers(asked, given) && 0 <= i < given.len() ==> given[i].frequency == 0
            && given[i].intensity == 0,
        DoNotChangeIntensityShape.answers(intensity_asked, changes) ==> intensity_asked.len()
            == changes.len(),
        DoNotChangeIntensityShape.answers(intensity_asked, changes) && 0 <= i < changes.len()
            ==> changes[i] is DoNotChange,
{
}

/// A function that makes pulses is called once for every context, and answer `i` is what it returns
/// for context `i`; it can be asked where it can be called with every context.
pub proof fn closures_are_called_for_every_pulse<F>(
    function: F,
    asked: Seq<ShapeContext>,
    given: Seq<Pulse>,
    context: ShapeContext,
) where F: FnMut(ShapeContext) -> Pulse + Send + 'static
    requires
        <F as Shape>::answers(&function, asked, given),
    ensures
        asked.len() == given.len(),
        forall|i: int|
            0 <= i < asked.len() ==> call_ensures(function, (#[trigger] asked[i],), given[i]),
        <F as Shape>::ready(&function) ==> call_requires(function, (context,)),
        (forall|any: ShapeContext| #[trigger] call_requires(function, (any,))) ==> <F as Shape>::ready(
            &function,
        ),
{
}

/// A function that makes encoded pulses is called once for every context, and answer `i` is what it returns
/// for context `i`; it can be asked where it can be called with every context.
pub proof fn closures_are_called_for_every_encoded_pulse<F>(
    function: F,
    asked: Seq<EncodedShapeContext>,
    given: Seq<EncodedPulse>,
    context: EncodedShapeContext,
) where F: FnMut(EncodedShapeContext) -> EncodedPulse + Send + 'static
    requires
        <F as EncodedShape>::answers(&function, asked, given),
    ensures
        asked.len() == given.len(),
        forall|i: int|
            0 <= i < asked.len() ==> call_ensures(function, (#[trigger] asked[i],), given[i]),
        <F as EncodedShape>::ready(&function) ==> call_requires(function, (context,)),
        (forall|any: EncodedShapeContext| #[trigger] call_requires(function, (any,))) ==> <F as EncodedShape>::ready(
            &function,
        ),
{
}

/// A function that makes intensity changes is called once for every context, and answer `i` is what it returns
/// for context `i`; it can be asked where it can be called with every context.
pub proof fn closures_are_called_for_every_change<F>(
    function: F,
    asked: Seq<IntensityContext>,
    given: Seq<IntensityChange>,
    context: IntensityContext,
) where F: FnMut(IntensityContext) -> IntensityChange + Send + 'static
    requires
        <F as IntensityShape>::answers(&function, asked, given),
    ensures
        asked.len() == given.len(),
        forall|i: int|
            0 <= i < asked.len() ==> call_ensures(function, (#[trigger] asked[i],), given[i]),
        <F as IntensityShape>::ready(&function) ==> call_requires(function, (context,)),
        (forall|any: IntensityContext| #[trigger] call_requires(function, (any,))) ==> <F as IntensityShape>::ready(
            &function,
        ),
{
}

// Waveforms.

/// A table gives the frequency and the intensity of the frame that it stands at.
pub proof fn tables_give_their_frame(table: TableShape)
    requires
        table.well_formed(),
    ensures
        table.frame_index < table.frames@.len(),
        table.pulse().frequency == table.frames@[table.frame_index as int].0,
        table.pulse().intensity == table.frames@[table.frame_index as int].1,
{
}

/// A table that is asked for the chunks `0` to `3` over and over gives each frame four times: answer
/// `i` is the frame `i / 4` places behind the one that it stands at, counted round.
pub proof fn tables_give_each_frame_four_times(
    table: TableShape,
    asked: Seq<EncodedShapeContext>,
    given: Seq<EncodedPulse>,
    i: int,
)
    requires
        table.well_formed(),
        table.answers(asked, given),
        forall|j: int| 0 <= j < asked.len() ==> #[trigger] asked[j].chunk_index == j % 4,
        0 <= i < asked.len(),
    ensures
        asked.len() == given.len(),
        ({
            let place = (table.frame_index + i / 4) % (table.frames@.len() as int);
            &&& 0 <= place < table.frames@.len()
            &&& given[i].frequency == table.frames@[place].0
            &&& given[i].intensity == table.frames@[place].1
        }),
{
    waveforms::tables_play_frame_by_frame(
        table.frames@,
        table.frame_index as int,
        asked,
        given,
        i,
    );
}

/// A new "Breathing" waveform plays twelve frames of 10 Hz over and over: the amplitude goes up in
/// steps of `20` from zero to `100`, stays there for two more frames, and is zero for four.
pub proof fn breathing_goes_up_and_rests(
    shape: Breathing,
    asked: Seq<EncodedShapeContext>,
    given: Seq<EncodedPulse>,
    i: int,
)
    requires
        shape@.frames@ == BREATHING_FRAMES@,
        shape@.frame_index == 0,
        shape.answers(asked, given),
        forall|j: int| 0 <= j < asked.len() ==> #[trigger] asked[j].chunk_index == j % 4,
        0 <= i < asked.len(),
    ensures
        ({
            let place = i / 4 % 12;
            &&& given[i].frequency == 10
            &&& place <= 5 ==> given[i].intensity == 20 * place
            &&& 6 <= place <= 7 ==> given[i].intensity == 100
            &&& place >= 8 ==> given[i].intensity == 0
        }),
{
    tables_give_each_frame_four_times(shape@, asked, given, i);
}

/// A new "Tidal" waveform plays twenty-three frames over and over: twice eleven frames whose amplitude
/// goes up to `100` in six equal steps and then down by `8` each, while the code of the frequency
/// goes up evenly, by `16` in ten frames, and a silent one.
pub proof fn tides_rise_twice(
    shape: Tidal,
    asked: Seq<EncodedShapeContext>,
    given: Seq<EncodedPulse>,
    i: int,
)
    requires
        shape@.frames@ == TIDAL_FRAMES@,
        shape@.frame_index == 0,
        shape.answers(asked, given),
        forall|j: int| 0 <= j < asked.len() ==> #[trigger] asked[j].chunk_index == j % 4,
        0 <= i < asked.len(),
    ensures
        ({
            let place = i / 4 % 23;
            let step = place % 11;
            &&& place == 22 ==> given[i].frequency == 10 && given[i].intensity == 0
            &&& place < 22 ==> {
                &&& given[i].frequency == 10 + 16 * (place / 11) + 16 * step / 10
                &&& step <= 6 ==> given[i].intensity == 100 * step / 6
                &&& step > 6 ==> given[i].intensity == 100 - 8 * (step - 6)
            }
        }),
{
    tables_give_each_frame_four_times(shape@, asked, given, i);
}

// The background task.

/// The background task goes round: it waits, calls the callback with the state that was read, and
/// sends the frame for that state; only a frame that could not be sent ends it.
pub proof fn tasks_go_round(state: State)
    ensures
        RuntimeStep::AwaitTick.next(RuntimeEvent::Due(state)) == RuntimeStep::RunCallback(state),
        RuntimeStep::RunCallback(state).next(RuntimeEvent::Done) == RuntimeStep::SendFrame(state),
        RuntimeStep::SendFrame(state).next(RuntimeEvent::Done) == RuntimeStep::AwaitTick,
        RuntimeStep::SendFrame(state).next(RuntimeEvent::Failed) == RuntimeStep::Stopped,
{
}

/// The background task waits for what belongs to its step.
pub proof fn tasks_wait_for_their_steps(state: State, read: State, event: RuntimeEvent)
    ensures
        !(event is Due) ==> RuntimeStep::AwaitTick.next(event) == RuntimeStep::AwaitTick,
        !(event is Done) ==> RuntimeStep::RunCallback(state).next(event)
            == RuntimeStep::RunCallback(state),
        RuntimeStep::SendFrame(state).next(RuntimeEvent::Due(read)) == RuntimeStep::SendFrame(
            state,
        ),
        RuntimeStep::Stopped.next(event) == RuntimeStep::Stopped,
{
}

/// The count of the callback changes goes up by one and wraps around.
pub proof fn callback_changes_are_counted(generation: u64)
    ensures
        generation < u64::MAX ==> task::next_generation(generation) == generation + 1,
        generation == u64::MAX ==> task::next_generation(generation) == 0,
{
}

/// A callback that has run goes back into its slot where the slot is empty and its count is the one
/// at which the callback was taken out, and else the slot stays as it is.
pub proof fn callbacks_are_put_back<C>(slot: StateCallbackSlot<C>, generation: u64, callback: C)
    ensures
        ({
            let after = slot.after_invoke(generation, callback);
            &&& after.generation == slot.generation
            &&& slot.callback is None && slot.generation == generation ==> after.callback == Some(
                callback,
            )
            &&& slot.callback is Some || slot.generation != generation ==> after.callback
                == slot.callback
        }),
{
}

} // verus!
