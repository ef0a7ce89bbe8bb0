//! Intensity changes and their exchange with the device.

use crate::coyote3::settings;
use crate::stereo::Stereo;
use vstd::prelude::*;

verus! {

/// Used to describe if and how the stimulation intensity should be changed.
///
/// Note that relative changes should be preferred in many cases over absolute changes since
/// absolute changes will overwrite any intensity changes that were made using the hardware
/// shoulder switches of the Coyote, basically rendering them useless.
#[derive(Clone, Copy, Debug, PartialEq, Eq, Structural)]
pub enum IntensityChange {
    /// Do not change the intensity.
    DoNotChange,
    /// Increase the intensity by `x`, constrained to `0..=200` when encoded.
    RelativeIncrease(u8),
    /// Decrease the intensity by `x`, constrained to `0..=200` when encoded.
    RelativeDecrease(u8),
    /// Set the intensity to `x`, constrained to `0..=200` when encoded.
    AbsoluteChange(u8),
}

/// `value`, moved into `low..=high`.
pub open spec fn clamped(value: int, low: int, high: int) -> int {
    if value < low {
        low
    } else if value > high {
        high
    } else {
        value
    }
}

impl IntensityChange {
    /// The number of the kind of change.
    pub open spec fn kind(self) -> u8 {
        match self {
            IntensityChange::DoNotChange => 0,
            IntensityChange::RelativeIncrease(_) => 1,
            IntensityChange::RelativeDecrease(_) => 2,
            IntensityChange::AbsoluteChange(_) => 3,
        }
    }

    /// The amount of the change that is sent.
    pub open spec fn amount(self) -> u8 {
        match self {
            IntensityChange::DoNotChange => 0,
            IntensityChange::RelativeIncrease(v) => settings::at_most(v, 200),
            IntensityChange::RelativeDecrease(v) => settings::at_most(v, 200),
            IntensityChange::AbsoluteChange(v) => settings::at_most(v, 200),
        }
    }

    /// The intensity that a channel at `level` has after this change.
    pub open spec fn applied(self, level: int) -> int {
        match self {
            IntensityChange::DoNotChange => level,
            IntensityChange::RelativeIncrease(_) => clamped(level + self.amount(), 0, 200),
            IntensityChange::RelativeDecrease(_) => clamped(level - self.amount(), 0, 200),
            IntensityChange::AbsoluteChange(_) => self.amount() as int,
        }
    }

    /// By how much this change moves a channel, where it moves it relative to its level.
    pub open spec fn delta(self) -> int {
        match self {
            IntensityChange::RelativeIncrease(_) => self.amount() as int,
            IntensityChange::RelativeDecrease(_) => -self.amount(),
            _ => 0,
        }
    }

    /// Return the number of the kind of change.
    pub fn mode(&self) -> (mode: u8)
        ensures
            mode == self.kind(),
    {
        match self {
            IntensityChange::DoNotChange => 0b00,
            IntensityChange::RelativeIncrease(_) => 0b01,
            IntensityChange::RelativeDecrease(_) => 0b10,
            IntensityChange::AbsoluteChange(_) => 0b11,
        }
    }

    /// Return the amount of the change, moved into `0..=200`.
    pub fn value(&self) -> (value: u8)
        ensures
            value == self.amount(),
    {
        match self {
            IntensityChange::DoNotChange => 0,
            IntensityChange::RelativeIncrease(v) => (*v).min(200),
            IntensityChange::RelativeDecrease(v) => (*v).min(200),
            IntensityChange::AbsoluteChange(v) => (*v).min(200),
        }
    }
}

/// Intensity changes of one channel that wait to be sent, merged into one.
#[derive(Clone, Copy, Debug, PartialEq, Eq, Structural)]
pub enum PendingIntensityChange {
    /// Nothing waits.
    Empty,
    /// The intensity is to change by this much.
    Relative(i16),
    /// The intensity is to become this.
    Absolute(i16),
}

impl PendingIntensityChange {
    /// Whether the change lies in what a single command can do.
    pub open spec fn bounded(self) -> bool {
        match self {
            PendingIntensityChange::Empty => true,
            PendingIntensityChange::Relative(value) => -200 <= value <= 200,
            PendingIntensityChange::Absolute(value) => 0 <= value <= 200,
        }
    }

    /// This change and then a change by `delta`.
    pub open spec fn shifted(self, delta: int) -> Self {
        match self {
            PendingIntensityChange::Empty => PendingIntensityChange::Relative(
                clamped(delta, -200, 200) as i16,
            ),
            PendingIntensityChange::Relative(value) => PendingIntensityChange::Relative(
                clamped(value + delta, -200, 200) as i16,
            ),
            PendingIntensityChange::Absolute(value) => PendingIntensityChange::Absolute(
                clamped(value + delta, 0, 200) as i16,
            ),
        }
    }

    /// This change and then `change`.
    pub open spec fn merged(self, change: IntensityChange) -> Self {
        match change {
            IntensityChange::DoNotChange => self,
            IntensityChange::RelativeIncrease(_) => self.shifted(change.amount() as int),
            IntensityChange::RelativeDecrease(_) => self.shifted(-change.amount()),
            IntensityChange::AbsoluteChange(_) => PendingIntensityChange::Absolute(
                change.amount() as i16,
            ),
        }
    }

    /// This change and then `later`.
    pub open spec fn composed(self, later: Self) -> Self {
        match later {
            PendingIntensityChange::Empty => self,
            PendingIntensityChange::Relative(delta) => self.shifted(delta as int),
            PendingIntensityChange::Absolute(_) => later,
        }
    }

    /// The command that does this change.
    pub open spec fn as_change(self) -> IntensityChange {
        match self {
            PendingIntensityChange::Empty => IntensityChange::DoNotChange,
            PendingIntensityChange::Relative(value) => if value == 0 {
                IntensityChange::DoNotChange
            } else if value > 0 {
                IntensityChange::RelativeIncrease(value as u8)
            } else {
                IntensityChange::RelativeDecrease((-value) as u8)
            },
            PendingIntensityChange::Absolute(value) => IntensityChange::AbsoluteChange(value as u8),
        }
    }

    /// The intensity that a channel at `level` has after this change.
    pub open spec fn applied(self, level: int) -> int {
        match self {
            PendingIntensityChange::Empty => level,
            PendingIntensityChange::Relative(value) => clamped(level + value, 0, 200),
            PendingIntensityChange::Absolute(value) => value as int,
        }
    }

    /// By how much this change moves a channel, where it moves it relative to its level.
    pub open spec fn delta(self) -> int {
        match self {
            PendingIntensityChange::Relative(value) => value as int,
            _ => 0,
        }
    }

    /// Whether this change would take a channel at `level` past an end of its range, and a later
    /// change by `delta` leads back from that end.
    pub open spec fn turned_back_by(self, level: int, delta: int) -> bool {
        ||| level + self.delta() > 200 && delta < 0
        ||| level + self.delta() < 0 && delta > 0
    }

    /// Add `change` behind this change.
    pub fn followed_by(self, change: IntensityChange) -> (result: Self)
        requires
            self.bounded(),
        ensures
            result == self.merged(change),
            result.bounded(),
    {
        match change {
            IntensityChange::DoNotChange => self,
            IntensityChange::AbsoluteChange(value) => PendingIntensityChange::Absolute(
                value.min(200) as i16,
            ),
            IntensityChange::RelativeIncrease(value) => self.then_delta(value.min(200) as i16),
            IntensityChange::RelativeDecrease(value) => self.then_delta(-(value.min(200) as i16)),
        }
    }

    /// Add a change by `delta` behind this change.
    pub fn then_delta(self, delta: i16) -> (result: Self)
        requires
            match self {
                PendingIntensityChange::Empty => true,
                PendingIntensityChange::Relative(value) => i16::MIN <= value + delta <= i16::MAX,
                PendingIntensityChange::Absolute(value) => i16::MIN <= value + delta <= i16::MAX,
            },
        ensures
            result == self.shifted(delta as int),
            result.bounded(),
    {
        match self {
            PendingIntensityChange::Empty => PendingIntensityChange::Relative(
                if delta < -200 {
                    -200
                } else if delta > 200 {
                    200
                } else {
                    delta
                },
            ),
            PendingIntensityChange::Relative(value) => {
                let sum: i16 = value + delta;
                PendingIntensityChange::Relative(
                    if sum < -200 {
                        -200
                    } else if sum > 200 {
                        200
                    } else {
                        sum
                    },
                )
            },
            PendingIntensityChange::Absolute(value) => {
                let sum: i16 = value + delta;
                PendingIntensityChange::Absolute(
                    if sum < 0 {
                        0
                    } else if sum > 200 {
                        200
                    } else {
                        sum
                    },
                )
            },
        }
    }

    /// Return the command that does this change.
    pub fn into_change(self) -> (change: IntensityChange)
        requires
            self.bounded(),
        ensures
            change == self.as_change(),
    {
        match self {
            PendingIntensityChange::Empty => IntensityChange::DoNotChange,
            PendingIntensityChange::Relative(value) => if value == 0 {
                IntensityChange::DoNotChange
            } else if value > 0 {
                IntensityChange::RelativeIncrease(value as u8)
            } else {
                IntensityChange::RelativeDecrease((-value) as u8)
            },
            PendingIntensityChange::Absolute(value) => IntensityChange::AbsoluteChange(value as u8),
        }
    }

    /// Put `change` before this change.
    pub fn prepend(self, change: IntensityChange) -> (result: Self)
        requires
            self.bounded(),
        ensures
            result == PendingIntensityChange::Empty.merged(change).composed(self),
            result.bounded(),
    {
        PendingIntensityChange::Empty.followed_by(change).compose(self)
    }

    /// Add `later` behind this change.
    pub fn compose(self, later: Self) -> (result: Self)
        requires
            self.bounded(),
            later.bounded(),
        ensures
            result == self.composed(later),
            result.bounded(),
    {
        match later {
            PendingIntensityChange::Empty => self,
            PendingIntensityChange::Relative(delta) => self.then_delta(delta),
            PendingIntensityChange::Absolute(value) => PendingIntensityChange::Absolute(value),
        }
    }
}

/// An intensity change as it goes into a frame.
#[derive(Clone, Copy, Debug, PartialEq, Eq, Structural)]
pub struct PreparedIntensity {
    /// The sequence number that the device answers with; zero asks for no answer.
    pub sequence: u8,
    /// The change, per channel.
    pub intensity: Stereo<IntensityChange>,
}

impl PreparedIntensity {
    /// The entry of a frame that changes nothing.
    pub open spec fn idle() -> Self {
        PreparedIntensity {
            sequence: 0,
            intensity: Stereo {
                a: IntensityChange::DoNotChange,
                b: IntensityChange::DoNotChange,
            },
        }
    }

    /// Whether no channel changes.
    pub open spec fn changes_nothing(self) -> bool {
        self.intensity.a == IntensityChange::DoNotChange && self.intensity.b
            == IntensityChange::DoNotChange
    }
}

/// The sequence number that is used after `sequence`.
pub open spec fn next_in_cycle(sequence: u8) -> u8 {
    if sequence == 15 {
        1
    } else {
        (sequence + 1) as u8
    }
}

/// How far the exchange of intensity changes with the device has come.
#[derive(Clone, Copy, Debug, PartialEq, Eq, Structural)]
pub struct Handshake {
    /// The number of the next change that is sent.
    pub next_number: u8,
    /// The change that was sent and is unanswered.
    pub unanswered: Option<PreparedIntensity>,
    /// The changes that wait until the unanswered one is answered.
    pub waiting: Stereo<PendingIntensityChange>,
}

/// What waits on a channel when `change` comes while `sent` is unanswered.
pub open spec fn queued(
    pending: PendingIntensityChange,
    sent: IntensityChange,
    change: IntensityChange,
) -> PendingIntensityChange {
    if change == IntensityChange::DoNotChange {
        pending
    } else if pending == PendingIntensityChange::Empty && sent is AbsoluteChange {
        PendingIntensityChange::Absolute(sent.amount() as i16).merged(change)
    } else {
        pending.merged(change)
    }
}

impl Handshake {
    /// The exchange before anything was sent.
    pub open spec fn at_start() -> Self {
        Handshake {
            next_number: 1,
            unanswered: None,
            waiting: Stereo {
                a: PendingIntensityChange::Empty,
                b: PendingIntensityChange::Empty,
            },
        }
    }

    /// Numbers lie in `1..=15`, waiting changes lie in what one command can do, and the unanswered
    /// change does change something.
    pub open spec fn well_formed(self) -> bool {
        &&& 1 <= self.next_number <= 15
        &&& self.waiting.a.bounded()
        &&& self.waiting.b.bounded()
        &&& self.unanswered matches Some(sent) ==> {
            &&& 1 <= sent.sequence <= 15
            &&& self.next_number == next_in_cycle(sent.sequence)
            &&& !sent.changes_nothing()
        }
    }

    /// The change that a frame carries when `intensity` comes now.
    pub open spec fn prepared(self, intensity: Stereo<IntensityChange>) -> PreparedIntensity {
        let merged = PreparedIntensity {
            sequence: self.next_number,
            intensity: Stereo {
                a: self.waiting.a.merged(intensity.a).as_change(),
                b: self.waiting.b.merged(intensity.b).as_change(),
            },
        };
        if self.unanswered is Some || merged.changes_nothing() {
            PreparedIntensity::idle()
        } else {
            merged
        }
    }

    /// The exchange after `intensity` came.
    pub open spec fn after_prepare(self, intensity: Stereo<IntensityChange>) -> Self {
        let prepared = self.prepared(intensity);
        match self.unanswered {
            Some(sent) => Handshake {
                waiting: Stereo {
                    a: queued(self.waiting.a, sent.intensity.a, intensity.a),
                    b: queued(self.waiting.b, sent.intensity.b, intensity.b),
                },
                ..self
            },
            None => Handshake {
                next_number: if prepared.changes_nothing() {
                    self.next_number
                } else {
                    next_in_cycle(self.next_number)
                },
                unanswered: if prepared.changes_nothing() {
                    None
                } else {
                    Some(prepared)
                },
                waiting: Stereo {
                    a: PendingIntensityChange::Empty,
                    b: PendingIntensityChange::Empty,
                },
            },
        }
    }

    /// Whether an answer with this number answers the unanswered change.
    pub open spec fn is_answered_by(self, sequence: u8) -> bool {
        &&& sequence != 0
        &&& self.unanswered matches Some(sent)
        &&& sent.sequence == sequence
    }

    /// The exchange after an answer with this number.
    pub open spec fn after_answer(self, sequence: u8) -> Self {
        if self.is_answered_by(sequence) {
            Handshake { unanswered: None, ..self }
        } else {
            self
        }
    }

    /// The exchange after the frame that carried `prepared` could not be sent.
    pub open spec fn after_rollback(self, prepared: PreparedIntensity) -> Self {
        if self.is_answered_by(prepared.sequence) {
            Handshake {
                next_number: self.next_number,
                unanswered: None,
                waiting: Stereo {
                    a: PendingIntensityChange::Empty.merged(prepared.intensity.a).composed(
                        self.waiting.a,
                    ),
                    b: PendingIntensityChange::Empty.merged(prepared.intensity.b).composed(
                        self.waiting.b,
                    ),
                },
            }
        } else {
            self
        }
    }

    /// The levels once the unanswered change has reached the device.
    pub open spec fn delivered(self, level: Stereo<int>) -> Stereo<int> {
        match self.unanswered {
            Some(sent) => Stereo {
                a: sent.intensity.a.applied(level.a),
                b: sent.intensity.b.applied(level.b),
            },
            None => level,
        }
    }

    /// The levels once everything that was asked for has reached the device.
    pub open spec fn settled(self, level: Stereo<int>) -> Stereo<int> {
        Stereo {
            a: self.waiting.a.applied(self.delivered(level).a),
            b: self.waiting.b.applied(self.delivered(level).b),
        }
    }
}

/// Numbers the intensity changes and keeps at most one of them unanswered; changes that come
/// meanwhile are merged and wait.
#[derive(Debug)]
pub struct IntensitySequencer {
    next_sequence: u8,
    outstanding: Option<PreparedIntensity>,
    pending: Stereo<PendingIntensityChange>,
}

impl View for IntensitySequencer {
    type V = Handshake;

    closed spec fn view(&self) -> Handshake {
        Handshake {
            next_number: self.next_sequence,
            unanswered: self.outstanding,
            waiting: self.pending,
        }
    }
}

impl Default for IntensitySequencer {
    fn default() -> (sequencer: Self)
        ensures
            sequencer@ == Handshake::at_start(),
    {
        IntensitySequencer {
            next_sequence: 1,
            outstanding: None,
            pending: Stereo::symmetric(PendingIntensityChange::Empty),
        }
    }
}

impl IntensitySequencer {
    #[verifier::type_invariant]
    spec fn stays_well_formed(self) -> bool {
        self@.well_formed()
    }

    /// Take in an intensity change and return the change that the next frame carries.
    ///
    /// While an earlier change is unanswered, the frame carries none and the new one waits.
    pub fn prepare(&mut self, intensity: Stereo<IntensityChange>) -> (prepared: PreparedIntensity)
        ensures
            prepared == old(self)@.prepared(intensity),
            final(self)@ == old(self)@.after_prepare(intensity),
            final(self)@.well_formed(),
    {
        proof {
            use_type_invariant(&*self);
        }
        let idle = PreparedIntensity {
            sequence: 0,
            intensity: Stereo::symmetric(IntensityChange::DoNotChange),
        };
        if let Some(outstanding) = self.outstanding {
            let a = Self::queue_after_outstanding(
                self.pending.a,
                outstanding.intensity.a,
                intensity.a,
            );
            let b = Self::queue_after_outstanding(
                self.pending.b,
                outstanding.intensity.b,
                intensity.b,
            );
            self.pending = Stereo { a, b };
            return idle;
        }
        let change = Stereo {
            a: self.pending.a.followed_by(intensity.a).into_change(),
            b: self.pending.b.followed_by(intensity.b).into_change(),
        };
        self.pending = Stereo::symmetric(PendingIntensityChange::Empty);
        if change == idle.intensity {
            return idle;
        }
        let sequence: u8 = self.next_sequence;
        let prepared = PreparedIntensity { sequence, intensity: change };
        *self = IntensitySequencer {
            next_sequence: if sequence == 15 {
                1
            } else {
                sequence + 1
            },
            outstanding: Some(prepared),
            pending: self.pending,
        };
        prepared
    }

    /// Take in an answer of the device and tell whether it answers the unanswered change.
    pub fn acknowledge(&mut self, sequence: u8) -> (answered: bool)
        ensures
            answered == old(self)@.is_answered_by(sequence),
            final(self)@ == old(self)@.after_answer(sequence),
            final(self)@.well_formed(),
    {
        proof {
            use_type_invariant(&*self);
        }
        if let Some(sent) = self.outstanding {
            if sequence != 0 && sent.sequence == sequence {
                self.outstanding = None;
                return true;
            }
        }
        false
    }

    /// Undo [`Self::prepare`] where the frame could not be sent: the change waits again, before
    /// what came meanwhile.
    pub fn rollback(&mut self, prepared: PreparedIntensity)
        ensures
            final(self)@ == old(self)@.after_rollback(prepared),
            final(self)@.well_formed(),
    {
        proof {
            use_type_invariant(&*self);
        }
        if let Some(sent) = self.outstanding {
            if prepared.sequence != 0 && sent.sequence == prepared.sequence {
                let a = self.pending.a.prepend(prepared.intensity.a);
                let b = self.pending.b.prepend(prepared.intensity.b);
                *self = IntensitySequencer {
                    next_sequence: self.next_sequence,
                    outstanding: None,
                    pending: Stereo { a, b },
                };
            }
        }
    }

    /// Tell whether a change is unanswered.
    pub fn is_waiting(&self) -> (waiting: bool)
        ensures
            waiting == (self@.unanswered is Some),
            self@.well_formed(),
    {
        proof {
            use_type_invariant(self);
        }
        self.outstanding.is_some()
    }

    /// What waits on a channel when `change` comes while `outstanding` is unanswered.
    fn queue_after_outstanding(
        pending: PendingIntensityChange,
        outstanding: IntensityChange,
        change: IntensityChange,
    ) -> (result: PendingIntensityChange)
        requires
            pending.bounded(),
        ensures
            result == queued(pending, outstanding, change),
            result.bounded(),
    {
        if change == IntensityChange::DoNotChange {
            return pending;
        }
        if pending == PendingIntensityChange::Empty {
            if let IntensityChange::AbsoluteChange(value) = outstanding {
                return PendingIntensityChange::Absolute(value.min(200) as i16).followed_by(change);
            }
        }
        pending.followed_by(change)
    }
}

// Laws. A level is the intensity of a channel and lies in `0..=200`.

/// The levels of both channels are possible ones.
pub open spec fn levels(level: Stereo<int>) -> bool {
    0 <= level.a <= 200 && 0 <= level.b <= 200
}

/// The command for a waiting change takes every level where the waiting change takes it.
pub proof fn command_has_the_effect(pending: PendingIntensityChange, level: int)
    requires
        pending.bounded(),
        0 <= level <= 200,
    ensures
        pending.as_change().applied(level) == pending.applied(level),
        0 <= pending.applied(level) <= 200,
{
}

/// Merging a change into a waiting one has the effect of doing both in turn, unless the first
/// runs past an end of the range and the second leads back from there.
pub proof fn merging_keeps_the_effect(
    pending: PendingIntensityChange,
    change: IntensityChange,
    level: int,
)
    requires
        pending.bounded(),
        0 <= level <= 200,
        !pending.turned_back_by(level, change.delta()),
    ensures
        pending.merged(change).bounded(),
        pending.merged(change).applied(level) == change.applied(pending.applied(level)),
{
}

/// Merging two waiting changes has the effect of doing both in turn, unless the first runs past
/// an end of the range and the second leads back from there.
pub proof fn composing_keeps_the_effect(
    first: PendingIntensityChange,
    second: PendingIntensityChange,
    level: int,
)
    requires
        first.bounded(),
        second.bounded(),
        0 <= level <= 200,
        !first.turned_back_by(level, second.delta()),
    ensures
        first.composed(second).bounded(),
        first.composed(second).applied(level) == second.applied(first.applied(level)),
{
}

/// No operation loses the invariant of the exchange: numbers stay in `1..=15`, waiting changes
/// stay in what one command can do, and a change that changes nothing is never unanswered.
pub proof fn handshake_stays_well_formed(
    handshake: Handshake,
    intensity: Stereo<IntensityChange>,
    sequence: u8,
    prepared: PreparedIntensity,
)
    requires
        handshake.well_formed(),
    ensures
        Handshake::at_start().well_formed(),
        handshake.after_prepare(intensity).well_formed(),
        handshake.after_answer(sequence).well_formed(),
        handshake.after_rollback(prepared).well_formed(),
{
}

/// While a change is unanswered, frames carry no change and no number, and the change stays
/// unanswered.
pub proof fn one_change_at_a_time(
    handshake: Handshake,
    intensity: Stereo<IntensityChange>,
)
    requires
        handshake.well_formed(),
        handshake.unanswered is Some,
    ensures
        handshake.prepared(intensity) == PreparedIntensity::idle(),
        handshake.after_prepare(intensity).unanswered == handshake.unanswered,
        handshake.after_prepare(intensity).next_number == handshake.next_number,
{
}

/// A change that is sent has a number in `1..=15`, which is not the number of the change sent
/// before it, and is unanswered from then on. A frame without a change has the number zero.
pub proof fn sent_changes_are_numbered(
    handshake: Handshake,
    intensity: Stereo<IntensityChange>,
)
    requires
        handshake.well_formed(),
    ensures
        ({
            let prepared = handshake.prepared(intensity);
            let after = handshake.after_prepare(intensity);
            if prepared.changes_nothing() {
                prepared.sequence == 0 && after.unanswered == handshake.unanswered
            } else {
                &&& 1 <= prepared.sequence <= 15
                &&& prepared.sequence == handshake.next_number
                &&& after.unanswered == Some(prepared)
                &&& after.next_number == next_in_cycle(prepared.sequence)
                &&& after.next_number != prepared.sequence
            }
        }),
{
}

/// An answer with another number than the unanswered change has leaves everything as it is, and
/// so does the number zero.
pub proof fn other_answers_are_ignored(handshake: Handshake, sequence: u8)
    requires
        sequence == 0 || handshake.unanswered is None || handshake.unanswered->0.sequence
            != sequence,
    ensures
        handshake.after_answer(sequence) == handshake,
{
}

/// A change takes the levels that the device settles at where the change takes them, however much
/// of what came before has been sent; only what runs past an end of the range and is then led
/// back from there is cut short.
pub proof fn prepare_settles_the_change(
    handshake: Handshake,
    intensity: Stereo<IntensityChange>,
    level: Stereo<int>,
)
    requires
        handshake.well_formed(),
        levels(level),
        !handshake.waiting.a.turned_back_by(handshake.delivered(level).a, intensity.a.delta()),
        !handshake.waiting.b.turned_back_by(handshake.delivered(level).b, intensity.b.delta()),
    ensures
        handshake.after_prepare(intensity).settled(level) == (Stereo {
            a: intensity.a.applied(handshake.settled(level).a),
            b: intensity.b.applied(handshake.settled(level).b),
        }),
{
    let between = handshake.delivered(level);
    merging_keeps_the_effect(handshake.waiting.a, intensity.a, between.a);
    merging_keeps_the_effect(handshake.waiting.b, intensity.b, between.b);
    command_has_the_effect(handshake.waiting.a.merged(intensity.a), between.a);
    command_has_the_effect(handshake.waiting.b.merged(intensity.b), between.b);
}

/// An answer does not change where the device settles: the answered change has reached it, and
/// what waits still waits.
pub proof fn answer_keeps_the_outcome(
    handshake: Handshake,
    sequence: u8,
    level: Stereo<int>,
)
    requires
        handshake.is_answered_by(sequence),
    ensures
        handshake.after_answer(sequence).settled(handshake.delivered(level)) == handshake.settled(
            level,
        ),
        handshake.after_answer(sequence).unanswered is None,
        handshake.after_answer(sequence).waiting == handshake.waiting,
{
}

/// A rollback of the unanswered change does not change where the device settles: the change waits
/// again, before what came meanwhile; only where it runs past an end of the range and what came
/// meanwhile leads back from there it is cut short.
pub proof fn rollback_keeps_the_outcome(
    handshake: Handshake,
    sent: PreparedIntensity,
    level: Stereo<int>,
)
    requires
        handshake.well_formed(),
        handshake.unanswered == Some(sent),
        levels(level),
        !PendingIntensityChange::Empty.merged(sent.intensity.a).turned_back_by(
            level.a,
            handshake.waiting.a.delta(),
        ),
        !PendingIntensityChange::Empty.merged(sent.intensity.b).turned_back_by(
            level.b,
            handshake.waiting.b.delta(),
        ),
    ensures
        handshake.after_rollback(sent).settled(level) == handshake.settled(level),
        handshake.after_rollback(sent).unanswered is None,
{
    let empty = PendingIntensityChange::Empty;
    merging_keeps_the_effect(empty, sent.intensity.a, level.a);
    merging_keeps_the_effect(empty, sent.intensity.b, level.b);
    composing_keeps_the_effect(empty.merged(sent.intensity.a), handshake.waiting.a, level.a);
    composing_keeps_the_effect(empty.merged(sent.intensity.b), handshake.waiting.b, level.b);
}

/// A change that was rolled back at once is sent again, under a new number, by the next frame that
/// asks for no further change.
pub proof fn rolled_back_change_is_sent_again(
    handshake: Handshake,
    intensity: Stereo<IntensityChange>,
)
    requires
        handshake.well_formed(),
        !handshake.prepared(intensity).changes_nothing(),
    ensures
        ({
            let sent = handshake.prepared(intensity);
            let again = handshake.after_prepare(intensity).after_rollback(sent);
            again.prepared(PreparedIntensity::idle().intensity) == (PreparedIntensity {
                sequence: next_in_cycle(sent.sequence),
                intensity: sent.intensity,
            })
        }),
{
}

/// Changes that came while another one was unanswered go out together, as soon as that one is
/// answered.
pub proof fn waiting_changes_go_out_after_the_answer(
    handshake: Handshake,
    intensity: Stereo<IntensityChange>,
    sent: PreparedIntensity,
)
    requires
        handshake.well_formed(),
        handshake.unanswered == Some(sent),
    ensures
        ({
            let waiting = handshake.after_prepare(intensity);
            let answered = waiting.after_answer(sent.sequence);
            let next = answered.prepared(PreparedIntensity::idle().intensity);
            &&& next.intensity == (Stereo {
                a: waiting.waiting.a.as_change(),
                b: waiting.waiting.b.as_change(),
            })
            &&& !next.changes_nothing() ==> next.sequence == next_in_cycle(sent.sequence)
        }),
{
}

} // verus!
