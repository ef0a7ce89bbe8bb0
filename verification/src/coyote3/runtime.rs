//! What the channels play.

use crate::coyote3::channels::{Channel, Question, RuntimeCore};
use crate::coyote3::intensity::IntensityChange;
use crate::coyote3::pulse::{self, EncodedPulse, EncodedPulses, Pulse};
use crate::coyote3::state::State;
use crate::stereo::Stereo;
use vstd::prelude::*;

verus! {

/// The current channel values passed to a [`Shape`].
#[derive(Clone, Copy, Debug, PartialEq, Eq, Structural)]
pub struct ShapeContext {
    /// Which 25 ms chunk inside the current 100 ms frame this is.
    ///
    /// Valid values are `0`, `1`, `2`, and `3`.
    pub chunk_index: u8,
    /// The previous pulse frequency for this channel.
    pub frequency: u8,
    /// The current absolute device intensity for this channel.
    pub channel_intensity: u8,
    /// The previous pulse intensity for this channel.
    pub pulse_intensity: u8,
}

impl Default for ShapeContext {
    fn default() -> (context: Self)
        ensures
            context == (ShapeContext {
                chunk_index: 0,
                frequency: 0,
                channel_intensity: 0,
                pulse_intensity: 0,
            }),
    {
        ShapeContext { chunk_index: 0, frequency: 0, channel_intensity: 0, pulse_intensity: 0 }
    }
}

/// The current channel values passed to an [`EncodedShape`].
#[derive(Clone, Copy, Debug, PartialEq, Eq, Structural)]
pub struct EncodedShapeContext {
    /// Which 25 ms chunk inside the current 100 ms frame this is.
    pub chunk_index: u8,
    /// The previous compressed V3 frequency value for this channel.
    pub frequency: u8,
    /// The current absolute device intensity for this channel.
    pub channel_intensity: u8,
    /// The previous pulse intensity for this channel.
    pub pulse_intensity: u8,
}

impl Default for EncodedShapeContext {
    fn default() -> (context: Self)
        ensures
            context == (EncodedShapeContext {
                chunk_index: 0,
                frequency: 0,
                channel_intensity: 0,
                pulse_intensity: 0,
            }),
    {
        EncodedShapeContext {
            chunk_index: 0,
            frequency: 0,
            channel_intensity: 0,
            pulse_intensity: 0,
        }
    }
}

/// The current channel values passed to an [`IntensityShape`].
#[derive(Clone, Copy, Debug, PartialEq, Eq, Structural)]
pub struct IntensityContext {
    /// The current absolute device intensity for this channel.
    pub channel_intensity: u8,
}

impl Default for IntensityContext {
    fn default() -> (context: Self)
        ensures
            context == (IntensityContext { channel_intensity: 0 }),
    {
        IntensityContext { channel_intensity: 0 }
    }
}

/// Generates the next 25 ms pulse for one channel.
pub trait Shape: Send + 'static {
    /// Whether the shape can be asked for a pulse; a shape that does not say always can.
    open spec fn ready(&self) -> bool {
        true
    }

    /// Whether the shape, asked with the contexts `asked` in turn, may give the pulses `given`. A
    /// shape that does not say may give any.
    open spec fn answers(&self, asked: Seq<ShapeContext>, given: Seq<Pulse>) -> bool {
        true
    }

    /// Return the next 25 ms pulse for the supplied current channel values.
    fn next_pulse(&mut self, context: ShapeContext) -> (pulse: Pulse)
        requires
            old(self).ready(),
        ensures
            final(self).ready(),
            final(self).answers(seq![], seq![]),
            forall|asked: Seq<ShapeContext>, given: Seq<Pulse>| #[trigger]
                final(self).answers(asked, given) ==> old(self).answers(
                    seq![context] + asked,
                    seq![pulse] + given,
                ),
    ;
}

impl<F> Shape for F where F: FnMut(ShapeContext) -> Pulse + Send + 'static {
    open spec fn ready(&self) -> bool {
        forall|context: ShapeContext| #[trigger] call_requires(*self, (context,))
    }

    open spec fn answers(&self, asked: Seq<ShapeContext>, given: Seq<Pulse>) -> bool {
        &&& asked.len() == given.len()
        &&& forall|i: int|
            0 <= i < asked.len() ==> call_ensures(*self, (#[trigger] asked[i],), given[i])
    }

    fn next_pulse(&mut self, context: ShapeContext) -> (pulse: Pulse) {
        self(context)
    }
}

/// Generates a protocol-native 25 ms pulse for one channel.
pub trait EncodedShape: Send + 'static {
    /// Whether the shape can be asked for a pulse; a shape that does not say always can.
    open spec fn ready(&self) -> bool {
        true
    }

    /// Whether the shape, asked with the contexts `asked` in turn, may give the pulses `given`. A
    /// shape that does not say may give any.
    open spec fn answers(
        &self,
        asked: Seq<EncodedShapeContext>,
        given: Seq<EncodedPulse>,
    ) -> bool {
        true
    }

    /// Return the next compressed V3 pulse for the supplied channel values.
    fn next_pulse(&mut self, context: EncodedShapeContext) -> (pulse: EncodedPulse)
        requires
            old(self).ready(),
        ensures
            final(self).ready(),
            final(self).answers(seq![], seq![]),
            forall|asked: Seq<EncodedShapeContext>, given: Seq<EncodedPulse>| #[trigger]
                final(self).answers(asked, given) ==> old(self).answers(
                    seq![context] + asked,
                    seq![pulse] + given,
                ),
    ;
}

impl<F> EncodedShape for F where F: FnMut(EncodedShapeContext) -> EncodedPulse + Send + 'static {
    open spec fn ready(&self) -> bool {
        forall|context: EncodedShapeContext| #[trigger] call_requires(*self, (context,))
    }

    open spec fn answers(
        &self,
        asked: Seq<EncodedShapeContext>,
        given: Seq<EncodedPulse>,
    ) -> bool {
        &&& asked.len() == given.len()
        &&& forall|i: int|
            0 <= i < asked.len() ==> call_ensures(*self, (#[trigger] asked[i],), given[i])
    }

    fn next_pulse(&mut self, context: EncodedShapeContext) -> (pulse: EncodedPulse) {
        self(context)
    }
}

/// Generates the next 100 ms intensity change for one channel.
///
/// This is called once per frame, before the four pulse chunks are rendered.
pub trait IntensityShape: Send + 'static {
    /// Whether the shape can be asked for an intensity change; a shape that does not say always
    /// can.
    open spec fn ready(&self) -> bool {
        true
    }

    /// Whether the shape, asked with the contexts `asked` in turn, may give the changes `given`. A
    /// shape that does not say may give any.
    open spec fn answers(&self, asked: Seq<IntensityContext>, given: Seq<IntensityChange>) -> bool {
        true
    }

    /// Return the next intensity change for this 100 ms frame.
    fn next_intensity(&mut self, context: IntensityContext) -> (change: IntensityChange)
        requires
            old(self).ready(),
        ensures
            final(self).ready(),
            final(self).answers(seq![], seq![]),
            forall|asked: Seq<IntensityContext>, given: Seq<IntensityChange>| #[trigger]
                final(self).answers(asked, given) ==> old(self).answers(
                    seq![context] + asked,
                    seq![change] + given,
                ),
    ;
}

impl<F> IntensityShape for F where F: FnMut(IntensityContext) -> IntensityChange + Send + 'static {
    open spec fn ready(&self) -> bool {
        forall|context: IntensityContext| #[trigger] call_requires(*self, (context,))
    }

    open spec fn answers(&self, asked: Seq<IntensityContext>, given: Seq<IntensityChange>) -> bool {
        &&& asked.len() == given.len()
        &&& forall|i: int|
            0 <= i < asked.len() ==> call_ensures(*self, (#[trigger] asked[i],), given[i])
    }

    fn next_intensity(&mut self, context: IntensityContext) -> (change: IntensityChange) {
        self(context)
    }
}

/// The pulse that disables a channel.
pub open spec fn no_pulse() -> Pulse {
    Pulse { frequency: 0, intensity: 0 }
}

/// The pulse that disables a channel, in the form of the protocol.
pub open spec fn no_encoded_pulse() -> EncodedPulse {
    EncodedPulse { frequency: 0, intensity: 0 }
}

/// Disables the pulse.
pub struct ZeroShape;

impl Shape for ZeroShape {
    open spec fn ready(&self) -> bool {
        true
    }

    open spec fn answers(&self, asked: Seq<ShapeContext>, given: Seq<Pulse>) -> bool {
        &&& asked.len() == given.len()
        &&& forall|i: int| 0 <= i < given.len() ==> #[trigger] given[i] == no_pulse()
    }

    fn next_pulse(&mut self, _context: ShapeContext) -> (pulse: Pulse)
        ensures
            pulse == no_pulse(),
    {
        Pulse { frequency: 0, intensity: 0 }
    }
}

/// Leaves the device-level channel intensity unchanged on every frame.
pub struct DoNotChangeIntensityShape;

impl IntensityShape for DoNotChangeIntensityShape {
    open spec fn ready(&self) -> bool {
        true
    }

    open spec fn answers(&self, asked: Seq<IntensityContext>, given: Seq<IntensityChange>) -> bool {
        &&& asked.len() == given.len()
        &&& forall|i: int|
            0 <= i < given.len() ==> #[trigger] given[i] == IntensityChange::DoNotChange
    }

    fn next_intensity(&mut self, _context: IntensityContext) -> (change: IntensityChange)
        ensures
            change == IntensityChange::DoNotChange,
    {
        IntensityChange::DoNotChange
    }
}

/// What makes the waveform of a channel, and the pulse that it made last.
pub enum ChannelShape {
    /// A shape with frequencies in hertz.
    Hertz {
        /// The shape.
        shape: Box<dyn Shape>,
        /// The pulse that it made last.
        current: Pulse,
    },
    /// A shape with frequencies of the protocol.
    Encoded {
        /// The shape.
        shape: Box<dyn EncodedShape>,
        /// The pulse that it made last.
        current: EncodedPulse,
    },
}

/// The context of a pulse that follows `previous`.
pub open spec fn context_after(
    previous: Pulse,
    chunk_index: u8,
    channel_intensity: u8,
) -> ShapeContext {
    ShapeContext {
        chunk_index,
        frequency: previous.frequency,
        channel_intensity,
        pulse_intensity: previous.intensity,
    }
}

/// The context of an encoded pulse that follows `previous`.
pub open spec fn encoded_context_after(
    previous: EncodedPulse,
    chunk_index: u8,
    channel_intensity: u8,
) -> EncodedShapeContext {
    EncodedShapeContext {
        chunk_index,
        frequency: previous.frequency,
        channel_intensity,
        pulse_intensity: previous.intensity,
    }
}

impl ChannelShape {
    /// Whether the shape can be asked for a pulse.
    pub open spec fn ready(self) -> bool {
        match self {
            ChannelShape::Hertz { shape, current: _ } => shape.ready(),
            ChannelShape::Encoded { shape, current: _ } => shape.ready(),
        }
    }

    /// The pulse that was made last, as it is sent.
    pub open spec fn sent(self) -> EncodedPulse {
        match self {
            ChannelShape::Hertz { shape: _, current } => current.encoded(),
            ChannelShape::Encoded { shape: _, current } => current.in_range(),
        }
    }

    /// Whether `shape` is what makes the waveform, and has not made a pulse yet.
    pub open spec fn starts<S: Shape>(self, shape: S) -> bool {
        &&& self matches ChannelShape::Hertz { shape: own, current }
        &&& current == no_pulse()
        &&& own.ready() == shape.ready()
        &&& forall|asked: Seq<ShapeContext>, given: Seq<Pulse>| #[trigger]
            own.answers(asked, given) == shape.answers(asked, given)
    }

    /// Whether `shape` is what makes the waveform, and has not made a pulse yet.
    pub open spec fn starts_encoded<S: EncodedShape>(self, shape: S) -> bool {
        &&& self matches ChannelShape::Encoded { shape: own, current }
        &&& current == no_encoded_pulse()
        &&& own.ready() == shape.ready()
        &&& forall|asked: Seq<EncodedShapeContext>, given: Seq<EncodedPulse>| #[trigger]
            own.answers(asked, given) == shape.answers(asked, given)
    }

    /// Whether this shape may become `after` by making the pulse of a chunk: it was asked with the
    /// chunk, the channel intensity and the pulse before, and what it answered is the last pulse
    /// of `after`.
    pub open spec fn makes(self, chunk_index: u8, channel_intensity: u8, after: Self) -> bool {
        match (self, after) {
            (
                ChannelShape::Hertz { shape, current },
                ChannelShape::Hertz { shape: shape_after, current: made },
            ) => {
                &&& shape_after.answers(seq![], seq![])
                &&& forall|asked: Seq<ShapeContext>, given: Seq<Pulse>| #[trigger]
                    shape_after.answers(asked, given) ==> shape.answers(
                        seq![context_after(current, chunk_index, channel_intensity)] + asked,
                        seq![made] + given,
                    )
            },
            (
                ChannelShape::Encoded { shape, current },
                ChannelShape::Encoded { shape: shape_after, current: made },
            ) => {
                &&& shape_after.answers(seq![], seq![])
                &&& forall|asked: Seq<EncodedShapeContext>, given: Seq<EncodedPulse>| #[trigger]
                    shape_after.answers(asked, given) ==> shape.answers(
                        seq![encoded_context_after(current, chunk_index, channel_intensity)]
                            + asked,
                        seq![made] + given,
                    )
            },
            _ => false,
        }
    }
}

impl ChannelShape {
    /// Whether this shape may become `after` by making the pulses of the four chunks of a frame, of
    /// which `sent` is sent.
    pub open spec fn plays(
        self,
        channel_intensity: u8,
        sent: Seq<EncodedPulse>,
        after: Self,
    ) -> bool {
        exists|first: Self, second: Self, third: Self|
            {
                &&& #[trigger] self.makes(0, channel_intensity, first)
                &&& #[trigger] first.makes(1, channel_intensity, second)
                &&& #[trigger] second.makes(2, channel_intensity, third)
                &&& third.makes(3, channel_intensity, after)
                &&& sent == seq![first.sent(), second.sent(), third.sent(), after.sent()]
            }
    }
}

/// What a channel plays.
pub struct ChannelRuntime {
    /// What makes the waveform.
    pub shape: ChannelShape,
    /// What makes the intensity changes.
    pub intensity_shape: Box<dyn IntensityShape>,
}

impl ChannelRuntime {
    /// Whether both shapes can be asked.
    pub open spec fn well_formed(self) -> bool {
        self.shape.ready() && self.intensity_shape.ready()
    }

    /// Whether the intensity shape may become that of `after` by making `change`: it was asked with
    /// the channel intensity, and `change` is what it answered.
    pub open spec fn changes(
        self,
        channel_intensity: u8,
        change: IntensityChange,
        after: Self,
    ) -> bool {
        &&& after.intensity_shape.answers(seq![], seq![])
        &&& forall|asked: Seq<IntensityContext>, given: Seq<IntensityChange>| #[trigger]
            after.intensity_shape.answers(asked, given) ==> self.intensity_shape.answers(
                seq![IntensityContext { channel_intensity }] + asked,
                seq![change] + given,
            )
    }

    /// Whether this channel may become `after` by making `change` and the pulses of a frame, of
    /// which `sent` is sent.
    pub open spec fn renders(
        self,
        channel_intensity: u8,
        change: IntensityChange,
        sent: Seq<EncodedPulse>,
        after: Self,
    ) -> bool {
        &&& self.changes(channel_intensity, change, after)
        &&& self.shape.plays(channel_intensity, sent, after.shape)
    }

    /// Whether `shape` is what makes the intensity changes.
    pub open spec fn follows<S: IntensityShape>(self, shape: S) -> bool {
        &&& self.intensity_shape.ready() == shape.ready()
        &&& forall|asked: Seq<IntensityContext>, given: Seq<IntensityChange>| #[trigger]
            self.intensity_shape.answers(asked, given) == shape.answers(asked, given)
    }

    /// Create a channel that plays `shape` and `intensity_shape`.
    pub fn new<S: Shape, I: IntensityShape>(shape: S, intensity_shape: I) -> (channel: Self)
        requires
            shape.ready(),
            intensity_shape.ready(),
        ensures
            channel.well_formed(),
            channel.shape.starts(shape),
            channel.follows(intensity_shape),
    {
        ChannelRuntime {
            shape: ChannelShape::Hertz {
                shape: Box::new(shape),
                current: Pulse { frequency: 0, intensity: 0 },
            },
            intensity_shape: Box::new(intensity_shape),
        }
    }

    /// Replace what makes the waveform by a shape with frequencies in hertz.
    pub fn set_shape<S: Shape>(&mut self, shape: S)
        requires
            old(self).well_formed(),
            shape.ready(),
        ensures
            final(self).well_formed(),
            final(self).shape.starts(shape),
            final(self).intensity_shape == old(self).intensity_shape,
    {
        self.shape = ChannelShape::Hertz {
            shape: Box::new(shape),
            current: Pulse { frequency: 0, intensity: 0 },
        };
    }

    /// Replace what makes the waveform by a shape with frequencies of the protocol.
    pub fn set_encoded_shape<S: EncodedShape>(&mut self, shape: S)
        requires
            old(self).well_formed(),
            shape.ready(),
        ensures
            final(self).well_formed(),
            final(self).shape.starts_encoded(shape),
            final(self).intensity_shape == old(self).intensity_shape,
    {
        self.shape = ChannelShape::Encoded {
            shape: Box::new(shape),
            current: EncodedPulse { frequency: 0, intensity: 0 },
        };
    }

    /// Replace what makes the intensity changes.
    pub fn set_intensity_shape<S: IntensityShape>(&mut self, shape: S)
        requires
            old(self).well_formed(),
            shape.ready(),
        ensures
            final(self).well_formed(),
            final(self).follows(shape),
            final(self).shape == old(self).shape,
    {
        self.intensity_shape = Box::new(shape);
    }

    /// Return the next intensity change.
    pub fn next_intensity(&mut self, channel_intensity: u8) -> (change: IntensityChange)
        requires
            old(self).well_formed(),
        ensures
            final(self).well_formed(),
            final(self).shape == old(self).shape,
            old(self).changes(channel_intensity, change, *final(self)),
    {
        self.intensity_shape.next_intensity(IntensityContext { channel_intensity })
    }

    /// Return the next pulse in the form of the protocol.
    pub fn next_pulse(&mut self, chunk_index: u8, channel_intensity: u8) -> (pulse: EncodedPulse)
        requires
            old(self).well_formed(),
        ensures
            final(self).well_formed(),
            final(self).intensity_shape == old(self).intensity_shape,
            old(self).shape.makes(chunk_index, channel_intensity, final(self).shape),
            pulse == final(self).shape.sent(),
    {
        match &mut self.shape {
            ChannelShape::Hertz { shape, current } => {
                *current = shape.next_pulse(
                    ShapeContext {
                        chunk_index,
                        frequency: current.frequency,
                        channel_intensity,
                        pulse_intensity: current.intensity,
                    },
                );
                EncodedPulse {
                    frequency: current.encoded_frequency(),
                    intensity: current.clamped_intensity(),
                }
            },
            ChannelShape::Encoded { shape, current } => {
                *current = shape.next_pulse(
                    EncodedShapeContext {
                        chunk_index,
                        frequency: current.frequency,
                        channel_intensity,
                        pulse_intensity: current.intensity,
                    },
                );
                let (frequency, intensity) = current.normalized();
                EncodedPulse { frequency, intensity }
            },
        }
    }
}

/// The questions of a chunk: channel A first.
pub open spec fn chunk_questions(
    chunk_index: u8,
    channel_intensity: Stereo<u8>,
) -> Seq<Question> {
    seq![
        Question::Pulse {
            channel: Channel::A,
            chunk_index,
            channel_intensity: channel_intensity.a,
        },
        Question::Pulse {
            channel: Channel::B,
            chunk_index,
            channel_intensity: channel_intensity.b,
        },
    ]
}

/// The questions of a frame: both intensity shapes first, then the pulse shapes, chunk by chunk.
pub open spec fn frame_questions(channel_intensity: Stereo<u8>) -> Seq<Question> {
    seq![
        Question::Intensity { channel: Channel::A, channel_intensity: channel_intensity.a },
        Question::Intensity { channel: Channel::B, channel_intensity: channel_intensity.b },
    ] + chunk_questions(0, channel_intensity) + chunk_questions(1, channel_intensity)
        + chunk_questions(2, channel_intensity) + chunk_questions(3, channel_intensity)
}

impl RuntimeCore {
    /// Make the next frame.
    ///
    /// The intensity changes come first, then the four chunks in turn, channel A before channel B.
    pub fn render_frame(&mut self, channel_intensity: Stereo<u8>) -> (frame: EncodedPulses)
        requires
            old(self).well_formed(),
        ensures
            final(self).well_formed(),
            old(self).a().renders(
                channel_intensity.a,
                frame.intensity.a,
                frame.pulses@.map_values(|pulse: Stereo<EncodedPulse>| pulse.a),
                final(self).a(),
            ),
            old(self).b().renders(
                channel_intensity.b,
                frame.intensity.b,
                frame.pulses@.map_values(|pulse: Stereo<EncodedPulse>| pulse.b),
                final(self).b(),
            ),
            final(self).asked() == old(self).asked() + frame_questions(channel_intensity),
            EncodedPulses::in_range(frame.pulses@) == frame.pulses@,
    {
        let intensity = Stereo {
            a: self.ask_intensity(Channel::A, channel_intensity.a),
            b: self.ask_intensity(Channel::B, channel_intensity.b),
        };
        let first = self.render_chunk(0, channel_intensity);
        let ghost after_first = *self;
        let second = self.render_chunk(1, channel_intensity);
        let ghost after_second = *self;
        let third = self.render_chunk(2, channel_intensity);
        let ghost after_third = *self;
        let fourth = self.render_chunk(3, channel_intensity);
        let pulses = [first, second, third, fourth];
        proof {
            assert(pulses@.map_values(|pulse: Stereo<EncodedPulse>| pulse.a)
                =~= seq![first.a, second.a, third.a, fourth.a]);
            assert(pulses@.map_values(|pulse: Stereo<EncodedPulse>| pulse.b)
                =~= seq![first.b, second.b, third.b, fourth.b]);
            assert(old(self).a().shape.makes(0, channel_intensity.a, after_first.a().shape));
            assert(after_first.a().shape.makes(1, channel_intensity.a, after_second.a().shape));
            assert(after_second.a().shape.makes(2, channel_intensity.a, after_third.a().shape));
            assert(old(self).b().shape.makes(0, channel_intensity.b, after_first.b().shape));
            assert(after_first.b().shape.makes(1, channel_intensity.b, after_second.b().shape));
            assert(after_second.b().shape.makes(2, channel_intensity.b, after_third.b().shape));
            assert(EncodedPulses::in_range(pulses@) =~= pulses@);
            assert(self.asked() =~= old(self).asked() + frame_questions(channel_intensity));
        }
        EncodedPulses { intensity, pulses }
    }

    /// Make the frame for a device in this state.
    pub fn frame_for(&mut self, state: State) -> (frame: EncodedPulses)
        requires
            old(self).well_formed(),
        ensures
            final(self).well_formed(),
            old(self).a().renders(
                state.intensity.a,
                frame.intensity.a,
                frame.pulses@.map_values(|pulse: Stereo<EncodedPulse>| pulse.a),
                final(self).a(),
            ),
            old(self).b().renders(
                state.intensity.b,
                frame.intensity.b,
                frame.pulses@.map_values(|pulse: Stereo<EncodedPulse>| pulse.b),
                final(self).b(),
            ),
            final(self).asked() == old(self).asked() + frame_questions(state.intensity),
            EncodedPulses::in_range(frame.pulses@) == frame.pulses@,
    {
        self.render_frame(state.intensity)
    }

    /// Make the pulses of a chunk.
    fn render_chunk(&mut self, chunk_index: u8, channel_intensity: Stereo<u8>) -> (pulse: Stereo<
        EncodedPulse,
    >)
        requires
            old(self).well_formed(),
        ensures
            final(self).well_formed(),
            final(self).a().intensity_shape == old(self).a().intensity_shape,
            final(self).b().intensity_shape == old(self).b().intensity_shape,
            old(self).a().shape.makes(chunk_index, channel_intensity.a, final(self).a().shape),
            old(self).b().shape.makes(chunk_index, channel_intensity.b, final(self).b().shape),
            pulse == (Stereo { a: final(self).a().shape.sent(), b: final(self).b().shape.sent() }),
            final(self).asked() =~= old(self).asked() + chunk_questions(
                chunk_index,
                channel_intensity,
            ),
            pulse.a.in_range() == pulse.a,
            pulse.b.in_range() == pulse.b,
    {
        let pulse = Stereo {
            a: self.ask_pulse(Channel::A, chunk_index, channel_intensity.a),
            b: self.ask_pulse(Channel::B, chunk_index, channel_intensity.b),
        };
        proof {
            sent_is_in_range(self.a().shape);
            sent_is_in_range(self.b().shape);
        }
        pulse
    }
}

impl EncodedPulses {
    /// The frame that changes no intensity and disables both channels.
    pub fn silent() -> (frame: Self)
        ensures
            frame.intensity == (Stereo {
                a: IntensityChange::DoNotChange,
                b: IntensityChange::DoNotChange,
            }),
            forall|i: int|
                0 <= i < 4 ==> #[trigger] frame.pulses@[i] == (Stereo {
                    a: no_encoded_pulse(),
                    b: no_encoded_pulse(),
                }),
    {
        let nothing = Stereo::symmetric(EncodedPulse { frequency: 0, intensity: 0 });
        EncodedPulses {
            intensity: Stereo::symmetric(IntensityChange::DoNotChange),
            pulses: [nothing, nothing, nothing, nothing],
        }
    }
}

// Laws.

/// What is sent lies in the ranges of the protocol.
pub proof fn sent_is_in_range(shape: ChannelShape)
    ensures
        shape.sent().in_range() == shape.sent(),
{
    match shape {
        ChannelShape::Hertz { shape: _, current } => {
            pulse::ranges_are_final(current, no_encoded_pulse());
        },
        ChannelShape::Encoded { shape: _, current } => {
            pulse::ranges_are_final(no_pulse(), current);
        },
    }
}

/// Of the questions of a frame, those to the intensity shapes come first, one per channel; then
/// each pulse shape is asked four times, with the chunks in order. Every shape is told the intensity
/// of its own channel.
pub proof fn intensity_shapes_are_asked_first(channel_intensity: Stereo<u8>)
    ensures
        ({
            let questions = frame_questions(channel_intensity);
            &&& questions.len() == 10
            &&& forall|i: int| 0 <= i < 10 ==> (#[trigger] questions[i] is Intensity <==> i < 2)
            &&& questions[0] == (Question::Intensity {
                channel: Channel::A,
                channel_intensity: channel_intensity.a,
            })
            &&& questions[1] == (Question::Intensity {
                channel: Channel::B,
                channel_intensity: channel_intensity.b,
            })
            &&& forall|chunk: int|
                0 <= chunk < 4 ==> #[trigger] questions[2 + 2 * chunk] == (Question::Pulse {
                    channel: Channel::A,
                    chunk_index: chunk as u8,
                    channel_intensity: channel_intensity.a,
                })
            &&& forall|chunk: int|
                0 <= chunk < 4 ==> #[trigger] questions[3 + 2 * chunk] == (Question::Pulse {
                    channel: Channel::B,
                    chunk_index: chunk as u8,
                    channel_intensity: channel_intensity.b,
                })
        }),
{
    let questions = frame_questions(channel_intensity);
    assert forall|chunk: int| 0 <= chunk < 4 implies #[trigger] questions[2 + 2 * chunk] == (
    Question::Pulse {
        channel: Channel::A,
        chunk_index: chunk as u8,
        channel_intensity: channel_intensity.a,
    }) by {
        assert(chunk == 0 || chunk == 1 || chunk == 2 || chunk == 3);
    }
    assert forall|chunk: int| 0 <= chunk < 4 implies #[trigger] questions[3 + 2 * chunk] == (
    Question::Pulse {
        channel: Channel::B,
        chunk_index: chunk as u8,
        channel_intensity: channel_intensity.b,
    }) by {
        assert(chunk == 0 || chunk == 1 || chunk == 2 || chunk == 3);
    }
}

/// The contexts of the four chunks of a frame, where `current` is the pulse before them and `given`
/// are their pulses.
pub open spec fn frame_contexts(
    current: Pulse,
    given: Seq<Pulse>,
    channel_intensity: u8,
) -> Seq<ShapeContext> {
    seq![
        context_after(current, 0, channel_intensity),
        context_after(given[0], 1, channel_intensity),
        context_after(given[1], 2, channel_intensity),
        context_after(given[2], 3, channel_intensity),
    ]
}

/// The contexts of the four chunks of a frame, where `current` is the encoded pulse before them and
/// `given` are their encoded pulses.
pub open spec fn encoded_frame_contexts(
    current: EncodedPulse,
    given: Seq<EncodedPulse>,
    channel_intensity: u8,
) -> Seq<EncodedShapeContext> {
    seq![
        encoded_context_after(current, 0, channel_intensity),
        encoded_context_after(given[0], 1, channel_intensity),
        encoded_context_after(given[1], 2, channel_intensity),
        encoded_context_after(given[2], 3, channel_intensity),
    ]
}

/// Whether `given` are four pulses that `shape` may answer the contexts of a frame with, and `sent`
/// is what is sent for them.
pub open spec fn is_frame_of(
    shape: Box<dyn Shape>,
    current: Pulse,
    channel_intensity: u8,
    given: Seq<Pulse>,
    sent: Seq<EncodedPulse>,
) -> bool {
    &&& given.len() == 4
    &&& shape.answers(frame_contexts(current, given, channel_intensity), given)
    &&& sent == given.map_values(|pulse: Pulse| pulse.encoded())
}

/// Whether `given` are four encoded pulses that `shape` may answer the contexts of a frame with, and
/// `sent` is what is sent for them.
pub open spec fn is_encoded_frame_of(
    shape: Box<dyn EncodedShape>,
    current: EncodedPulse,
    channel_intensity: u8,
    given: Seq<EncodedPulse>,
    sent: Seq<EncodedPulse>,
) -> bool {
    &&& given.len() == 4
    &&& shape.answers(encoded_frame_contexts(current, given, channel_intensity), given)
    &&& sent == given.map_values(|pulse: EncodedPulse| pulse.in_range())
}

/// What a frame sends for a channel is what its shape answers when it is asked four times in turn,
/// with the chunks `0` to `3`, the channel intensity and the pulse that it made before; nothing is
/// left out, and nothing else is sent. Its intensity shape is asked once, with the channel
/// intensity.
pub proof fn frame_is_what_the_shapes_answer(
    before: ChannelRuntime,
    channel_intensity: u8,
    change: IntensityChange,
    sent: Seq<EncodedPulse>,
    after: ChannelRuntime,
)
    requires
        before.renders(channel_intensity, change, sent, after),
    ensures
        before.intensity_shape.answers(
            seq![IntensityContext { channel_intensity }],
            seq![change],
        ),
        match before.shape {
            ChannelShape::Hertz { shape, current } => exists|given: Seq<Pulse>| #[trigger]
                is_frame_of(shape, current, channel_intensity, given, sent),
            ChannelShape::Encoded { shape, current } => exists|given: Seq<EncodedPulse>| #[trigger]
                is_encoded_frame_of(shape, current, channel_intensity, given, sent),
        },
{
    let none_asked: Seq<IntensityContext> = seq![];
    let none_given: Seq<IntensityChange> = seq![];
    assert(after.intensity_shape.answers(none_asked, none_given));
    assert(seq![IntensityContext { channel_intensity }] + none_asked
        =~= seq![IntensityContext { channel_intensity }]);
    assert(seq![change] + none_given =~= seq![change]);
    let (first, second, third) = choose|
        first: ChannelShape,
        second: ChannelShape,
        third: ChannelShape,
    |
        {
            &&& #[trigger] before.shape.makes(0, channel_intensity, first)
            &&& #[trigger] first.makes(1, channel_intensity, second)
            &&& #[trigger] second.makes(2, channel_intensity, third)
            &&& third.makes(3, channel_intensity, after.shape)
            &&& sent == seq![first.sent(), second.sent(), third.sent(), after.shape.sent()]
        };
    match (before.shape, first, second, third, after.shape) {
        (
            ChannelShape::Hertz { shape, current },
            ChannelShape::Hertz { shape: shape_1, current: given_1 },
            ChannelShape::Hertz { shape: shape_2, current: given_2 },
            ChannelShape::Hertz { shape: shape_3, current: given_3 },
            ChannelShape::Hertz { shape: shape_4, current: given_4 },
        ) => {
            let given = seq![given_1, given_2, given_3, given_4];
            let asked = frame_contexts(current, given, channel_intensity);
            assert(shape_4.answers(seq![], seq![]));
            assert(shape_3.answers(seq![asked[3]] + seq![], seq![given[3]] + seq![]));
            assert(shape_2.answers(
                seq![asked[2]] + (seq![asked[3]] + seq![]),
                seq![given[2]] + (seq![given[3]] + seq![]),
            ));
            assert(shape_1.answers(
                seq![asked[1]] + (seq![asked[2]] + (seq![asked[3]] + seq![])),
                seq![given[1]] + (seq![given[2]] + (seq![given[3]] + seq![])),
            ));
            assert(shape.answers(
                seq![asked[0]] + (seq![asked[1]] + (seq![asked[2]] + (seq![asked[3]] + seq![]))),
                seq![given[0]] + (seq![given[1]] + (seq![given[2]] + (seq![given[3]] + seq![]))),
            ));
            assert(seq![asked[0]] + (seq![asked[1]] + (seq![asked[2]] + (seq![asked[3]] + seq![])))
                =~= asked);
            assert(seq![given[0]] + (seq![given[1]] + (seq![given[2]] + (seq![given[3]] + seq![])))
                =~= given);
            assert(sent =~= given.map_values(|pulse: Pulse| pulse.encoded()));
            assert(is_frame_of(shape, current, channel_intensity, given, sent));
        },
        (
            ChannelShape::Encoded { shape, current },
            ChannelShape::Encoded { shape: shape_1, current: given_1 },
            ChannelShape::Encoded { shape: shape_2, current: given_2 },
            ChannelShape::Encoded { shape: shape_3, current: given_3 },
            ChannelShape::Encoded { shape: shape_4, current: given_4 },
        ) => {
            let given = seq![given_1, given_2, given_3, given_4];
            let asked = encoded_frame_contexts(current, given, channel_intensity);
            assert(shape_4.answers(seq![], seq![]));
            assert(shape_3.answers(seq![asked[3]] + seq![], seq![given[3]] + seq![]));
            assert(shape_2.answers(
                seq![asked[2]] + (seq![asked[3]] + seq![]),
                seq![given[2]] + (seq![given[3]] + seq![]),
            ));
            assert(shape_1.answers(
                seq![asked[1]] + (seq![asked[2]] + (seq![asked[3]] + seq![])),
                seq![given[1]] + (seq![given[2]] + (seq![given[3]] + seq![])),
            ));
            assert(shape.answers(
                seq![asked[0]] + (seq![asked[1]] + (seq![asked[2]] + (seq![asked[3]] + seq![]))),
                seq![given[0]] + (seq![given[1]] + (seq![given[2]] + (seq![given[3]] + seq![]))),
            ));
            assert(seq![asked[0]] + (seq![asked[1]] + (seq![asked[2]] + (seq![asked[3]] + seq![])))
                =~= asked);
            assert(seq![given[0]] + (seq![given[1]] + (seq![given[2]] + (seq![given[3]] + seq![])))
                =~= given);
            assert(sent =~= given.map_values(|pulse: EncodedPulse| pulse.in_range()));
            assert(is_encoded_frame_of(shape, current, channel_intensity, given, sent));
        },
        _ => {},
    }
}

impl ChannelShape {
    /// Whether this shape never gives anything but the pulse that disables the channel.
    pub open spec fn silent(self) -> bool {
        &&& self matches ChannelShape::Hertz { shape, current: _ }
        &&& forall|asked: Seq<ShapeContext>, given: Seq<Pulse>, i: int|
            #![trigger shape.answers(asked, given), given[i]]
            shape.answers(asked, given) && 0 <= i < given.len() ==> given[i] == no_pulse()
    }
}

impl ChannelRuntime {
    /// Whether this channel never sends a pulse and never changes the intensity.
    pub open spec fn silent(self) -> bool {
        &&& self.shape.silent()
        &&& forall|asked: Seq<IntensityContext>, given: Seq<IntensityChange>, i: int|
            #![trigger self.intensity_shape.answers(asked, given), given[i]]
            self.intensity_shape.answers(asked, given) && 0 <= i < given.len() ==> given[i]
                == IntensityChange::DoNotChange
    }
}

/// A silent shape makes only the pulse that disables the channel, and stays silent.
proof fn silence_lasts(
    before: ChannelShape,
    chunk_index: u8,
    channel_intensity: u8,
    after: ChannelShape,
)
    requires
        before.silent(),
        before.makes(chunk_index, channel_intensity, after),
    ensures
        after.silent(),
        after.sent() == no_encoded_pulse(),
{
    match (before, after) {
        (
            ChannelShape::Hertz { shape, current },
            ChannelShape::Hertz { shape: shape_after, current: made },
        ) => {
            let context = context_after(current, chunk_index, channel_intensity);
            assert(shape_after.answers(seq![], seq![]));
            assert(shape.answers(seq![context] + seq![], seq![made] + seq![]));
            assert((seq![made] + seq![])[0] == made);
            assert forall|asked: Seq<ShapeContext>, given: Seq<Pulse>, i: int|
                #![trigger shape_after.answers(asked, given), given[i]]
                shape_after.answers(asked, given) && 0 <= i < given.len() implies given[i]
                == no_pulse() by {
                assert(shape.answers(seq![context] + asked, seq![made] + given));
                assert((seq![made] + given)[i + 1] == given[i]);
            }
        },
        _ => {},
    }
}

/// A channel that no shape was set for is silent: no frame sends a pulse on it or changes its
/// intensity, however many frames are made.
pub proof fn new_channels_are_silent(channel: ChannelRuntime)
    requires
        channel.shape.starts(ZeroShape),
        channel.follows(DoNotChangeIntensityShape),
    ensures
        channel.silent(),
        forall|
            channel_intensity: u8,
            change: IntensityChange,
            sent: Seq<EncodedPulse>,
            after: ChannelRuntime,
        | #[trigger]
            channel.renders(channel_intensity, change, sent, after) ==> {
                &&& after.silent()
                &&& change == IntensityChange::DoNotChange
                &&& sent == Seq::new(4, |i: int| no_encoded_pulse())
            },
{
    assert forall|
        channel_intensity: u8,
        change: IntensityChange,
        sent: Seq<EncodedPulse>,
        after: ChannelRuntime,
    | #[trigger]
        channel.renders(channel_intensity, change, sent, after) implies {
        &&& after.silent()
        &&& change == IntensityChange::DoNotChange
        &&& sent == Seq::new(4, |i: int| no_encoded_pulse())
    } by {
        silent_channels_stay_silent(channel, channel_intensity, change, sent, after);
    }
}

/// A frame on a silent channel sends no pulse and changes no intensity, and the channel stays
/// silent.
pub proof fn silent_channels_stay_silent(
    before: ChannelRuntime,
    channel_intensity: u8,
    change: IntensityChange,
    sent: Seq<EncodedPulse>,
    after: ChannelRuntime,
)
    requires
        before.silent(),
        before.renders(channel_intensity, change, sent, after),
    ensures
        after.silent(),
        change == IntensityChange::DoNotChange,
        sent == Seq::new(4, |i: int| no_encoded_pulse()),
{
    let context = IntensityContext { channel_intensity };
    let asked_before = before.intensity_shape;
    assert(after.intensity_shape.answers(seq![], seq![]));
    assert(asked_before.answers(seq![context] + seq![], seq![change] + seq![]));
    assert((seq![change] + seq![])[0] == change);
    assert forall|asked: Seq<IntensityContext>, given: Seq<IntensityChange>, i: int|
        #![trigger after.intensity_shape.answers(asked, given), given[i]]
        after.intensity_shape.answers(asked, given) && 0 <= i < given.len() implies given[i]
        == IntensityChange::DoNotChange by {
        assert(asked_before.answers(seq![context] + asked, seq![change] + given));
        assert((seq![change] + given)[i + 1] == given[i]);
    }
    let (first, second, third) = choose|
        first: ChannelShape,
        second: ChannelShape,
        third: ChannelShape,
    |
        {
            &&& #[trigger] before.shape.makes(0, channel_intensity, first)
            &&& #[trigger] first.makes(1, channel_intensity, second)
            &&& #[trigger] second.makes(2, channel_intensity, third)
            &&& third.makes(3, channel_intensity, after.shape)
            &&& sent == seq![first.sent(), second.sent(), third.sent(), after.shape.sent()]
        };
    silence_lasts(before.shape, 0, channel_intensity, first);
    silence_lasts(first, 1, channel_intensity, second);
    silence_lasts(second, 2, channel_intensity, third);
    silence_lasts(third, 3, channel_intensity, after.shape);
    assert(sent =~= Seq::new(4, |i: int| no_encoded_pulse()));
}

} // verus!
