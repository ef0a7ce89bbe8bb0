//! The shapes of both channels, and what they have been asked.

use crate::coyote3::intensity::IntensityChange;
use crate::coyote3::pulse::EncodedPulse;
use crate::coyote3::runtime::{
    ChannelRuntime, DoNotChangeIntensityShape, EncodedShape, IntensityShape, Shape, ZeroShape,
};
use vstd::prelude::*;

verus! {

/// One of the two channels.
#[derive(Clone, Copy, Debug, PartialEq, Eq, Structural)]
pub enum Channel {
    /// Channel A.
    A,
    /// Channel B.
    B,
}

/// What a shape of a channel is asked for.
pub enum Question {
    /// The intensity shape is asked for the change of a frame.
    Intensity {
        /// The channel of the shape.
        channel: Channel,
        /// The intensity of the channel that it is told.
        channel_intensity: u8,
    },
    /// The pulse shape is asked for the pulse of a chunk.
    Pulse {
        /// The channel of the shape.
        channel: Channel,
        /// The chunk.
        chunk_index: u8,
        /// The intensity of the channel that it is told.
        channel_intensity: u8,
    },
}

/// What both channels play.
///
/// The shapes can only be asked through functions that also record the question.
pub struct RuntimeCore {
    a: ChannelRuntime,
    b: ChannelRuntime,
    asked: Ghost<Seq<Question>>,
}

impl Default for RuntimeCore {
    fn default() -> (core: Self)
        ensures
            core.well_formed(),
            core.a().shape.starts(ZeroShape),
            core.b().shape.starts(ZeroShape),
            core.a().follows(DoNotChangeIntensityShape),
            core.b().follows(DoNotChangeIntensityShape),
            core.asked() == Seq::<Question>::empty(),
    {
        RuntimeCore {
            a: ChannelRuntime::new(ZeroShape, DoNotChangeIntensityShape),
            b: ChannelRuntime::new(ZeroShape, DoNotChangeIntensityShape),
            asked: Ghost(Seq::empty()),
        }
    }
}

impl RuntimeCore {
    /// Channel A.
    pub closed spec fn a(self) -> ChannelRuntime {
        self.a
    }

    /// Channel B.
    pub closed spec fn b(self) -> ChannelRuntime {
        self.b
    }

    /// What the shapes have been asked for so far, in order.
    pub closed spec fn asked(self) -> Seq<Question> {
        self.asked@
    }

    /// Whether all shapes can be asked.
    pub open spec fn well_formed(self) -> bool {
        self.a().well_formed() && self.b().well_formed()
    }

    /// Replace the pulse shape used for channel A.
    pub fn set_shape_a<S: Shape>(&mut self, shape: S)
        requires
            old(self).well_formed(),
            shape.ready(),
        ensures
            final(self).well_formed(),
            final(self).a().shape.starts(shape),
            final(self).a().intensity_shape == old(self).a().intensity_shape,
            final(self).b() == old(self).b(),
            final(self).asked() == old(self).asked(),
    {
        self.a.set_shape(shape);
    }

    /// Replace the pulse shape used for channel B.
    pub fn set_shape_b<S: Shape>(&mut self, shape: S)
        requires
            old(self).well_formed(),
            shape.ready(),
        ensures
            final(self).well_formed(),
            final(self).b().shape.starts(shape),
            final(self).b().intensity_shape == old(self).b().intensity_shape,
            final(self).a() == old(self).a(),
            final(self).asked() == old(self).asked(),
    {
        self.b.set_shape(shape);
    }

    /// Replace the protocol-native pulse shape used for channel A.
    pub fn set_encoded_shape_a<S: EncodedShape>(&mut self, shape: S)
        requires
            old(self).well_formed(),
            shape.ready(),
        ensures
            final(self).well_formed(),
            final(self).a().shape.starts_encoded(shape),
            final(self).a().intensity_shape == old(self).a().intensity_shape,
            final(self).b() == old(self).b(),
            final(self).asked() == old(self).asked(),
    {
        self.a.set_encoded_shape(shape);
    }

    /// Replace the protocol-native pulse shape used for channel B.
    pub fn set_encoded_shape_b<S: EncodedShape>(&mut self, shape: S)
        requires
            old(self).well_formed(),
            shape.ready(),
        ensures
            final(self).well_formed(),
            final(self).b().shape.starts_encoded(shape),
            final(self).b().intensity_shape == old(self).b().intensity_shape,
            final(self).a() == old(self).a(),
            final(self).asked() == old(self).asked(),
    {
        self.b.set_encoded_shape(shape);
    }

    /// Replace the intensity shape used for channel A.
    pub fn set_intensity_shape_a<S: IntensityShape>(&mut self, shape: S)
        requires
            old(self).well_formed(),
            shape.ready(),
        ensures
            final(self).well_formed(),
            final(self).a().follows(shape),
            final(self).a().shape == old(self).a().shape,
            final(self).b() == old(self).b(),
            final(self).asked() == old(self).asked(),
    {
        self.a.set_intensity_shape(shape);
    }

    /// Replace the intensity shape used for channel B.
    pub fn set_intensity_shape_b<S: IntensityShape>(&mut self, shape: S)
        requires
            old(self).well_formed(),
            shape.ready(),
        ensures
            final(self).well_formed(),
            final(self).b().follows(shape),
            final(self).b().shape == old(self).b().shape,
            final(self).a() == old(self).a(),
            final(self).asked() == old(self).asked(),
    {
        self.b.set_intensity_shape(shape);
    }

    /// Ask the intensity shape of a channel for the change of a frame, and record the question.
    pub fn ask_intensity(&mut self, channel: Channel, channel_intensity: u8) -> (change:
        IntensityChange)
        requires
            old(self).well_formed(),
        ensures
            final(self).well_formed(),
            final(self).a().shape == old(self).a().shape,
            final(self).b().shape == old(self).b().shape,
            match channel {
                Channel::A => old(self).a().changes(channel_intensity, change, final(self).a())
                    && final(self).b() == old(self).b(),
                Channel::B => old(self).b().changes(channel_intensity, change, final(self).b())
                    && final(self).a() == old(self).a(),
            },
            final(self).asked() == old(self).asked().push(
                Question::Intensity { channel, channel_intensity },
            ),
    {
        proof {
            self.asked@ = self.asked@.push(Question::Intensity { channel, channel_intensity });
        }
        match channel {
            Channel::A => self.a.next_intensity(channel_intensity),
            Channel::B => self.b.next_intensity(channel_intensity),
        }
    }

    /// Ask the pulse shape of a channel for the pulse of a chunk, and record the question.
    pub fn ask_pulse(&mut self, channel: Channel, chunk_index: u8, channel_intensity: u8) -> (pulse:
        EncodedPulse)
        requires
            old(self).well_formed(),
        ensures
            final(self).well_formed(),
            final(self).a().intensity_shape == old(self).a().intensity_shape,
            final(self).b().intensity_shape == old(self).b().intensity_shape,
            match channel {
                Channel::A => {
                    &&& old(self).a().shape.makes(chunk_index, channel_intensity, final(self).a().shape)
                    &&& pulse == final(self).a().shape.sent()
                    &&& final(self).b() == old(self).b()
                },
                Channel::B => {
                    &&& old(self).b().shape.makes(chunk_index, channel_intensity, final(self).b().shape)
                    &&& pulse == final(self).b().shape.sent()
                    &&& final(self).a() == old(self).a()
                },
            },
            final(self).asked() == old(self).asked().push(
                Question::Pulse { channel, chunk_index, channel_intensity },
            ),
    {
        proof {
            self.asked@ = self.asked@.push(
                Question::Pulse { channel, chunk_index, channel_intensity },
            );
        }
        match channel {
            Channel::A => self.a.next_pulse(chunk_index, channel_intensity),
            Channel::B => self.b.next_pulse(chunk_index, channel_intensity),
        }
    }
}

} // verus!
