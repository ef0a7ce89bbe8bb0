//! Waveforms that are published with the protocol.

use crate::coyote3::pulse::EncodedPulse;
use crate::coyote3::runtime::{EncodedShape, EncodedShapeContext};
use vstd::prelude::*;

verus! {

/// The frequencies and intensities of the frames of [`Breathing`].
pub const BREATHING_FRAMES: [(u8, u8); 12] = [
    (10, 0),
    (10, 20),
    (10, 40),
    (10, 60),
    (10, 80),
    (10, 100),
    (10, 100),
    (10, 100),
    (10, 0),
    (10, 0),
    (10, 0),
    (10, 0),
];

/// The frequencies and intensities of the frames of [`Tidal`].
pub const TIDAL_FRAMES: [(u8, u8); 23] = [
    (10, 0),
    (11, 16),
    (13, 33),
    (14, 50),
    (16, 66),
    (18, 83),
    (19, 100),
    (21, 92),
    (22, 84),
    (24, 76),
    (26, 68),
    (26, 0),
    (27, 16),
    (29, 33),
    (30, 50),
    (32, 66),
    (34, 83),
    (35, 100),
    (37, 92),
    (38, 84),
    (40, 76),
    (42, 68),
    (10, 0),
];

/// How many of the contexts are those of a last chunk of a frame.
pub open spec fn frames_finished(asked: Seq<EncodedShapeContext>) -> nat
    decreases asked.len(),
{
    if asked.len() == 0 {
        0
    } else {
        frames_finished(asked.drop_last()) + if asked.last().chunk_index == 3 {
            1nat
        } else {
            0nat
        }
    }
}

/// The frame at a position of a table that starts over behind its end.
pub open spec fn frame_at(frames: Seq<(u8, u8)>, position: int) -> EncodedPulse {
    EncodedPulse {
        frequency: frames[position % (frames.len() as int)].0,
        intensity: frames[position % (frames.len() as int)].1,
    }
}

/// Whether a table that stands at `position` answers `asked` with `given`: it gives the frame that
/// it stands at, and goes on by one frame after the last chunk of each.
pub open spec fn table_answers(
    frames: Seq<(u8, u8)>,
    position: int,
    asked: Seq<EncodedShapeContext>,
    given: Seq<EncodedPulse>,
) -> bool {
    &&& asked.len() == given.len()
    &&& forall|i: int|
        0 <= i < given.len() ==> #[trigger] given[i] == frame_at(
            frames,
            position + frames_finished(asked.take(i)),
        )
}

/// Plays a table of frames over and over.
#[derive(Clone, Copy)]
pub struct TableShape {
    /// The frequencies and intensities of the frames.
    pub frames: &'static [(u8, u8)],
    /// The frame that is played next.
    pub frame_index: usize,
}

impl TableShape {
    /// Whether there is a frame to play next.
    pub open spec fn well_formed(self) -> bool {
        self.frame_index < self.frames.len()
    }

    /// The pulse that is given next.
    pub open spec fn pulse(self) -> EncodedPulse {
        EncodedPulse {
            frequency: self.frames@[self.frame_index as int].0,
            intensity: self.frames@[self.frame_index as int].1,
        }
    }

    /// The table after a pulse was given for `context`: it goes on by one frame after the last
    /// chunk, and starts over behind its end.
    pub open spec fn after(self, context: EncodedShapeContext) -> Self {
        TableShape {
            frames: self.frames,
            frame_index: if context.chunk_index == 3 {
                ((self.frame_index + 1) % (self.frames.len() as int)) as usize
            } else {
                self.frame_index
            },
        }
    }

    /// Whether the table answers `asked` with `given`.
    pub open spec fn answers(
        self,
        asked: Seq<EncodedShapeContext>,
        given: Seq<EncodedPulse>,
    ) -> bool {
        table_answers(self.frames@, self.frame_index as int, asked, given)
    }

    /// Create a table at its first frame.
    pub fn new(frames: &'static [(u8, u8)]) -> (shape: Self)
        ensures
            shape == (TableShape { frames, frame_index: 0 }),
            frames@.len() > 0 ==> shape.well_formed(),
    {
        TableShape { frames, frame_index: 0 }
    }

    /// Return the next pulse.
    pub fn next_pulse(&mut self, context: EncodedShapeContext) -> (pulse: EncodedPulse)
        requires
            old(self).well_formed(),
        ensures
            pulse == old(self).pulse(),
            *final(self) == old(self).after(context),
            final(self).well_formed(),
    {
        let (frequency, intensity) = self.frames[self.frame_index];
        if context.chunk_index == 3 {
            self.frame_index = (self.frame_index + 1) % self.frames.len();
        }
        EncodedPulse { frequency, intensity }
    }
}

/// The first of some contexts counts like the others.
proof fn first_chunk_counts(context: EncodedShapeContext, asked: Seq<EncodedShapeContext>)
    ensures
        frames_finished(seq![context] + asked) == frames_finished(asked) + if context.chunk_index
            == 3 {
            1nat
        } else {
            0nat
        },
    decreases asked.len(),
{
    let all = seq![context] + asked;
    if asked.len() == 0 {
        assert(all.drop_last() =~= Seq::<EncodedShapeContext>::empty());
        assert(frames_finished(all.drop_last()) == 0);
    } else {
        first_chunk_counts(context, asked.drop_last());
        assert(all.drop_last() =~= seq![context] + asked.drop_last());
    }
}

/// What a table answers after a pulse is the rest of what it answered before.
pub proof fn table_goes_on(table: TableShape, context: EncodedShapeContext)
    requires
        table.well_formed(),
    ensures
        table.after(context).answers(seq![], seq![]),
        forall|asked: Seq<EncodedShapeContext>, given: Seq<EncodedPulse>| #[trigger]
            table.after(context).answers(asked, given) ==> table.answers(
                seq![context] + asked,
                seq![table.pulse()] + given,
            ),
{
    let frames = table.frames@;
    let position = table.frame_index as int;
    let after = table.after(context);
    vstd::arithmetic::div_mod::lemma_small_mod(position as nat, frames.len());
    assert forall|asked: Seq<EncodedShapeContext>, given: Seq<EncodedPulse>| #[trigger]
        after.answers(asked, given) implies table.answers(
        seq![context] + asked,
        seq![table.pulse()] + given,
    ) by {
        let all_asked = seq![context] + asked;
        let all_given = seq![table.pulse()] + given;
        assert forall|i: int| 0 <= i < all_given.len() implies #[trigger] all_given[i] == frame_at(
            frames,
            position + frames_finished(all_asked.take(i)),
        ) by {
            if i == 0 {
                assert(all_asked.take(0) =~= Seq::<EncodedShapeContext>::empty());
            } else {
                assert(all_given[i] == given[i - 1]);
                assert(all_asked.take(i) =~= seq![context] + asked.take(i - 1));
                first_chunk_counts(context, asked.take(i - 1));
                if context.chunk_index == 3 {
                    vstd::arithmetic::div_mod::lemma_add_mod_noop_right(
                        frames_finished(asked.take(i - 1)) as int,
                        position + 1,
                        frames.len() as int,
                    );
                }
            }
        }
    }
}

/// The twelve-frame "Breathing" waveform published with the Coyote V3 protocol.
pub struct Breathing(TableShape);

impl View for Breathing {
    type V = TableShape;

    closed spec fn view(&self) -> TableShape {
        self.0
    }
}

impl Breathing {
    #[verifier::type_invariant]
    spec fn plays_its_table(self) -> bool {
        self@.frames@ == BREATHING_FRAMES@ && self@.well_formed()
    }

    /// Create the waveform at its first 100 ms frame.
    pub fn new() -> (shape: Self)
        ensures
            shape@.frames@ == BREATHING_FRAMES@,
            shape@.frame_index == 0,
    {
        Breathing(TableShape::new(&BREATHING_FRAMES))
    }
}

impl Default for Breathing {
    fn default() -> (shape: Self)
        ensures
            shape@.frames@ == BREATHING_FRAMES@,
            shape@.frame_index == 0,
    {
        Breathing::new()
    }
}

impl EncodedShape for Breathing {
    open spec fn ready(&self) -> bool {
        true
    }

    open spec fn answers(&self, asked: Seq<EncodedShapeContext>, given: Seq<EncodedPulse>) -> bool {
        self@.answers(asked, given)
    }

    fn next_pulse(&mut self, context: EncodedShapeContext) -> (pulse: EncodedPulse)
        ensures
            pulse == old(self)@.pulse(),
            final(self)@ == old(self)@.after(context),
            final(self)@.well_formed(),
            final(self)@.frames@ == BREATHING_FRAMES@,
    {
        proof {
            use_type_invariant(&*self);
            table_goes_on(self@, context);
        }
        let mut table = self.0;
        let pulse = table.next_pulse(context);
        self.0 = table;
        pulse
    }
}

/// The twenty-three-frame "Tidal" waveform published with the Coyote V3 protocol.
pub struct Tidal(TableShape);

impl View for Tidal {
    type V = TableShape;

    closed spec fn view(&self) -> TableShape {
        self.0
    }
}

impl Tidal {
    #[verifier::type_invariant]
    spec fn plays_its_table(self) -> bool {
        self@.frames@ == TIDAL_FRAMES@ && self@.well_formed()
    }

    /// Create the waveform at its first 100 ms frame.
    pub fn new() -> (shape: Self)
        ensures
            shape@.frames@ == TIDAL_FRAMES@,
            shape@.frame_index == 0,
    {
        Tidal(TableShape::new(&TIDAL_FRAMES))
    }
}

impl Default for Tidal {
    fn default() -> (shape: Self)
        ensures
            shape@.frames@ == TIDAL_FRAMES@,
            shape@.frame_index == 0,
    {
        Tidal::new()
    }
}

impl EncodedShape for Tidal {
    open spec fn ready(&self) -> bool {
        true
    }

    open spec fn answers(&self, asked: Seq<EncodedShapeContext>, given: Seq<EncodedPulse>) -> bool {
        self@.answers(asked, given)
    }

    fn next_pulse(&mut self, context: EncodedShapeContext) -> (pulse: EncodedPulse)
        ensures
            pulse == old(self)@.pulse(),
            final(self)@ == old(self)@.after(context),
            final(self)@.well_formed(),
            final(self)@.frames@ == TIDAL_FRAMES@,
    {
        proof {
            use_type_invariant(&*self);
            table_goes_on(self@, context);
        }
        let mut table = self.0;
        let pulse = table.next_pulse(context);
        self.0 = table;
        pulse
    }
}

// Laws.

/// A table gives the frame that it stands at, whatever it is asked with; it goes on by one frame
/// after the last chunk of a frame, from its last frame to its first, and after no other chunk.
/// Nothing else of what it is asked with matters, the frames stay the same, and there is always a
/// frame to play next.
pub proof fn tables_go_on_after_the_last_chunk(
    table: TableShape,
    context: EncodedShapeContext,
    other: EncodedShapeContext,
)
    requires
        table.well_formed(),
    ensures
        table.after(context).well_formed(),
        table.after(context).frames == table.frames,
        context.chunk_index != 3 ==> table.after(context) == table,
        context.chunk_index == 3 ==> table.after(context).frame_index == if table.frame_index + 1
            == table.frames@.len() {
            0
        } else {
            table.frame_index + 1
        },
        (context.chunk_index == 3) == (other.chunk_index == 3) ==> table.after(context)
            == table.after(other),
        table.pulse() == frame_at(table.frames@, table.frame_index as int),
{
    let count = table.frames@.len();
    vstd::arithmetic::div_mod::lemma_small_mod(table.frame_index as nat, count);
    if table.frame_index + 1 < count {
        vstd::arithmetic::div_mod::lemma_small_mod((table.frame_index + 1) as nat, count);
    } else {
        vstd::arithmetic::div_mod::lemma_mod_self_0(count as int);
    }
}

/// In contexts whose chunks count from `0` to `3` over and over, every fourth one is the last of a
/// frame.
proof fn every_fourth_chunk_finishes_a_frame(asked: Seq<EncodedShapeContext>, n: int)
    requires
        0 <= n <= asked.len(),
        forall|i: int| 0 <= i < asked.len() ==> #[trigger] asked[i].chunk_index == i % 4,
    ensures
        frames_finished(asked.take(n)) == n / 4,
    decreases n,
{
    if n > 0 {
        every_fourth_chunk_finishes_a_frame(asked, n - 1);
        assert(asked.take(n).drop_last() =~= asked.take(n - 1));
        assert(asked.take(n).last() == asked[n - 1]);
    }
}

/// A runtime that asks for the chunks `0` to `3` over and over gets every frame of a table four
/// times, the frames in their order, and the first frame again after the last.
pub proof fn tables_play_frame_by_frame(
    frames: Seq<(u8, u8)>,
    position: int,
    asked: Seq<EncodedShapeContext>,
    given: Seq<EncodedPulse>,
    i: int,
)
    requires
        frames.len() > 0,
        table_answers(frames, position, asked, given),
        forall|j: int| 0 <= j < asked.len() ==> #[trigger] asked[j].chunk_index == j % 4,
        0 <= i < given.len(),
    ensures
        given[i] == frame_at(frames, position + i / 4),
        i + 4 * frames.len() < given.len() ==> given[i + 4 * frames.len()] == given[i],
{
    let later = i + 4 * frames.len();
    every_fourth_chunk_finishes_a_frame(asked, i);
    if later < given.len() {
        every_fourth_chunk_finishes_a_frame(asked, later);
        assert(later / 4 == i / 4 + frames.len());
        vstd::arithmetic::div_mod::lemma_mod_multiples_vanish(
            1,
            position + i / 4,
            frames.len() as int,
        );
    }
}

/// The frames of both tables lie in the ranges of the protocol, so that they are sent as they are.
pub proof fn tables_are_in_range(position: int)
    ensures
        frame_at(BREATHING_FRAMES@, position).in_range() == frame_at(BREATHING_FRAMES@, position),
        frame_at(TIDAL_FRAMES@, position).in_range() == frame_at(TIDAL_FRAMES@, position),
{
}

} // verus!
