//! Pulses and the waveform of a frame.

use crate::coyote3::intensity::IntensityChange;
use crate::coyote3::settings;
use crate::stereo::Stereo;
use vstd::prelude::*;

verus! {

/// The pulse data that is expected to be sent every 100 ms to the Coyote.
#[derive(Clone, Copy, Debug)]
pub struct Pulses {
    /// This field is used to change the stimulation intensity per channel.
    ///
    /// Note that relative changes should be preferred in many cases over absolute changes since
    /// absolute changes will overwrite any intensity changes that were made using the hardware
    /// shoulder switches of the Coyote, basically rendering them useless.
    pub intensity: Stereo<IntensityChange>,
    /// The actual waveform data.
    ///
    /// This is an array of 4 pulses of 25 ms length each, where each pulse contains the frequency
    /// and relative amplitude for each channel.
    pub pulses: [Stereo<Pulse>; 4],
}

/// The pulse data of one frame in the form of the protocol.
#[derive(Clone, Copy, Debug)]
pub struct EncodedPulses {
    /// How the stimulation intensity changes, per channel.
    pub intensity: Stereo<IntensityChange>,
    /// The waveform data of the four 25 ms chunks.
    pub pulses: [Stereo<EncodedPulse>; 4],
}

/// A single frequency-intensity set representing 25 ms of a waveform for a single channel.
#[derive(Clone, Copy, Debug, PartialEq, Eq, Structural)]
pub struct Pulse {
    /// The frequency in Hz. Active values are constrained to the documented `1..=100` range;
    /// zero disables the channel.
    pub frequency: u8,
    /// The pulse amplitude as an abstract value in the range of 0 to 100.
    pub intensity: u8,
}

/// A protocol-native frequency-intensity pair for one 25 ms waveform chunk.
///
/// Unlike [`Pulse`], `frequency` is the compressed V3 protocol value rather
/// than a value in hertz. Active values are normalized to `10..=240`; zero
/// disables the channel.
#[derive(Clone, Copy, Debug, PartialEq, Eq, Structural)]
pub struct EncodedPulse {
    /// The compressed V3 frequency value, or zero to disable the channel.
    pub frequency: u8,
    /// The relative waveform intensity in the range `0..=100`.
    pub intensity: u8,
}

/// The compressed form of the period of `frequency` Hz, without its fraction.
///
/// With the period `t = 1000 / frequency` in milliseconds it is `t` for `t` in `5..100`,
/// `(t - 100) / 5 + 100` in `100..600` and `(t - 600) / 10 + 200` in `600..1000`; shorter periods
/// count as `5` and longer ones as `240`.
pub open spec fn compressed_period(frequency: int) -> int
    recommends
        1 <= frequency,
{
    if 1000 < 5 * frequency {
        5
    } else if 1000 < 100 * frequency {
        1000int / frequency
    } else if 1000 < 600 * frequency {
        (1000 - 100 * frequency) / (5 * frequency) + 100
    } else if 1000 < 1000 * frequency {
        (1000 - 600 * frequency) / (10 * frequency) + 200
    } else {
        240
    }
}

impl Pulse {
    /// The frequency value of the protocol: zero for zero, else the compressed period of a
    /// frequency of at most 100 Hz.
    pub open spec fn frequency_code(self) -> u8 {
        if self.frequency == 0 {
            0
        } else {
            compressed_period(settings::at_most(self.frequency, 100) as int) as u8
        }
    }

    /// This pulse in the form of the protocol.
    pub open spec fn encoded(self) -> EncodedPulse {
        EncodedPulse {
            frequency: self.frequency_code(),
            intensity: settings::at_most(self.intensity, 100),
        }
    }

    /// Return the frequency value of the protocol.
    pub fn encoded_frequency(&self) -> (value: u8)
        ensures
            value == self.frequency_code(),
    {
        if self.frequency == 0 {
            return 0;
        }
        let frequency: u32 = self.frequency.min(100) as u32;
        proof {
            compressed_period_range(frequency as int);
        }
        let period: u32 = if 1000 < 5 * frequency {
            5
        } else if 1000 < 100 * frequency {
            1000 / frequency
        } else if 1000 < 600 * frequency {
            (1000 - 100 * frequency) / (5 * frequency) + 100
        } else if 1000 < 1000 * frequency {
            (1000 - 600 * frequency) / (10 * frequency) + 200
        } else {
            240
        };
        period as u8
    }

    /// Return the amplitude, moved into `0..=100`.
    pub fn clamped_intensity(&self) -> (value: u8)
        ensures
            value == settings::at_most(self.intensity, 100),
    {
        self.intensity.min(100)
    }
}

/// The compressed periods of the frequencies that are slower than 100 ms but faster than a second.
proof fn slow_period(frequency: int)
    requires
        2 <= frequency <= 10,
    ensures
        compressed_period(frequency) == 200int / frequency + 80,
{
    vstd::arithmetic::div_mod::lemma_div_multiples_vanish_quotient(
        5,
        200 - 20 * frequency,
        frequency,
    );
    vstd::arithmetic::div_mod::lemma_hoist_over_denominator(
        200 - 20 * frequency,
        20,
        frequency as nat,
    );
}

/// Every frequency of `1..=100` Hz has a compressed period in `10..=240`.
pub proof fn compressed_period_range(frequency: int)
    requires
        1 <= frequency <= 100,
    ensures
        10 <= compressed_period(frequency) <= 240,
{
    if frequency > 10 {
        assert(10 <= 1000int / frequency < 100) by (nonlinear_arith)
            requires
                10 < frequency <= 100,
        ;
    } else if frequency > 1 {
        slow_period(frequency);
        assert(20 <= 200int / frequency <= 100) by (nonlinear_arith)
            requires
                2 <= frequency <= 10,
        ;
    }
}

/// A higher frequency never has a longer compressed period.
pub proof fn compressed_period_falls(slower: int, faster: int)
    requires
        1 <= slower <= faster <= 100,
    ensures
        compressed_period(faster) <= compressed_period(slower),
{
    compressed_period_range(slower);
    compressed_period_range(faster);
    if slower > 10 {
        assert(1000int / faster <= 1000int / slower) by (nonlinear_arith)
            requires
                10 < slower <= faster,
        ;
    } else if slower > 1 && faster > 10 {
        slow_period(slower);
        assert(20 <= 200int / slower) by (nonlinear_arith)
            requires
                2 <= slower <= 10,
        ;
        assert(1000int / faster < 100) by (nonlinear_arith)
            requires
                10 < faster,
        ;
    } else if slower > 1 {
        slow_period(slower);
        slow_period(faster);
        assert(200int / faster <= 200int / slower) by (nonlinear_arith)
            requires
                2 <= slower <= faster,
        ;
    }
}

impl EncodedPulse {
    /// This pulse with its values moved into the ranges of the protocol.
    pub open spec fn in_range(self) -> Self {
        EncodedPulse {
            frequency: if self.frequency == 0 {
                0
            } else if self.frequency < 10 {
                10
            } else {
                settings::at_most(self.frequency, 240)
            },
            intensity: settings::at_most(self.intensity, 100),
        }
    }

    /// Return the frequency and the intensity, moved into the ranges of the protocol.
    pub fn normalized(self) -> (result: (u8, u8))
        ensures
            result.0 == self.in_range().frequency,
            result.1 == self.in_range().intensity,
    {
        let frequency: u8 = if self.frequency == 0 {
            0
        } else if self.frequency < 10 {
            10
        } else {
            self.frequency.min(240)
        };
        (frequency, self.intensity.min(100))
    }
}

/// The waveform bytes of a frame: the frequencies and the amplitudes of channel A, then those of
/// channel B.
pub open spec fn waveform_rows(pulses: Seq<Stereo<EncodedPulse>>) -> [[u8; 4]; 4] {
    [
        [
            pulses[0].a.frequency,
            pulses[1].a.frequency,
            pulses[2].a.frequency,
            pulses[3].a.frequency,
        ],
        [
            pulses[0].a.intensity,
            pulses[1].a.intensity,
            pulses[2].a.intensity,
            pulses[3].a.intensity,
        ],
        [
            pulses[0].b.frequency,
            pulses[1].b.frequency,
            pulses[2].b.frequency,
            pulses[3].b.frequency,
        ],
        [
            pulses[0].b.intensity,
            pulses[1].b.intensity,
            pulses[2].b.intensity,
            pulses[3].b.intensity,
        ],
    ]
}

/// Rows with the same bytes are the same.
proof fn same_rows(first: [[u8; 4]; 4], second: [[u8; 4]; 4])
    requires
        forall|i: int, j: int| #![auto]
            0 <= i < 4 && 0 <= j < 4 ==> first@[i]@[j] == second@[i]@[j],
    ensures
        first == second,
{
    assert forall|i: int| 0 <= i < 4 implies first[i] == second[i] by {
        assert(first@[i] =~= second@[i]);
    }
    assert(first =~= second);
}

impl Pulses {
    /// The waveform in the form of the protocol.
    pub open spec fn encoded(pulses: Seq<Stereo<Pulse>>) -> Seq<Stereo<EncodedPulse>> {
        pulses.map_values(
            |pulse: Stereo<Pulse>| Stereo { a: pulse.a.encoded(), b: pulse.b.encoded() },
        )
    }

    /// Arrange the waveform bytes of a frame.
    pub fn convert_pulses(pulses: &[Stereo<Pulse>; 4]) -> (rows: [[u8; 4]; 4])
        ensures
            rows == waveform_rows(Pulses::encoded(pulses@)),
    {
        let rows = [
            [
                pulses[0].a.encoded_frequency(),
                pulses[1].a.encoded_frequency(),
                pulses[2].a.encoded_frequency(),
                pulses[3].a.encoded_frequency(),
            ],
            [
                pulses[0].a.clamped_intensity(),
                pulses[1].a.clamped_intensity(),
                pulses[2].a.clamped_intensity(),
                pulses[3].a.clamped_intensity(),
            ],
            [
                pulses[0].b.encoded_frequency(),
                pulses[1].b.encoded_frequency(),
                pulses[2].b.encoded_frequency(),
                pulses[3].b.encoded_frequency(),
            ],
            [
                pulses[0].b.clamped_intensity(),
                pulses[1].b.clamped_intensity(),
                pulses[2].b.clamped_intensity(),
                pulses[3].b.clamped_intensity(),
            ],
        ];
        proof {
            same_rows(rows, waveform_rows(Pulses::encoded(pulses@)));
        }
        rows
    }
}

impl EncodedPulses {
    /// The waveform with its values moved into the ranges of the protocol.
    pub open spec fn in_range(pulses: Seq<Stereo<EncodedPulse>>) -> Seq<Stereo<EncodedPulse>> {
        pulses.map_values(
            |pulse: Stereo<EncodedPulse>| Stereo {
                a: pulse.a.in_range(),
                b: pulse.b.in_range(),
            },
        )
    }

    /// Arrange the waveform bytes of a frame.
    pub fn convert_pulses(pulses: &[Stereo<EncodedPulse>; 4]) -> (rows: [[u8; 4]; 4])
        ensures
            rows == waveform_rows(EncodedPulses::in_range(pulses@)),
    {
        let rows = [
            [
                pulses[0].a.normalized().0,
                pulses[1].a.normalized().0,
                pulses[2].a.normalized().0,
                pulses[3].a.normalized().0,
            ],
            [
                pulses[0].a.normalized().1,
                pulses[1].a.normalized().1,
                pulses[2].a.normalized().1,
                pulses[3].a.normalized().1,
            ],
            [
                pulses[0].b.normalized().0,
                pulses[1].b.normalized().0,
                pulses[2].b.normalized().0,
                pulses[3].b.normalized().0,
            ],
            [
                pulses[0].b.normalized().1,
                pulses[1].b.normalized().1,
                pulses[2].b.normalized().1,
                pulses[3].b.normalized().1,
            ],
        ];
        proof {
            same_rows(rows, waveform_rows(EncodedPulses::in_range(pulses@)));
        }
        rows
    }
}

// Laws.

/// What is sent for a pulse: zero disables the channel, every other frequency lies in `10..=240`,
/// frequencies above 100 Hz are sent as 100 Hz, and the amplitude is at most `100`.
pub proof fn encoded_pulse_ranges(pulse: Pulse)
    ensures
        pulse.frequency == 0 <==> pulse.encoded().frequency == 0,
        pulse.frequency > 0 ==> 10 <= pulse.encoded().frequency <= 240,
        pulse.frequency > 100 ==> pulse.encoded().frequency == 10,
        pulse.encoded().intensity <= 100,
{
    if pulse.frequency > 0 {
        compressed_period_range(settings::at_most(pulse.frequency, 100) as int);
    }
}

/// An encoded pulse already lies in the ranges of the protocol, so that moving it there changes
/// nothing; moving any pulse there a second time changes nothing either.
pub proof fn ranges_are_final(pulse: Pulse, encoded: EncodedPulse)
    ensures
        pulse.encoded().in_range() == pulse.encoded(),
        encoded.in_range().in_range() == encoded.in_range(),
        encoded.frequency == 0 <==> encoded.in_range().frequency == 0,
{
    encoded_pulse_ranges(pulse);
}

} // verus!
