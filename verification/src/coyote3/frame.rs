//! The commands that are written to a Coyote 3.

use crate::coyote3::intensity::PreparedIntensity;
use crate::coyote3::pulse::{self, Pulses};
use crate::coyote3::settings::DeviceSettings;
use crate::wire;
use arrayvec::ArrayVec;
use vstd::prelude::*;

verus! {

/// The contents of the `0xB0` command: one intensity change and 100 ms of waveform.
#[derive(Clone, Copy, Debug)]
pub struct B0Frame {
    /// The intensity change and its number.
    pub intensity: PreparedIntensity,
    /// The waveform bytes: frequencies and amplitudes of channel A, then those of channel B.
    pub pulses: [[u8; 4]; 4],
}

impl From<Pulses> for B0Frame {
    fn from(pulses: Pulses) -> (frame: Self) {
        B0Frame {
            intensity: PreparedIntensity { sequence: 0, intensity: pulses.intensity },
            pulses: Pulses::convert_pulses(&pulses.pulses),
        }
    }
}

impl vstd::std_specs::convert::FromSpecImpl<Pulses> for B0Frame {
    open spec fn obeys_from_spec() -> bool {
        true
    }

    open spec fn from_spec(pulses: Pulses) -> Self {
        B0Frame {
            intensity: PreparedIntensity { sequence: 0, intensity: pulses.intensity },
            pulses: pulse::waveform_rows(Pulses::encoded(pulses.pulses@)),
        }
    }
}

impl B0Frame {
    /// The byte that holds the number and the kinds of the intensity change.
    pub open spec fn head(self) -> u8 {
        (self.intensity.sequence % 16 * 16 + self.intensity.intensity.a.kind() * 4
            + self.intensity.intensity.b.kind()) as u8
    }

    /// The bytes of the frame.
    pub open spec fn encoded(self) -> Seq<u8> {
        seq![
            self.head(),
            self.intensity.intensity.a.amount(),
            self.intensity.intensity.b.amount(),
        ] + self.pulses@[0]@ + self.pulses@[1]@ + self.pulses@[2]@ + self.pulses@[3]@
    }
}

/// A command that is written to the device.
#[derive(Clone, Copy, Debug)]
pub enum Command {
    /// Send the next 100 ms of waveform (`0xB0`).
    SendPulses(B0Frame),
    /// Set the device settings (`0xBF`).
    UpdateSettings(DeviceSettings),
}

impl Command {
    /// The bytes of the command.
    pub open spec fn encoded(self) -> Seq<u8> {
        match self {
            Command::SendPulses(frame) => seq![0xB0u8] + frame.encoded(),
            Command::UpdateSettings(settings) => seq![0xBFu8] + settings.constrained().encoded(),
        }
    }

    /// Serialize the command.
    pub fn to_bytes(self) -> (buffer: ArrayVec<u8, 20>)
        ensures
            wire::wire_bytes(buffer) == self.encoded(),
    {
        let mut buffer = wire::empty_buffer();
        match self {
            Command::SendPulses(frame) => {
                let change = frame.intensity.intensity;
                let head: u8 = frame.intensity.sequence % 16 * 16 + change.a.mode() * 4
                    + change.b.mode();
                wire::write_byte(&mut buffer, 0xB0);
                wire::write_byte(&mut buffer, head);
                wire::write_byte(&mut buffer, change.a.value());
                wire::write_byte(&mut buffer, change.b.value());
                wire::write_row(&mut buffer, frame.pulses[0]);
                wire::write_row(&mut buffer, frame.pulses[1]);
                wire::write_row(&mut buffer, frame.pulses[2]);
                wire::write_row(&mut buffer, frame.pulses[3]);
            },
            Command::UpdateSettings(settings) => {
                let settings = settings.normalized();
                wire::write_byte(&mut buffer, 0xBF);
                wire::write_byte(&mut buffer, settings.limit.a);
                wire::write_byte(&mut buffer, settings.limit.b);
                wire::write_byte(&mut buffer, settings.frequency_balance.a);
                wire::write_byte(&mut buffer, settings.frequency_balance.b);
                wire::write_byte(&mut buffer, settings.intensity_balance.a);
                wire::write_byte(&mut buffer, settings.intensity_balance.b);
            },
        }
        assert(wire::wire_bytes(buffer) =~= self.encoded());
        buffer
    }
}

// Laws.

/// A waveform command has twenty bytes and a settings command has seven, each behind its own first
/// byte, so that both fit the buffer and cannot be taken for one another.
pub proof fn commands_have_fixed_lengths(command: Command)
    ensures
        match command {
            Command::SendPulses(_) => command.encoded().len() == 20 && command.encoded()[0] == 0xB0,
            Command::UpdateSettings(_) => command.encoded().len() == 7 && command.encoded()[0]
                == 0xBF,
        },
{
}

/// The number and the kinds of an intensity change can be read back from the byte that holds them.
pub proof fn frame_head_is_lossless(frame: B0Frame)
    requires
        frame.intensity.sequence <= 15,
    ensures
        frame.head() / 16 == frame.intensity.sequence,
        frame.head() / 4 % 4 == frame.intensity.intensity.a.kind(),
        frame.head() % 4 == frame.intensity.intensity.b.kind(),
{
}

/// The waveform of a frame stands in the command row by row, behind the intensity change.
pub proof fn waveform_stands_behind_the_change(frame: B0Frame, row: int, column: int)
    requires
        0 <= row < 4,
        0 <= column < 4,
    ensures
        Command::SendPulses(frame).encoded()[4 + 4 * row + column] == frame.pulses@[row]@[column],
{
    assert(row == 0 || row == 1 || row == 2 || row == 3);
}

} // verus!
