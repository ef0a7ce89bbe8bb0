//! Device settings.

use crate::stereo::Stereo;
use vstd::prelude::*;

verus! {

/// The device settings of the Coyote 3.
#[derive(Clone, Copy, Debug, PartialEq, Eq, Structural)]
pub struct DeviceSettings {
    /// The maximum intensity limit, constrained to `0..=200` when encoded.
    ///
    /// It is very important that a user can set this to appropriate levels.
    pub limit: Stereo<u8>,
    /// The frequency balance: it affects the perceived intensity at different frequencies.
    ///
    /// Higher values increase the throbbing sensation of low-frequency waveforms.
    pub frequency_balance: Stereo<u8>,
    /// The intensity balance: it affects the pulse width of the waveform.
    ///
    /// Higher values increase the perceived stimulation of low-frequency waveforms.
    pub intensity_balance: Stereo<u8>,
}

impl Default for DeviceSettings {
    fn default() -> (settings: Self)
        ensures
            settings == (DeviceSettings {
                limit: Stereo { a: 70, b: 70 },
                frequency_balance: Stereo { a: 160, b: 160 },
                intensity_balance: Stereo { a: 0, b: 0 },
            }),
    {
        DeviceSettings {
            limit: Stereo { a: 70, b: 70 },
            frequency_balance: Stereo { a: 160, b: 160 },
            intensity_balance: Stereo { a: 0, b: 0 },
        }
    }
}

/// `value`, or `bound` where `value` is larger.
pub open spec fn at_most(value: u8, bound: u8) -> u8 {
    if value <= bound {
        value
    } else {
        bound
    }
}

impl DeviceSettings {
    /// These settings with both limits moved into `0..=200`.
    pub open spec fn constrained(self) -> Self {
        DeviceSettings {
            limit: Stereo { a: at_most(self.limit.a, 200), b: at_most(self.limit.b, 200) },
            frequency_balance: self.frequency_balance,
            intensity_balance: self.intensity_balance,
        }
    }

    /// The six bytes that hold these settings.
    pub open spec fn encoded(self) -> Seq<u8> {
        seq![
            self.limit.a,
            self.limit.b,
            self.frequency_balance.a,
            self.frequency_balance.b,
            self.intensity_balance.a,
            self.intensity_balance.b,
        ]
    }

    /// Move both limits into the range that the device accepts.
    pub fn normalized(self) -> (settings: Self)
        ensures
            settings == self.constrained(),
    {
        DeviceSettings {
            limit: Stereo { a: self.limit.a.min(200), b: self.limit.b.min(200) },
            frequency_balance: self.frequency_balance,
            intensity_balance: self.intensity_balance,
        }
    }
}

/// Constrained settings have limits of at most `200`, and constraining them again changes nothing.
pub proof fn constraining_settings_is_final(settings: DeviceSettings)
    ensures
        settings.constrained().limit.a <= 200,
        settings.constrained().limit.b <= 200,
        settings.constrained().constrained() == settings.constrained(),
        settings.limit.a <= 200 && settings.limit.b <= 200 ==> settings.constrained() == settings,
{
}

} // verus!
