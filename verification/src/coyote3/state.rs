//! The device state and what changes it.

use crate::coyote3::frame::B0Frame;
use crate::coyote3::intensity::{
    Handshake, IntensityChange, IntensitySequencer, PreparedIntensity,
};
use crate::coyote3::settings::DeviceSettings;
use crate::led::LedColor;
use crate::stereo::Stereo;
use vstd::prelude::*;

verus! {

/// The characteristic that commands are written to.
pub const WRITE_CHARACTERISTIC_UUID: u128 = 0x0000150A_0000_1000_8000_00805f9b34fb;

/// The characteristic that notifies of intensity changes.
pub const NOTIFY_CHARACTERISTIC_UUID: u128 = 0x0000150B_0000_1000_8000_00805f9b34fb;

/// The characteristic that holds the battery level.
pub const BATTERY_CHARACTERISTIC_UUID: u128 = 0x00001500_0000_1000_8000_00805f9b34fb;

/// The current state of the Coyote 3.
#[derive(Clone, Copy, Debug, PartialEq, Eq, Structural, Default)]
pub struct State {
    /// The current battery charge in percent.
    pub battery: u8,
    /// The current stimulation intensity.
    pub intensity: Stereo<u8>,
    /// The current device settings.
    pub settings: DeviceSettings,
    /// The sequence number from the most recently received B1 notification.
    pub last_intensity_sequence: u8,
    /// Whether an intensity-changing B0 command is awaiting its matching B1 response.
    pub intensity_update_pending: bool,
}

/// A notification of the device.
#[derive(Clone, Copy, Debug, PartialEq, Eq, Structural)]
pub enum Notification {
    /// The intensity of the channels (`0xB1`).
    IntensityChange {
        /// The number of the command that caused the change, or zero.
        serial: u8,
        /// The intensity per channel.
        intensity: Stereo<u8>,
    },
    /// The device settings (`0xBE`, deprecated).
    DeviceSettingsChange(DeviceSettings),
}

impl Notification {
    /// The notification that these bytes stand for, if there is one.
    pub open spec fn reported(value: Seq<u8>) -> Option<Self> {
        if value.len() == 4 && value[0] == 0xb1 {
            Some(
                Notification::IntensityChange {
                    serial: value[1],
                    intensity: Stereo { a: value[2], b: value[3] },
                },
            )
        } else if value.len() == 7 && value[0] == 0xbe {
            Some(
                Notification::DeviceSettingsChange(
                    DeviceSettings {
                        limit: Stereo { a: value[1], b: value[2] },
                        frequency_balance: Stereo { a: value[3], b: value[4] },
                        intensity_balance: Stereo { a: value[5], b: value[6] },
                    },
                ),
            )
        } else {
            None
        }
    }
}

/// Parse the value of the notify characteristic.
pub fn parse_notification(value: &[u8]) -> (notification: Option<Notification>)
    ensures
        notification == Notification::reported(value@),
{
    if value.len() == 4 && value[0] == 0xb1 {
        Some(
            Notification::IntensityChange {
                serial: value[1],
                intensity: Stereo { a: value[2], b: value[3] },
            },
        )
    } else if value.len() == 7 && value[0] == 0xbe {
        Some(
            Notification::DeviceSettingsChange(
                DeviceSettings {
                    limit: Stereo { a: value[1], b: value[2] },
                    frequency_balance: Stereo { a: value[3], b: value[4] },
                    intensity_balance: Stereo { a: value[5], b: value[6] },
                },
            ),
        )
    } else {
        None
    }
}

/// The battery level that these bytes stand for, if they stand for one.
pub open spec fn battery_level(value: Seq<u8>) -> Option<u8> {
    if value.len() == 1 {
        Some(value[0])
    } else {
        None
    }
}

/// Parse the value of the battery characteristic.
pub fn parse_battery_payload(value: &[u8]) -> (level: Option<u8>)
    ensures
        level == battery_level(value@),
{
    if value.len() == 1 {
        Some(value[0])
    } else {
        None
    }
}

impl State {
    /// The state right after a connection: nothing is known of the intensity, and a battery value
    /// that cannot be read counts as zero.
    pub open spec fn at_start(battery_value: Seq<u8>, settings: DeviceSettings) -> Self {
        State {
            battery: match battery_level(battery_value) {
                Some(level) => level,
                None => 0,
            },
            intensity: Stereo { a: 0, b: 0 },
            settings: settings.constrained(),
            last_intensity_sequence: 0,
            intensity_update_pending: false,
        }
    }

    /// Return the state right after a connection.
    pub fn connected(battery_value: &[u8], settings: DeviceSettings) -> (state: Self)
        ensures
            state == State::at_start(battery_value@, settings),
    {
        State {
            battery: match parse_battery_payload(battery_value) {
                Some(level) => level,
                None => 0,
            },
            intensity: Stereo { a: 0, b: 0 },
            settings: settings.normalized(),
            last_intensity_sequence: 0,
            intensity_update_pending: false,
        }
    }

    /// This state, with the waiting flag taken from the exchange.
    pub open spec fn mirroring(self, handshake: Handshake) -> Self {
        State { intensity_update_pending: handshake.unanswered is Some, ..self }
    }

    /// This state after a notification, with the exchange as the notification left it.
    pub open spec fn after_notification(
        self,
        handshake: Handshake,
        notification: Notification,
    ) -> Self {
        match notification {
            Notification::IntensityChange { serial, intensity } => State {
                intensity,
                last_intensity_sequence: serial,
                ..self
            }.mirroring(handshake),
            Notification::DeviceSettingsChange(_) => self,
        }
    }
}

impl Handshake {
    /// The exchange after a notification.
    pub open spec fn after_notification(self, notification: Notification) -> Self {
        match notification {
            Notification::IntensityChange { serial, .. } => self.after_answer(serial),
            Notification::DeviceSettingsChange(_) => self,
        }
    }
}

/// Take in a notification: an intensity report answers the unanswered change where the numbers
/// match; a settings report is ignored.
pub fn apply_protocol_notification(
    state: &mut State,
    sequencer: &mut IntensitySequencer,
    notification: Notification,
)
    ensures
        final(sequencer)@ == old(sequencer)@.after_notification(notification),
        *final(state) == old(state).after_notification(final(sequencer)@, notification),
{
    match notification {
        Notification::IntensityChange { serial, intensity } => {
            let _ = sequencer.acknowledge(serial);
            state.intensity = intensity;
            state.last_intensity_sequence = serial;
            state.intensity_update_pending = sequencer.is_waiting();
        },
        Notification::DeviceSettingsChange(_) => {},
    }
}

/// What became of a notification.
#[derive(Clone, Copy, Debug, PartialEq, Eq, Structural)]
pub enum NotificationOutcome {
    /// It was taken in.
    Applied,
    /// The value of the notify characteristic makes no sense.
    InvalidNotification,
    /// The value of the battery characteristic makes no sense.
    InvalidBattery,
    /// It came from a characteristic that is not listened to.
    UnknownCharacteristic,
}

/// Take in the value that the characteristic `uuid` notifies of.
pub fn handle_notification(
    state: &mut State,
    sequencer: &mut IntensitySequencer,
    uuid: u128,
    value: &[u8],
) -> (outcome: NotificationOutcome)
    ensures
        if uuid == NOTIFY_CHARACTERISTIC_UUID {
            match Notification::reported(value@) {
                Some(notification) => {
                    &&& outcome == NotificationOutcome::Applied
                    &&& final(sequencer)@ == old(sequencer)@.after_notification(notification)
                    &&& *final(state) == old(state).after_notification(
                        final(sequencer)@,
                        notification,
                    )
                },
                None => {
                    &&& outcome == NotificationOutcome::InvalidNotification
                    &&& final(sequencer)@ == old(sequencer)@
                    &&& *final(state) == *old(state)
                },
            }
        } else if uuid == BATTERY_CHARACTERISTIC_UUID {
            &&& final(sequencer)@ == old(sequencer)@
            &&& match battery_level(value@) {
                Some(battery) => {
                    &&& outcome == NotificationOutcome::Applied
                    &&& *final(state) == (State { battery, ..*old(state) })
                },
                None => {
                    &&& outcome == NotificationOutcome::InvalidBattery
                    &&& *final(state) == *old(state)
                },
            }
        } else {
            &&& outcome == NotificationOutcome::UnknownCharacteristic
            &&& final(sequencer)@ == old(sequencer)@
            &&& *final(state) == *old(state)
        },
{
    if uuid == NOTIFY_CHARACTERISTIC_UUID {
        match parse_notification(value) {
            Some(notification) => {
                apply_protocol_notification(state, sequencer, notification);
                NotificationOutcome::Applied
            },
            None => NotificationOutcome::InvalidNotification,
        }
    } else if uuid == BATTERY_CHARACTERISTIC_UUID {
        match parse_battery_payload(value) {
            Some(battery) => {
                state.battery = battery;
                NotificationOutcome::Applied
            },
            None => NotificationOutcome::InvalidBattery,
        }
    } else {
        NotificationOutcome::UnknownCharacteristic
    }
}

/// Number the intensity change of the next frame and build the frame.
///
/// The frame is then written; where that fails, [`rollback_wire_pulses`] takes the change back.
pub fn prepare_wire_pulses(
    state: &mut State,
    sequencer: &mut IntensitySequencer,
    intensity: Stereo<IntensityChange>,
    pulses: [[u8; 4]; 4],
) -> (frame: B0Frame)
    ensures
        frame == (B0Frame { intensity: old(sequencer)@.prepared(intensity), pulses }),
        final(sequencer)@ == old(sequencer)@.after_prepare(intensity),
        *final(state) == old(state).mirroring(final(sequencer)@),
{
    let prepared = sequencer.prepare(intensity);
    state.intensity_update_pending = sequencer.is_waiting();
    B0Frame { intensity: prepared, pulses }
}

/// Take back the intensity change of a frame that could not be written.
pub fn rollback_wire_pulses(
    state: &mut State,
    sequencer: &mut IntensitySequencer,
    prepared: PreparedIntensity,
)
    ensures
        final(sequencer)@ == old(sequencer)@.after_rollback(prepared),
        *final(state) == old(state).mirroring(final(sequencer)@),
{
    sequencer.rollback(prepared);
    state.intensity_update_pending = sequencer.is_waiting();
}

/// Note the settings that were written to the device.
pub fn settings_written(state: &mut State, settings: DeviceSettings)
    ensures
        *final(state) == (State { settings: settings.constrained(), ..*old(state) }),
{
    state.settings = settings.normalized();
}

/// The packet that sets the color of the eye indicator.
pub fn eye_color_packet(color: LedColor) -> (packet: [u8; 17])
    ensures
        packet@ == seq![0x50, color.code(), 0, 0, 0, 0, 0, 0, 0, 0, 0, 0, 0, 0, 0, 0, 0],
{
    [0x50, color.raw(), 0, 0, 0, 0, 0, 0, 0, 0, 0, 0, 0, 0, 0, 0, 0]
}

// Laws.

impl State {
    /// The waiting flag tells whether a change is unanswered.
    pub open spec fn mirrors(self, handshake: Handshake) -> bool {
        self.intensity_update_pending == (handshake.unanswered is Some)
    }
}

/// Everything that changes the state leaves the waiting flag telling whether a change is
/// unanswered: sending a frame, failing to send one, every notification, a new battery level and
/// new settings. A new connection starts with the flag down and nothing unanswered.
pub proof fn waiting_flag_is_kept(
    state: State,
    handshake: Handshake,
    intensity: Stereo<IntensityChange>,
    prepared: PreparedIntensity,
    notification: Notification,
    battery: u8,
    battery_value: Seq<u8>,
    settings: DeviceSettings,
)
    requires
        state.mirrors(handshake),
    ensures
        (State { battery, ..state }).mirrors(handshake),
        (State { settings: settings.constrained(), ..state }).mirrors(handshake),
        !State::at_start(battery_value, settings).intensity_update_pending,
        state.mirroring(handshake.after_prepare(intensity)).mirrors(
            handshake.after_prepare(intensity),
        ),
        state.mirroring(handshake.after_rollback(prepared)).mirrors(
            handshake.after_rollback(prepared),
        ),
        state.after_notification(
            handshake.after_notification(notification),
            notification,
        ).mirrors(handshake.after_notification(notification)),
{
}

/// A notification changes neither the settings nor the battery level of the state; a settings
/// notification changes nothing at all.
pub proof fn notifications_keep_the_settings(
    state: State,
    handshake: Handshake,
    notification: Notification,
)
    ensures
        state.after_notification(handshake, notification).settings == state.settings,
        state.after_notification(handshake, notification).battery == state.battery,
        notification is DeviceSettingsChange ==> state.after_notification(handshake, notification)
            == state && handshake.after_notification(notification) == handshake,
{
}

/// Settings are read back from a `0xBE` notification that carries their bytes.
pub proof fn settings_round_trip(settings: DeviceSettings)
    ensures
        Notification::reported(seq![0xbeu8] + settings.encoded()) == Some(
            Notification::DeviceSettingsChange(settings),
        ),
{
}

} // verus!
