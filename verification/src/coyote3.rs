//! Protocol of the DG-LAB Coyote 3.

pub mod channels;
pub mod connect;
pub mod frame;
pub mod intensity;
pub mod laws;
pub mod pulse;
pub mod runtime;
pub mod settings;
pub mod state;
pub mod task;
pub mod waveforms;

pub use channels::{Channel, Question, RuntimeCore};
pub use connect::{
    is_device_name, validate_characteristic_uuids, Characteristics, ConnectSetup, ConnectStep,
    DEVICE_NAME,
};
pub use frame::{B0Frame, Command};
pub use intensity::{
    Handshake, IntensityChange, IntensitySequencer, PendingIntensityChange, PreparedIntensity,
};
pub use pulse::{EncodedPulse, EncodedPulses, Pulse, Pulses};
pub use runtime::{
    ChannelRuntime, ChannelShape, DoNotChangeIntensityShape, EncodedShape, EncodedShapeContext,
    IntensityContext, IntensityShape, Shape, ShapeContext, ZeroShape,
};
pub use settings::DeviceSettings;
pub use state::{
    apply_protocol_notification, eye_color_packet, handle_notification, parse_battery_payload,
    parse_notification, prepare_wire_pulses, rollback_wire_pulses, settings_written, Notification,
    NotificationOutcome, State, BATTERY_CHARACTERISTIC_UUID, NOTIFY_CHARACTERISTIC_UUID,
    WRITE_CHARACTERISTIC_UUID,
};
pub use task::{RuntimeEvent, RuntimeStep, StateCallbackSlot, TaskGuard, FRAME_PERIOD_MS};
pub use waveforms::{Breathing, TableShape, Tidal, BREATHING_FRAMES, TIDAL_FRAMES};
