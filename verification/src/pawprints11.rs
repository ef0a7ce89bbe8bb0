//! Protocol of the DG-LAB PawPrints V1.1.

pub mod accel;
pub mod buttons;
pub mod command;
pub mod connect;
pub mod event;
pub mod event_id;
pub mod laws;
pub mod settings;

pub use accel::{AxisComparison, AxisDirection, RawAccel};
pub use buttons::PawButtons;
pub use command::{Command, FlashSpeed, ShoulderColor};
pub use connect::{
    begin, is_device_name, supported_write_type, WriteType, DEVICE_NAME, WRITE,
    WRITE_WITHOUT_RESPONSE,
};
pub use event::{convert_range, DetectedRange, PawPrintsEvent};
pub use event_id::EventId;
pub use settings::{
    validate_debounce, AngleRange, ButtonEdge, ButtonTrigger, CombinedTrigger, ExternalVoltage,
    MainColor, MotionTrigger, ProbabilityEvent, RandomReaction, Settings, ThresholdComparison,
    TriggerMode, VoltageInputMode,
};
