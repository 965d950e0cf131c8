//! Decision logic of a low-battery monitor.
//!
//! The crate decides; it performs no input or output. A driver asks the power
//! service and the desktop for what the types here request, and hands the
//! answers back as plain values.

pub mod battery;
pub mod battery_manager;
pub mod decimal;
pub mod monitor;
pub mod notification;
pub mod percentage;
pub mod service_state;

pub use battery::{Battery, BatteryState};
pub use battery_manager::{BatteryManager, DeviceEvent, DeviceRequest, SampleError};
pub use monitor::{BatteryMonitor, Tick};
pub use notification::{Notification, Timeout, Urgency};
pub use percentage::Percentage;
pub use service_state::ServiceState;
