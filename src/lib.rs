//! Control core of a USB-PD powered, digitally regulated bench supply:
//! register encodings for the PD sink controller and the buck-boost
//! regulator, the output supervisor, and the watchdog ticket aggregator.

pub mod config;
pub mod executor;
pub mod net;
pub mod pd;
pub mod record;
pub mod serial;
pub mod stats;
pub mod storage;
pub mod stusb4500;
pub mod supervisor;
pub mod tps55289;
pub mod transport;
pub mod units;
pub mod watchdog;

pub use config::{Settings, SettingsBuilder};
pub use supervisor::{Actions, RegulatorTarget, State, Supervisor};
pub use tps55289::{IntFB, OperatingStatus, OutputMode, Status, VRef};
pub use units::{Milliamps, Millivolts, Nanovolts};
pub use watchdog::{Watchdog, WatchdogTicket};
