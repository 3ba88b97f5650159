//! Serial port access that does not depend on an operating system's own
//! configuration structures: a fixed vocabulary of settings, an error model,
//! the operations a platform device provides, and a read-modify-write
//! protocol that applies settings to a device.

use vstd::prelude::*;

pub mod error;
pub mod port;
pub mod settings;

pub use error::{Error, ErrorKind};
pub use port::{SerialDevice, SerialPort, SettingsMutator, apply_settings};
pub use settings::{
    BaudRate,
    CharSize,
    FlowControl,
    Parity,
    PortSettings,
    SerialPortSettings,
    SettingsView,
    StopBits,
};

verus! {

/// The result of an operation on a serial port.
pub type Result<T> = std::result::Result<T, Error>;

} // verus!
