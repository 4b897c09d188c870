//! Serial ports on terminal devices.
//!
//! `TTYSettings` holds the state of a terminal device and reads and writes the parameters of its
//! serial line. `TTYPort` says which system calls open a device, read and write its settings,
//! drive its modem lines, move bytes and close it again, and what their replies come to. The
//! calls themselves are made by the program around the library.

pub mod bits;
pub mod call;
pub mod error;
pub mod line;
pub mod platform;
pub mod port;
pub mod port_effects;
pub mod port_laws;
pub mod rate_laws;
pub mod settings;
pub mod settings_effects;
pub mod settings_laws;
pub mod speed;
pub mod text;
pub mod wait;

pub use call::{Call, Reply};
pub use error::{Error, ErrorKind};
pub use line::{BaudRate, CharSize, FlowControl, Parity, StopBits};
pub use port::{
    Closing, DataCall, OpenRequest, OpenStep, Opening, PinRead, SettingsWrite, TTYPort, Transfer,
    WriteStep,
};
pub use settings::{TTYSettings, Termios};
pub use wait::Wait;
