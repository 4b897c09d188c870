//! The parameters of a serial line.
use vstd::prelude::*;

verus! {

/// A transmission speed in bits per second.
#[derive(Debug, Copy, Clone, PartialEq, Eq, Structural)]
pub enum BaudRate {
    /// 110 baud.
    Baud110,
    /// 300 baud.
    Baud300,
    /// 600 baud.
    Baud600,
    /// 1200 baud.
    Baud1200,
    /// 2400 baud.
    Baud2400,
    /// 4800 baud.
    Baud4800,
    /// 9600 baud.
    Baud9600,
    /// 19,200 baud.
    Baud19200,
    /// 38,400 baud.
    Baud38400,
    /// 57,600 baud.
    Baud57600,
    /// 115,200 baud.
    Baud115200,
    /// A speed that has no name of its own here.
    BaudOther(usize),
}

/// The number of bits in a character.
#[derive(Debug, Copy, Clone, PartialEq, Eq, Structural)]
pub enum CharSize {
    /// Five bits.
    Bits5,
    /// Six bits.
    Bits6,
    /// Seven bits.
    Bits7,
    /// Eight bits.
    Bits8,
}

/// The parity bit that follows each character.
#[derive(Debug, Copy, Clone, PartialEq, Eq, Structural)]
pub enum Parity {
    /// No parity bit.
    ParityNone,
    /// A bit that makes the number of ones odd.
    ParityOdd,
    /// A bit that makes the number of ones even.
    ParityEven,
}

/// The number of stop bits after each character.
#[derive(Debug, Copy, Clone, PartialEq, Eq, Structural)]
pub enum StopBits {
    /// One stop bit.
    Stop1,
    /// Two stop bits.
    Stop2,
}

/// How the two ends of the line hold each other up.
#[derive(Debug, Copy, Clone, PartialEq, Eq, Structural)]
pub enum FlowControl {
    /// Not at all.
    FlowNone,
    /// With XON and XOFF characters.
    FlowSoftware,
    /// With the RTS and CTS lines.
    FlowHardware,
}

} // verus!
