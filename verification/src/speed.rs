//! The codes by which a terminal names its speed.
use vstd::prelude::*;

use crate::line::BaudRate;
use crate::platform;

verus! {

/// The code of a rate, if the terminal interface has one. A rate that has a name of its own is
/// written by that name only: `BaudOther(9600)` has no code.
pub open spec fn speed_code(rate: BaudRate) -> Option<u32> {
    let standard = platform::standard_codes();
    let extended = platform::extended_codes();
    match rate {
        BaudRate::BaudOther(50) => Some(standard.b50),
        BaudRate::BaudOther(75) => Some(standard.b75),
        BaudRate::Baud110 => Some(standard.b110),
        BaudRate::BaudOther(134) => Some(standard.b134),
        BaudRate::BaudOther(150) => Some(standard.b150),
        BaudRate::BaudOther(200) => Some(standard.b200),
        BaudRate::Baud300 => Some(standard.b300),
        BaudRate::Baud600 => Some(standard.b600),
        BaudRate::Baud1200 => Some(standard.b1200),
        BaudRate::BaudOther(1800) => Some(standard.b1800),
        BaudRate::Baud2400 => Some(standard.b2400),
        BaudRate::Baud4800 => Some(standard.b4800),
        BaudRate::Baud9600 => Some(standard.b9600),
        BaudRate::Baud19200 => Some(standard.b19200),
        BaudRate::Baud38400 => Some(standard.b38400),
        BaudRate::Baud57600 => Some(extended.b57600),
        BaudRate::Baud115200 => Some(extended.b115200),
        BaudRate::BaudOther(230400) => Some(extended.b230400),
        BaudRate::BaudOther(460800) => Some(extended.b460800),
        BaudRate::BaudOther(500000) => Some(extended.b500000),
        BaudRate::BaudOther(576000) => Some(extended.b576000),
        BaudRate::BaudOther(921600) => Some(extended.b921600),
        BaudRate::BaudOther(1000000) => Some(extended.b1000000),
        BaudRate::BaudOther(1152000) => Some(extended.b1152000),
        BaudRate::BaudOther(1500000) => Some(extended.b1500000),
        BaudRate::BaudOther(2000000) => Some(extended.b2000000),
        BaudRate::BaudOther(2500000) => Some(extended.b2500000),
        BaudRate::BaudOther(3000000) => Some(extended.b3000000),
        BaudRate::BaudOther(3500000) => Some(extended.b3500000),
        BaudRate::BaudOther(4000000) => Some(extended.b4000000),
        BaudRate::BaudOther(_) => None,
    }
}

/// Finds the code of a rate.
pub(crate) fn code_of_rate(rate: BaudRate) -> (code: Option<u32>)
    ensures
        code == speed_code(rate),
{
    let standard = platform::standard_speeds();
    let extended = platform::extended_speeds();
    match rate {
        BaudRate::BaudOther(50) => Some(standard.b50),
        BaudRate::BaudOther(75) => Some(standard.b75),
        BaudRate::Baud110 => Some(standard.b110),
        BaudRate::BaudOther(134) => Some(standard.b134),
        BaudRate::BaudOther(150) => Some(standard.b150),
        BaudRate::BaudOther(200) => Some(standard.b200),
        BaudRate::Baud300 => Some(standard.b300),
        BaudRate::Baud600 => Some(standard.b600),
        BaudRate::Baud1200 => Some(standard.b1200),
        BaudRate::BaudOther(1800) => Some(standard.b1800),
        BaudRate::Baud2400 => Some(standard.b2400),
        BaudRate::Baud4800 => Some(standard.b4800),
        BaudRate::Baud9600 => Some(standard.b9600),
        BaudRate::Baud19200 => Some(standard.b19200),
        BaudRate::Baud38400 => Some(standard.b38400),
        BaudRate::Baud57600 => Some(extended.b57600),
        BaudRate::Baud115200 => Some(extended.b115200),
        BaudRate::BaudOther(230400) => Some(extended.b230400),
        BaudRate::BaudOther(460800) => Some(extended.b460800),
        BaudRate::BaudOther(500000) => Some(extended.b500000),
        BaudRate::BaudOther(576000) => Some(extended.b576000),
        BaudRate::BaudOther(921600) => Some(extended.b921600),
        BaudRate::BaudOther(1000000) => Some(extended.b1000000),
        BaudRate::BaudOther(1152000) => Some(extended.b1152000),
        BaudRate::BaudOther(1500000) => Some(extended.b1500000),
        BaudRate::BaudOther(2000000) => Some(extended.b2000000),
        BaudRate::BaudOther(2500000) => Some(extended.b2500000),
        BaudRate::BaudOther(3000000) => Some(extended.b3000000),
        BaudRate::BaudOther(3500000) => Some(extended.b3500000),
        BaudRate::BaudOther(4000000) => Some(extended.b4000000),
        BaudRate::BaudOther(_) => None,
    }
}

/// Finds the rate that a code stands for.
pub(crate) fn rate_of_code(code: u32) -> (found: Option<BaudRate>)
    ensures
        forall|rate: BaudRate|
            found == Some(rate) <==> #[trigger] speed_code(rate) == Some(code),
{
    let standard = platform::standard_speeds();
    let extended = platform::extended_speeds();
    if code == standard.b50 {
        Some(BaudRate::BaudOther(50))
    } else if code == standard.b75 {
        Some(BaudRate::BaudOther(75))
    } else if code == standard.b110 {
        Some(BaudRate::Baud110)
    } else if code == standard.b134 {
        Some(BaudRate::BaudOther(134))
    } else if code == standard.b150 {
        Some(BaudRate::BaudOther(150))
    } else if code == standard.b200 {
        Some(BaudRate::BaudOther(200))
    } else if code == standard.b300 {
        Some(BaudRate::Baud300)
    } else if code == standard.b600 {
        Some(BaudRate::Baud600)
    } else if code == standard.b1200 {
        Some(BaudRate::Baud1200)
    } else if code == standard.b1800 {
        Some(BaudRate::BaudOther(1800))
    } else if code == standard.b2400 {
        Some(BaudRate::Baud2400)
    } else if code == standard.b4800 {
        Some(BaudRate::Baud4800)
    } else if code == standard.b9600 {
        Some(BaudRate::Baud9600)
    } else if code == standard.b19200 {
        Some(BaudRate::Baud19200)
    } else if code == standard.b38400 {
        Some(BaudRate::Baud38400)
    } else if code == extended.b57600 {
        Some(BaudRate::Baud57600)
    } else if code == extended.b115200 {
        Some(BaudRate::Baud115200)
    } else if code == extended.b230400 {
        Some(BaudRate::BaudOther(230400))
    } else if code == extended.b460800 {
        Some(BaudRate::BaudOther(460800))
    } else if code == extended.b500000 {
        Some(BaudRate::BaudOther(500000))
    } else if code == extended.b576000 {
        Some(BaudRate::BaudOther(576000))
    } else if code == extended.b921600 {
        Some(BaudRate::BaudOther(921600))
    } else if code == extended.b1000000 {
        Some(BaudRate::BaudOther(1000000))
    } else if code == extended.b1152000 {
        Some(BaudRate::BaudOther(1152000))
    } else if code == extended.b1500000 {
        Some(BaudRate::BaudOther(1500000))
    } else if code == extended.b2000000 {
        Some(BaudRate::BaudOther(2000000))
    } else if code == extended.b2500000 {
        Some(BaudRate::BaudOther(2500000))
    } else if code == extended.b3000000 {
        Some(BaudRate::BaudOther(3000000))
    } else if code == extended.b3500000 {
        Some(BaudRate::BaudOther(3500000))
    } else if code == extended.b4000000 {
        Some(BaudRate::BaudOther(4000000))
    } else {
        None
    }
}

} // verus!
