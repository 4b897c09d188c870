//! The numbers that the `libc` crate gives to the terminal interface.
//!
//! They are those of Linux on the architectures that share the generic terminal layout: x86,
//! x86_64, arm, aarch64, riscv and s390x.
use vstd::prelude::*;

verus! {

/// The codes of the speeds up to 38,400 baud. As an input speed, `b0` stands for the output
/// speed.
pub struct StandardSpeeds {
    pub b0: u32,
    pub b50: u32,
    pub b75: u32,
    pub b110: u32,
    pub b134: u32,
    pub b150: u32,
    pub b200: u32,
    pub b300: u32,
    pub b600: u32,
    pub b1200: u32,
    pub b1800: u32,
    pub b2400: u32,
    pub b4800: u32,
    pub b9600: u32,
    pub b19200: u32,
    pub b38400: u32,
}

/// The codes count up from zero.
pub open spec fn standard_codes() -> StandardSpeeds {
    StandardSpeeds {
        b0: 0,
        b50: 1,
        b75: 2,
        b110: 3,
        b134: 4,
        b150: 5,
        b200: 6,
        b300: 7,
        b600: 8,
        b1200: 9,
        b1800: 10,
        b2400: 11,
        b4800: 12,
        b9600: 13,
        b19200: 14,
        b38400: 15,
    }
}

/// Reads the constants `libc::B0`, `libc::B50` and so on up to `libc::B38400`. The contract claims
/// the number of each.
#[verifier::external_body]
pub(crate) fn standard_speeds() -> (found: StandardSpeeds)
    ensures
        found == standard_codes(),
{
    StandardSpeeds {
        b0: libc::B0, b50: libc::B50, b75: libc::B75,
        b110: libc::B110, b134: libc::B134, b150: libc::B150,
        b200: libc::B200, b300: libc::B300, b600: libc::B600,
        b1200: libc::B1200, b1800: libc::B1800, b2400: libc::B2400,
        b4800: libc::B4800, b9600: libc::B9600, b19200: libc::B19200,
        b38400: libc::B38400,
    }
}

/// The codes of the speeds from 57,600 baud on.
pub struct ExtendedSpeeds {
    pub b57600: u32,
    pub b115200: u32,
    pub b230400: u32,
    pub b460800: u32,
    pub b500000: u32,
    pub b576000: u32,
    pub b921600: u32,
    pub b1000000: u32,
    pub b1152000: u32,
    pub b1500000: u32,
    pub b2000000: u32,
    pub b2500000: u32,
    pub b3000000: u32,
    pub b3500000: u32,
    pub b4000000: u32,
}

/// The codes count up from 1 behind a bit that marks the extended speeds.
pub open spec fn extended_codes() -> ExtendedSpeeds {
    ExtendedSpeeds {
        b57600: 0x1001,
        b115200: 0x1002,
        b230400: 0x1003,
        b460800: 0x1004,
        b500000: 0x1005,
        b576000: 0x1006,
        b921600: 0x1007,
        b1000000: 0x1008,
        b1152000: 0x1009,
        b1500000: 0x100a,
        b2000000: 0x100b,
        b2500000: 0x100c,
        b3000000: 0x100d,
        b3500000: 0x100e,
        b4000000: 0x100f,
    }
}

/// Reads the constants `libc::B57600`, `libc::B115200` and so on up to `libc::B4000000`. The
/// contract claims the number of each.
#[verifier::external_body]
pub(crate) fn extended_speeds() -> (found: ExtendedSpeeds)
    ensures
        found == extended_codes(),
{
    ExtendedSpeeds {
        b57600: libc::B57600, b115200: libc::B115200, b230400: libc::B230400,
        b460800: libc::B460800, b500000: libc::B500000, b576000: libc::B576000,
        b921600: libc::B921600, b1000000: libc::B1000000, b1152000: libc::B1152000,
        b1500000: libc::B1500000, b2000000: libc::B2000000, b2500000: libc::B2500000,
        b3000000: libc::B3000000, b3500000: libc::B3500000, b4000000: libc::B4000000,
    }
}

/// Bits of the control modes, the `c_cflag` word.
pub struct ControlFlags {
    pub cbaud: u32,
    pub csize: u32,
    pub cs5: u32,
    pub cs6: u32,
    pub cs7: u32,
    pub cs8: u32,
    pub cstopb: u32,
    pub cread: u32,
    pub parenb: u32,
    pub parodd: u32,
    pub clocal: u32,
    pub crtscts: u32,
}

/// The control modes as the kernel numbers them.
pub open spec fn cflags() -> ControlFlags {
    ControlFlags {
        cbaud: 0x100f,
        csize: 0x30,
        cs5: 0,
        cs6: 0x10,
        cs7: 0x20,
        cs8: 0x30,
        cstopb: 0x40,
        cread: 0x80,
        parenb: 0x100,
        parodd: 0x200,
        clocal: 0x800,
        crtscts: 0x8000_0000,
    }
}

/// Reads the constants of `libc` of the same names, in capitals. The contract claims the number of
/// each.
#[verifier::external_body]
pub(crate) fn control_flags() -> (found: ControlFlags)
    ensures
        found == cflags(),
{
    ControlFlags {
        cbaud: libc::CBAUD, csize: libc::CSIZE,
        cs5: libc::CS5, cs6: libc::CS6,
        cs7: libc::CS7, cs8: libc::CS8,
        cstopb: libc::CSTOPB, cread: libc::CREAD,
        parenb: libc::PARENB, parodd: libc::PARODD,
        clocal: libc::CLOCAL, crtscts: libc::CRTSCTS,
    }
}

/// Bits of the input modes, the `c_iflag` word.
pub struct InputFlags {
    pub ignbrk: u32,
    pub ignpar: u32,
    pub inpck: u32,
    pub inlcr: u32,
    pub igncr: u32,
    pub icrnl: u32,
    pub ixon: u32,
    pub ixoff: u32,
}

/// The input modes as the kernel numbers them.
pub open spec fn iflags() -> InputFlags {
    InputFlags {
        ignbrk: 0x1,
        ignpar: 0x4,
        inpck: 0x10,
        inlcr: 0x40,
        igncr: 0x80,
        icrnl: 0x100,
        ixon: 0x400,
        ixoff: 0x1000,
    }
}

/// Reads the constants of `libc` of the same names, in capitals. The contract claims the number of
/// each.
#[verifier::external_body]
pub(crate) fn input_flags() -> (found: InputFlags)
    ensures
        found == iflags(),
{
    InputFlags {
        ignbrk: libc::IGNBRK, ignpar: libc::IGNPAR,
        inpck: libc::INPCK, inlcr: libc::INLCR,
        igncr: libc::IGNCR, icrnl: libc::ICRNL,
        ixon: libc::IXON, ixoff: libc::IXOFF,
    }
}

/// Bits of the output modes, the `c_oflag` word.
pub struct OutputFlags {
    pub opost: u32,
}

/// The output modes as the kernel numbers them.
pub open spec fn oflags() -> OutputFlags {
    OutputFlags {
        opost: 0x1,
    }
}

/// Reads the constant `libc::OPOST`. The contract claims its number.
#[verifier::external_body]
pub(crate) fn output_flags() -> (found: OutputFlags)
    ensures
        found == oflags(),
{
    OutputFlags {
        opost: libc::OPOST,
    }
}

/// Bits of the local modes, the `c_lflag` word.
pub struct LocalFlags {
    pub isig: u32,
    pub icanon: u32,
    pub echo: u32,
    pub echoe: u32,
    pub echok: u32,
    pub echonl: u32,
    pub iexten: u32,
}

/// The local modes as the kernel numbers them.
pub open spec fn lflags() -> LocalFlags {
    LocalFlags {
        isig: 0x1,
        icanon: 0x2,
        echo: 0x8,
        echoe: 0x10,
        echok: 0x20,
        echonl: 0x40,
        iexten: 0x8000,
    }
}

/// Reads the constants of `libc` of the same names, in capitals. The contract claims the number of
/// each.
#[verifier::external_body]
pub(crate) fn local_flags() -> (found: LocalFlags)
    ensures
        found == lflags(),
{
    LocalFlags {
        isig: libc::ISIG, icanon: libc::ICANON,
        echo: libc::ECHO, echoe: libc::ECHOE,
        echok: libc::ECHOK, echonl: libc::ECHONL,
        iexten: libc::IEXTEN,
    }
}

/// Places in the array of control characters, `c_cc`.
pub struct ControlChars {
    pub vtime: usize,
    pub vmin: usize,
}

/// The places as the kernel numbers them.
pub open spec fn cc_places() -> ControlChars {
    ControlChars {
        vtime: 5,
        vmin: 6,
    }
}

/// Reads the constants `libc::VTIME` and `libc::VMIN`. The contract claims the number of each.
#[verifier::external_body]
pub(crate) fn control_chars() -> (found: ControlChars)
    ensures
        found == cc_places(),
{
    ControlChars {
        vtime: libc::VTIME,
        vmin: libc::VMIN,
    }
}

/// Bits of the modem lines.
pub struct ModemLines {
    pub dtr: i32,
    pub rts: i32,
    pub cts: i32,
    pub cd: i32,
    pub ri: i32,
    pub dsr: i32,
}

/// The modem lines as the kernel numbers them.
pub open spec fn modem_bits() -> ModemLines {
    ModemLines {
        dtr: 0x2,
        rts: 0x4,
        cts: 0x20,
        cd: 0x40,
        ri: 0x80,
        dsr: 0x100,
    }
}

/// Reads the constants `libc::TIOCM_DTR`, `libc::TIOCM_RTS` and so on. The contract claims the
/// number of each.
#[verifier::external_body]
pub(crate) fn modem_lines() -> (found: ModemLines)
    ensures
        found == modem_bits(),
{
    ModemLines {
        dtr: libc::TIOCM_DTR,
        rts: libc::TIOCM_RTS,
        cts: libc::TIOCM_CTS,
        cd: libc::TIOCM_CD,
        ri: libc::TIOCM_RI,
        dsr: libc::TIOCM_DSR,
    }
}

/// Requests of `ioctl`.
pub struct Requests {
    pub tiocexcl: u64,
    pub tiocnxcl: u64,
    pub tiocmget: u64,
    pub tiocmbis: u64,
    pub tiocmbic: u64,
}

/// The requests as the kernel numbers them.
pub open spec fn request_codes() -> Requests {
    Requests {
        tiocexcl: 0x540c,
        tiocnxcl: 0x540d,
        tiocmget: 0x5415,
        tiocmbis: 0x5416,
        tiocmbic: 0x5417,
    }
}

/// Reads the constants of `libc` of the same names, in capitals. The contract claims the number of
/// each.
#[verifier::external_body]
pub(crate) fn requests() -> (found: Requests)
    ensures
        found == request_codes(),
{
    Requests {
        tiocexcl: libc::TIOCEXCL as u64,
        tiocnxcl: libc::TIOCNXCL as u64,
        tiocmget: libc::TIOCMGET as u64,
        tiocmbis: libc::TIOCMBIS as u64,
        tiocmbic: libc::TIOCMBIC as u64,
    }
}

/// Arguments of `open`, `fcntl` and `tcflush`.
pub struct FileCodes {
    pub o_rdwr: i32,
    pub o_noctty: i32,
    pub o_nonblock: i32,
    pub f_setfl: i32,
    pub tcioflush: i32,
}

/// The arguments as the kernel numbers them.
pub open spec fn file_numbers() -> FileCodes {
    FileCodes {
        o_rdwr: 0x2,
        o_noctty: 0x100,
        o_nonblock: 0x800,
        f_setfl: 4,
        tcioflush: 2,
    }
}

/// Reads the constants of `libc` of the same names, in capitals. The contract claims the number of
/// each.
#[verifier::external_body]
pub(crate) fn file_codes() -> (found: FileCodes)
    ensures
        found == file_numbers(),
{
    FileCodes {
        o_rdwr: libc::O_RDWR,
        o_noctty: libc::O_NOCTTY,
        o_nonblock: libc::O_NONBLOCK,
        f_setfl: libc::F_SETFL,
        tcioflush: libc::TCIOFLUSH,
    }
}

/// Error numbers of the operating system.
pub struct ErrorNumbers {
    pub enoent: i32,
    pub eio: i32,
    pub enxio: i32,
    pub eacces: i32,
    pub ebusy: i32,
    pub enodev: i32,
    pub enotdir: i32,
    pub eisdir: i32,
    pub einval: i32,
    pub epipe: i32,
    pub enametoolong: i32,
    pub eloop: i32,
    pub etimedout: i32,
}

/// The errors as the kernel numbers them.
pub open spec fn errnos() -> ErrorNumbers {
    ErrorNumbers {
        enoent: 2,
        eio: 5,
        enxio: 6,
        eacces: 13,
        ebusy: 16,
        enodev: 19,
        enotdir: 20,
        eisdir: 21,
        einval: 22,
        epipe: 32,
        enametoolong: 36,
        eloop: 40,
        etimedout: 110,
    }
}

/// Reads the constants of `libc` of the same names, in capitals. The contract claims the number of
/// each.
#[verifier::external_body]
pub(crate) fn error_numbers() -> (found: ErrorNumbers)
    ensures
        found == errnos(),
{
    ErrorNumbers {
        enoent: libc::ENOENT, eio: libc::EIO, enxio: libc::ENXIO,
        eacces: libc::EACCES, ebusy: libc::EBUSY, enodev: libc::ENODEV,
        enotdir: libc::ENOTDIR, eisdir: libc::EISDIR, einval: libc::EINVAL,
        epipe: libc::EPIPE, enametoolong: libc::ENAMETOOLONG, eloop: libc::ELOOP,
        etimedout: libc::ETIMEDOUT,
    }
}

/// Events of `poll`.
pub struct PollEvents {
    pub pollin: i16,
    pub pollout: i16,
    pub pollerr: i16,
    pub pollhup: i16,
}

/// The events as the kernel numbers them.
pub open spec fn poll_bits() -> PollEvents {
    PollEvents {
        pollin: 0x1,
        pollout: 0x4,
        pollerr: 0x8,
        pollhup: 0x10,
    }
}

/// Reads the constants `libc::POLLIN`, `libc::POLLOUT`, `libc::POLLERR` and `libc::POLLHUP`. The
/// contract claims the number of each.
#[verifier::external_body]
pub(crate) fn poll_events() -> (found: PollEvents)
    ensures
        found == poll_bits(),
{
    PollEvents {
        pollin: libc::POLLIN,
        pollout: libc::POLLOUT,
        pollerr: libc::POLLERR,
        pollhup: libc::POLLHUP,
    }
}

} // verus!
