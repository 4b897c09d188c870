//! Errors of port operations.
use vstd::prelude::*;

use crate::platform;

verus! {

/// What went wrong, as far as a caller can act on it.
#[derive(Debug, Copy, Clone, PartialEq, Eq, Structural)]
pub enum ErrorKind {
    /// The device could not be opened, or is in use.
    NoDevice,
    /// An argument has no meaning for the device.
    InvalidInput,
    /// Any other failure.
    Io,
}

/// A failure that the operating system reported, or would have reported.
#[derive(Debug, Copy, Clone, PartialEq, Eq, Structural)]
pub struct Error {
    /// The number of the error.
    pub errno: i32,
}

/// Whether the error says that there is no device to be had.
pub open spec fn means_no_device(errno: i32) -> bool {
    let e = platform::errnos();
    ||| errno == e.ebusy
    ||| errno == e.eisdir
    ||| errno == e.eloop
    ||| errno == e.enotdir
    ||| errno == e.enoent
    ||| errno == e.enodev
    ||| errno == e.enxio
    ||| errno == e.eacces
}

/// Whether the error says that an argument was not valid.
pub open spec fn means_invalid_input(errno: i32) -> bool {
    errno == platform::errnos().einval || errno == platform::errnos().enametoolong
}

impl Error {
    /// The error for an argument that is not valid.
    pub open spec fn invalid() -> Error {
        Error { errno: platform::errnos().einval }
    }

    /// The error with the given number.
    pub fn from_raw_os_error(errno: i32) -> (error: Error)
        ensures
            error == (Error { errno }),
    {
        Error { errno }
    }

    /// The number of the error.
    pub fn raw_os_error(&self) -> (errno: i32)
        ensures
            errno == self.errno,
    {
        self.errno
    }

    /// The kind of the error.
    pub fn kind(&self) -> (kind: ErrorKind)
        ensures
            kind is NoDevice <==> means_no_device(self.errno),
            kind is InvalidInput <==> means_invalid_input(self.errno),
            kind is Io <==> !means_no_device(self.errno) && !means_invalid_input(self.errno),
    {
        let e = platform::error_numbers();
        let n: i32 = self.errno;
        if n == e.ebusy || n == e.eisdir || n == e.eloop || n == e.enotdir || n == e.enoent || n
            == e.enodev || n == e.enxio || n == e.eacces {
            ErrorKind::NoDevice
        } else if n == e.einval || n == e.enametoolong {
            ErrorKind::InvalidInput
        } else {
            ErrorKind::Io
        }
    }
}

/// No error is of two kinds, and an argument that is refused without a call counts as invalid.
pub proof fn law_kinds_are_exclusive(errno: i32)
    ensures
        !(means_no_device(errno) && means_invalid_input(errno)),
        means_invalid_input(Error::invalid().errno),
{
}

/// The kind of an error by its number, for each of the three kinds.
pub proof fn law_kind_by_number(error: Error, kind: ErrorKind)
    requires
        call_ensures(Error::kind, (&error,), kind),
    ensures
        ({
            let e = platform::errnos();
            let devices = set![
                e.enoent,
                e.enxio,
                e.eacces,
                e.ebusy,
                e.enodev,
                e.enotdir,
                e.eisdir,
                e.eloop,
            ];
            let arguments = set![e.einval, e.enametoolong];
            &&& kind == ErrorKind::NoDevice <==> devices.contains(error.errno)
            &&& kind == ErrorKind::InvalidInput <==> arguments.contains(error.errno)
            &&& kind == ErrorKind::Io <==> !devices.contains(error.errno) && !arguments.contains(
                error.errno,
            )
        }),
{
}

/// The number that an error is made of is the number that it gives back.
pub proof fn law_number_reads_back(errno: i32, error: Error, read: i32)
    requires
        call_ensures(Error::from_raw_os_error, (errno,), error),
        call_ensures(Error::raw_os_error, (&error,), read),
    ensures
        read == errno,
{
}

} // verus!
