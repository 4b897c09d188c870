//! System calls that port operations ask for, and their replies.
use vstd::prelude::*;

use crate::error::Error;
use crate::settings::Termios;

verus! {

/// A system call to make on behalf of a port.
#[derive(Debug, Copy, Clone, PartialEq, Eq)]
pub enum Call {
    /// `fcntl(fd, command, argument)`.
    Fcntl { fd: i32, command: i32, argument: i32 },
    /// `ioctl(fd, request)`.
    Ioctl { fd: i32, request: u64 },
    /// `ioctl(fd, request, &value)`, which reads the value.
    PutInt { fd: i32, request: u64, value: i32 },
    /// `ioctl(fd, request, &mut value)`, which fills the value of the reply.
    GetInt { fd: i32, request: u64 },
    /// `ioctl(fd, request, &termios)`, which reads the state.
    PutTermios { fd: i32, request: u64, termios: Termios },
    /// `ioctl(fd, request, &mut termios)`, which fills the state of the reply.
    GetTermios { fd: i32, request: u64 },
    /// `tcflush(fd, queue)`.
    Discard { fd: i32, queue: i32 },
    /// `tcdrain(fd)`.
    Drain { fd: i32 },
    /// `close(fd)`.
    Close { fd: i32 },
}

/// What a system call came back with.
#[derive(Debug, Copy, Clone, PartialEq, Eq)]
pub struct Reply {
    /// The value that the call returned. A negative one means that it failed.
    pub ret: i32,
    /// The number of the error, if the call failed.
    pub errno: i32,
    /// The number that the call filled in, if it fills in one.
    pub value: i32,
    /// The state that the call filled in, if it fills in one.
    pub termios: Termios,
}

impl Reply {
    /// Whether the call failed.
    pub open spec fn failed(self) -> bool {
        self.ret < 0
    }

    /// The error of a call that failed.
    pub open spec fn error(self) -> Error {
        Error { errno: self.errno }
    }

    /// Success, or the error with which the call failed.
    pub fn status(&self) -> (result: Result<(), Error>)
        ensures
            result == if self.failed() {
                Err::<(), Error>(self.error())
            } else {
                Ok::<(), Error>(())
            },
    {
        if self.ret < 0 {
            return Err(Error::from_raw_os_error(self.errno));
        }
        Ok(())
    }
}

/// A call has failed if and only if it returned a negative value, and its error is then the one
/// that was set.
pub proof fn law_status_by_sign(reply: Reply, result: Result<(), Error>)
    requires
        call_ensures(Reply::status, (&reply,), result),
    ensures
        result is Err <==> reply.ret < 0,
        result matches Err(error) ==> error.errno == reply.errno,
{
}

} // verus!
