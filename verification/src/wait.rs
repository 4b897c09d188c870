//! Waiting for a device.
use std::time::Duration;
use vstd::prelude::*;

use crate::error::Error;
use crate::platform;

verus! {

/// A wait for a device: `poll` on one descriptor.
#[derive(Debug, Copy, Clone, PartialEq, Eq)]
pub struct Wait {
    /// The descriptor of the device.
    pub fd: i32,
    /// The events that end the wait.
    pub events: i16,
    /// How long to wait at most.
    pub timeout: Duration,
}

/// What a wait comes to, by what `poll` returned and, where it found something, the events that
/// it found. Nothing found means that the time was up. Of events that were not asked for, an
/// error or a hang-up means that the device is gone.
pub open spec fn after_wait(
    events: i16,
    found: i32,
    errno: i32,
    revents: i16,
) -> Result<(), Error> {
    let bits = platform::poll_bits();
    if found < 0 {
        Err(Error { errno })
    } else if found == 0 {
        Err(Error { errno: platform::errnos().etimedout })
    } else if revents & events != 0 {
        Ok(())
    } else if revents & (bits.pollerr | bits.pollhup) != 0 {
        Err(Error { errno: platform::errnos().epipe })
    } else {
        Err(Error { errno: platform::errnos().eio })
    }
}

impl Wait {
    /// A wait until there is something to read.
    pub fn for_read(fd: i32, timeout: Duration) -> (wait: Wait)
        ensures
            wait == (Wait { fd, events: platform::poll_bits().pollin, timeout }),
    {
        Wait { fd, events: platform::poll_events().pollin, timeout }
    }

    /// A wait until something can be written.
    pub fn for_write(fd: i32, timeout: Duration) -> (wait: Wait)
        ensures
            wait == (Wait { fd, events: platform::poll_bits().pollout, timeout }),
    {
        Wait { fd, events: platform::poll_events().pollout, timeout }
    }

    /// Whether the device is ready, by what `poll` came back with.
    pub fn finish(&self, found: i32, errno: i32, revents: i16) -> (result: Result<(), Error>)
        ensures
            result == after_wait(self.events, found, errno, revents),
    {
        let bits = platform::poll_events();
        let errors = platform::error_numbers();
        if found < 0 {
            return Err(Error::from_raw_os_error(errno));
        }
        if found == 0 {
            return Err(Error::from_raw_os_error(errors.etimedout));
        }
        if revents & self.events != 0 {
            return Ok(());
        }
        if revents & (bits.pollerr | bits.pollhup) != 0 {
            return Err(Error::from_raw_os_error(errors.epipe));
        }
        Err(Error::from_raw_os_error(errors.eio))
    }
}

/// Whichever events it asks for, a wait succeeds if and only if `poll` found something and one of
/// those events is among what it found. A wait in which nothing was found has timed out. One
/// that found only what was not asked for fails too: with a broken pipe on an error or a
/// hang-up, else with an input or output error.
pub proof fn law_wait_outcome(
    wait: Wait,
    found: i32,
    errno: i32,
    revents: i16,
    result: Result<(), Error>,
)
    requires
        call_ensures(Wait::finish, (&wait, found, errno, revents), result),
    ensures
        result is Ok <==> found > 0 && revents & wait.events != 0,
        found < 0 ==> result == Err::<(), Error>(Error { errno }),
        found == 0 ==> result == Err::<(), Error>(Error { errno: platform::errnos().etimedout }),
        found > 0 && revents & wait.events == 0 ==> {
            let gone = revents & platform::poll_bits().pollerr != 0 || revents
                & platform::poll_bits().pollhup != 0;
            result == Err::<(), Error>(
                Error {
                    errno: if gone {
                        platform::errnos().epipe
                    } else {
                        platform::errnos().eio
                    },
                },
            )
        },
{
    assert(revents & (0x8i16 | 0x10) == 0 <==> revents & 0x8 == 0 && revents & 0x10 == 0)
        by (bit_vector);
}

/// A wait is for the given descriptor and time, and for what the transfer needs.
pub proof fn law_waits_ask_for_readiness(fd: i32, timeout: Duration, read: Wait, write: Wait)
    requires
        call_ensures(Wait::for_read, (fd, timeout), read),
        call_ensures(Wait::for_write, (fd, timeout), write),
    ensures
        read.fd == fd && write.fd == fd,
        read.timeout == timeout && write.timeout == timeout,
        read.events == platform::poll_bits().pollin,
        write.events == platform::poll_bits().pollout,
{
}

} // verus!
