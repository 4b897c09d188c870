//! A serial port on a terminal device.
//!
//! An operation on a port is a value that names the system call to make next. Once the call is
//! made, its reply moves the operation on, until it ends in a result.
use std::time::Duration;
use vstd::prelude::*;

use crate::call::{Call, Reply};
use crate::error::Error;
use crate::platform;
use crate::settings;
use crate::settings::TTYSettings;
use crate::wait::Wait;

verus! {

/// The `ioctl` request that reads the state of a terminal, with speeds of any value, on the
/// architectures that `platform` names.
pub const TCGETS2: u64 = 0x802C_542A;

/// The `ioctl` request that writes the state of a terminal, with speeds of any value, on the
/// architectures that `platform` names.
pub const TCSETS2: u64 = 0x402C_542B;

/// How many milliseconds a port that was just opened waits before a read or a write gives up.
pub const INITIAL_TIMEOUT: u64 = 100;

/// The span that `Duration::from_millis` makes of a number of milliseconds.
pub uninterp spec fn span_of_millis(millis: u64) -> Duration;

/// `Duration::from_millis` makes a span of a number of milliseconds. The contract claims that
/// the span depends on that number alone.
pub assume_specification[ Duration::from_millis ](millis: u64) -> (span: Duration)
    ensures
        span == span_of_millis(millis),
;

/// A TTY-based serial port.
///
/// A port owns its descriptor, which is to be given up with `close`.
pub struct TTYPort {
    fd: i32,
    timeout: Duration,
}

impl TTYPort {
    /// No port has a descriptor that is not valid.
    #[verifier::type_invariant]
    spec fn has_descriptor(self) -> bool {
        self.fd >= 0
    }

    /// The descriptor of the device.
    pub closed spec fn descriptor(self) -> i32 {
        self.fd
    }

    /// How long a read or a write waits.
    pub closed spec fn patience(self) -> Duration {
        self.timeout
    }

    /// The port on a descriptor, with the given timeout.
    pub closed spec fn on(fd: i32, timeout: Duration) -> TTYPort {
        TTYPort { fd, timeout }
    }

    /// A port is its descriptor and its timeout.
    pub proof fn lemma_parts(fd: i32, timeout: Duration)
        ensures
            TTYPort::on(fd, timeout).descriptor() == fd,
            TTYPort::on(fd, timeout).patience() == timeout,
    {
    }

    /// Starts to open a TTY device as a serial port.
    ///
    /// `path` should be the path to a TTY device, e.g., `/dev/ttyS0`. A path with a zero byte in
    /// it names no device, and is refused with no call made.
    ///
    /// ## Errors
    ///
    /// Opening a port, from here on to its last step, fails with an error of the kind
    ///
    /// * `NoDevice` if the device could not be opened. This could indicate that the device is
    ///   already in use.
    /// * `InvalidInput` if `path` is not a valid device name.
    /// * `Io` for any other error while opening or initializing the device.
    pub fn open(path: &[u8]) -> (result: Result<OpenRequest, Error>)
        ensures
            result is Err <==> path@.contains(0u8),
            result matches Err(error) ==> error == Error::invalid(),
            result matches Ok(request) ==> {
                &&& request.path@ == path@.push(0u8)
                &&& request.flags == open_flags()
                &&& request.mode == 0
            },
    {
        let mut terminated: Vec<u8> = Vec::new();
        let mut i: usize = 0;
        while i < path.len()
            invariant
                i <= path@.len(),
                terminated@ == path@.take(i as int),
                forall|j: int| 0 <= j < i ==> path@[j] != 0u8,
            decreases path@.len() - i,
        {
            let byte: u8 = path[i];
            if byte == 0 {
                return Err(Error::from_raw_os_error(platform::error_numbers().einval));
            }
            terminated.push(byte);
            proof {
                assert(path@.take(i + 1) =~= path@.take(i as int).push(byte));
            }
            i = i + 1;
        }
        proof {
            assert(path@.take(path@.len() as int) =~= path@);
        }
        terminated.push(0);
        let f = platform::file_codes();
        Ok(
            OpenRequest {
                path: terminated,
                flags: f.o_rdwr | f.o_noctty | f.o_nonblock,
                mode: 0,
            },
        )
    }

    /// Goes on with what `open` came back with: the descriptor, or a failure.
    pub fn opened(reply: Reply) -> (step: OpenStep)
        ensures
            step == after_open(reply),
    {
        if reply.ret < 0 {
            return OpenStep::Done(Err(Error::from_raw_os_error(reply.errno)));
        }
        let port = TTYPort { fd: reply.ret, timeout: Duration::from_millis(INITIAL_TIMEOUT) };
        OpenStep::Next(Opening::Claiming(port))
    }

    /// Gives up the port.
    pub fn close(self) -> (closing: Closing)
        ensures
            closing == Closing::Releasing(self.descriptor()),
    {
        Closing::Releasing(self.fd)
    }

    /// The descriptor of the device.
    pub fn as_raw_fd(&self) -> (fd: i32)
        ensures
            fd == self.descriptor(),
            fd >= 0,
    {
        proof {
            use_type_invariant(self);
        }
        self.fd
    }

    /// How long a read or a write waits.
    pub fn timeout(&self) -> (timeout: Duration)
        ensures
            timeout == self.patience(),
    {
        self.timeout
    }

    /// Sets how long a read or a write waits.
    pub fn set_timeout(&mut self, timeout: Duration) -> (result: Result<(), Error>)
        ensures
            *final(self) == TTYPort::on(old(self).descriptor(), timeout),
            result == Ok::<(), Error>(()),
    {
        proof {
            use_type_invariant(&*self);
        }
        self.timeout = timeout;
        Ok(())
    }

    /// The call that reads the state of the device; `settings_read` takes its reply.
    pub fn read_settings(&self) -> (call: Call)
        ensures
            call == (Call::GetTermios { fd: self.descriptor(), request: TCGETS2 }),
    {
        Call::GetTermios { fd: self.fd, request: TCGETS2 }
    }

    /// The settings of the device, set up for binary serial port access.
    pub fn settings_read(reply: Reply) -> (result: Result<TTYSettings, Error>)
        ensures
            result == after_settings_read(reply),
    {
        if reply.ret < 0 {
            return Err(Error::from_raw_os_error(reply.errno));
        }
        Ok(TTYSettings::for_binary_access(reply.termios))
    }

    /// Starts to write settings to the device.
    pub fn write_settings(&self, settings: &TTYSettings) -> (write: SettingsWrite)
        ensures
            write == SettingsWrite::Applying(self.descriptor(), *settings),
    {
        SettingsWrite::Applying(self.fd, *settings)
    }

    /// The call that raises or lowers a modem line.
    fn set_pin(&self, pin: i32, level: bool) -> (call: Call)
        ensures
            call == pin_call(self.descriptor(), pin, level),
    {
        let r = platform::requests();
        if level {
            Call::PutInt { fd: self.fd, request: r.tiocmbis, value: pin }
        } else {
            Call::PutInt { fd: self.fd, request: r.tiocmbic, value: pin }
        }
    }

    /// The call that raises or lowers RTS, the request to send.
    pub fn set_rts(&self, level: bool) -> (call: Call)
        ensures
            call == pin_call(self.descriptor(), platform::modem_bits().rts, level),
    {
        self.set_pin(platform::modem_lines().rts, level)
    }

    /// The call that raises or lowers DTR, by which this end says that it is ready.
    pub fn set_dtr(&self, level: bool) -> (call: Call)
        ensures
            call == pin_call(self.descriptor(), platform::modem_bits().dtr, level),
    {
        self.set_pin(platform::modem_lines().dtr, level)
    }

    /// Starts to read a modem line.
    fn read_pin(&self, pin: i32) -> (read: PinRead)
        ensures
            read == (PinRead { fd: self.descriptor(), pin }),
    {
        PinRead { fd: self.fd, pin }
    }

    /// Starts to read CTS, by which the other end lets this one send.
    pub fn read_cts(&self) -> (read: PinRead)
        ensures
            read == (PinRead { fd: self.descriptor(), pin: platform::modem_bits().cts }),
    {
        self.read_pin(platform::modem_lines().cts)
    }

    /// Starts to read DSR, by which the other end says that it is ready.
    pub fn read_dsr(&self) -> (read: PinRead)
        ensures
            read == (PinRead { fd: self.descriptor(), pin: platform::modem_bits().dsr }),
    {
        self.read_pin(platform::modem_lines().dsr)
    }

    /// Starts to read RI, the ring indicator.
    pub fn read_ri(&self) -> (read: PinRead)
        ensures
            read == (PinRead { fd: self.descriptor(), pin: platform::modem_bits().ri }),
    {
        self.read_pin(platform::modem_lines().ri)
    }

    /// Starts to read CD, the carrier detect.
    pub fn read_cd(&self) -> (read: PinRead)
        ensures
            read == (PinRead { fd: self.descriptor(), pin: platform::modem_bits().cd }),
    {
        self.read_pin(platform::modem_lines().cd)
    }

    /// Starts to read bytes, as many as there is room for at most.
    pub fn read(&self, room: usize) -> (transfer: Transfer)
        ensures
            transfer == (Transfer {
                wait: Wait {
                    fd: self.descriptor(),
                    events: platform::poll_bits().pollin,
                    timeout: self.patience(),
                },
                data: DataCall::Read { fd: self.descriptor(), len: room },
            }),
    {
        Transfer {
            wait: Wait::for_read(self.fd, self.timeout),
            data: DataCall::Read { fd: self.fd, len: room },
        }
    }

    /// Starts to write the given number of bytes, or as many of them as can go at once.
    pub fn write(&self, len: usize) -> (transfer: Transfer)
        ensures
            transfer == (Transfer {
                wait: Wait {
                    fd: self.descriptor(),
                    events: platform::poll_bits().pollout,
                    timeout: self.patience(),
                },
                data: DataCall::Write { fd: self.descriptor(), len },
            }),
    {
        Transfer {
            wait: Wait::for_write(self.fd, self.timeout),
            data: DataCall::Write { fd: self.fd, len },
        }
    }

    /// The call that waits until all that was written has been sent.
    pub fn flush(&self) -> (call: Call)
        ensures
            call == (Call::Drain { fd: self.descriptor() }),
    {
        Call::Drain { fd: self.fd }
    }
}

/// The arguments of the call of `open` that a port begins with.
pub struct OpenRequest {
    /// The path of the device, with a zero byte at its end.
    pub path: Vec<u8>,
    /// How to open it.
    pub flags: i32,
    /// The mode of a file that the call would make; it makes none.
    pub mode: i32,
}

/// A device is opened for reading and writing. It does not become the controlling terminal, and
/// the call does not wait for a carrier.
pub open spec fn open_flags() -> i32 {
    let f = platform::file_numbers();
    f.o_rdwr | f.o_noctty | f.o_nonblock
}

/// A port that is being opened.
pub enum Opening {
    /// The device is to be kept from others.
    Claiming(TTYPort),
    /// Reads and writes are to wait again.
    Blocking(TTYPort),
    /// The settings of the device are to be read.
    Reading(TTYPort),
    /// The settings are to be written back, set up for binary access.
    Writing(TTYPort, SettingsWrite),
    /// A call has failed, and the descriptor is to be given up.
    Abandoning(Closing, Error),
}

/// What comes next when a port is opened.
pub enum OpenStep {
    /// A call is to be made.
    Next(Opening),
    /// The port is open, or could not be opened.
    Done(Result<TTYPort, Error>),
}

/// What follows the call of `open`.
pub open spec fn after_open(reply: Reply) -> OpenStep {
    if reply.failed() {
        OpenStep::Done(Err(reply.error()))
    } else {
        OpenStep::Next(
            Opening::Claiming(TTYPort::on(reply.ret, span_of_millis(INITIAL_TIMEOUT))),
        )
    }
}

/// What follows a failure on an open descriptor.
pub open spec fn abandon(port: TTYPort, reply: Reply) -> OpenStep {
    OpenStep::Next(Opening::Abandoning(Closing::Releasing(port.descriptor()), reply.error()))
}

impl Opening {
    /// The call that is due.
    pub open spec fn due(self) -> Call {
        match self {
            Opening::Claiming(port) => Call::Ioctl {
                fd: port.descriptor(),
                request: platform::request_codes().tiocexcl,
            },
            Opening::Blocking(port) => Call::Fcntl {
                fd: port.descriptor(),
                command: platform::file_numbers().f_setfl,
                argument: 0,
            },
            Opening::Reading(port) => Call::GetTermios {
                fd: port.descriptor(),
                request: TCGETS2,
            },
            Opening::Writing(_, write) => write.due(),
            Opening::Abandoning(closing, _) => closing.due(),
        }
    }

    /// What follows the reply of the call that was due.
    pub open spec fn after(self, reply: Reply) -> OpenStep {
        match self {
            Opening::Claiming(port) => if reply.failed() {
                abandon(port, reply)
            } else {
                OpenStep::Next(Opening::Blocking(port))
            },
            Opening::Blocking(port) => if reply.failed() {
                abandon(port, reply)
            } else {
                OpenStep::Next(Opening::Reading(port))
            },
            Opening::Reading(port) => match after_settings_read(reply) {
                Ok(settings) => OpenStep::Next(
                    Opening::Writing(port, SettingsWrite::Applying(port.descriptor(), settings)),
                ),
                Err(_) => abandon(port, reply),
            },
            Opening::Writing(port, write) => match write.after(reply) {
                WriteStep::Next(next) => OpenStep::Next(Opening::Writing(port, next)),
                WriteStep::Done(Ok(_)) => OpenStep::Done(Ok(port)),
                WriteStep::Done(Err(_)) => abandon(port, reply),
            },
            Opening::Abandoning(closing, error) => match closing.after() {
                Some(next) => OpenStep::Next(Opening::Abandoning(next, error)),
                None => OpenStep::Done(Err(error)),
            },
        }
    }

    /// The call to make next.
    pub fn call(&self) -> (call: Call)
        ensures
            call == self.due(),
    {
        match self {
            Opening::Claiming(port) => Call::Ioctl {
                fd: port.fd,
                request: platform::requests().tiocexcl,
            },
            Opening::Blocking(port) => Call::Fcntl {
                fd: port.fd,
                command: platform::file_codes().f_setfl,
                argument: 0,
            },
            Opening::Reading(port) => port.read_settings(),
            Opening::Writing(_, write) => write.call(),
            Opening::Abandoning(closing, _) => closing.call(),
        }
    }

    /// Goes on with the reply of the call.
    pub fn resume(self, reply: Reply) -> (step: OpenStep)
        ensures
            step == self.after(reply),
    {
        match self {
            Opening::Claiming(port) => match reply.status() {
                Ok(_) => OpenStep::Next(Opening::Blocking(port)),
                Err(error) => OpenStep::Next(Opening::Abandoning(port.close(), error)),
            },
            Opening::Blocking(port) => match reply.status() {
                Ok(_) => OpenStep::Next(Opening::Reading(port)),
                Err(error) => OpenStep::Next(Opening::Abandoning(port.close(), error)),
            },
            Opening::Reading(port) => match TTYPort::settings_read(reply) {
                Ok(settings) => {
                    let write = port.write_settings(&settings);
                    OpenStep::Next(Opening::Writing(port, write))
                },
                Err(error) => OpenStep::Next(Opening::Abandoning(port.close(), error)),
            },
            Opening::Writing(port, write) => match write.resume(reply) {
                WriteStep::Next(next) => OpenStep::Next(Opening::Writing(port, next)),
                WriteStep::Done(Ok(_)) => OpenStep::Done(Ok(port)),
                WriteStep::Done(Err(error)) => OpenStep::Next(
                    Opening::Abandoning(port.close(), error),
                ),
            },
            Opening::Abandoning(closing, error) => match closing.resume() {
                Some(next) => OpenStep::Next(Opening::Abandoning(next, error)),
                None => OpenStep::Done(Err(error)),
            },
        }
    }
}

/// What the reply of the call that reads the state of a device comes to.
pub open spec fn after_settings_read(reply: Reply) -> Result<TTYSettings, Error> {
    if reply.failed() {
        Err(reply.error())
    } else {
        Ok(TTYSettings { termios: settings::raw_mode(reply.termios) })
    }
}

/// Settings that are being written to a device.
#[derive(Copy, Clone)]
pub enum SettingsWrite {
    /// The state is to be written.
    Applying(i32, TTYSettings),
    /// What came in and what was to go out under the old state is to be thrown away.
    Discarding(i32),
}

/// What comes next when settings are written.
pub enum WriteStep {
    /// A call is to be made.
    Next(SettingsWrite),
    /// The settings are written, or could not be.
    Done(Result<(), Error>),
}

impl SettingsWrite {
    /// The call that is due.
    pub open spec fn due(self) -> Call {
        match self {
            SettingsWrite::Applying(fd, settings) => Call::PutTermios {
                fd,
                request: TCSETS2,
                termios: settings.termios,
            },
            SettingsWrite::Discarding(fd) => Call::Discard {
                fd,
                queue: platform::file_numbers().tcioflush,
            },
        }
    }

    /// What follows the reply of the call that was due.
    pub open spec fn after(self, reply: Reply) -> WriteStep {
        if reply.failed() {
            WriteStep::Done(Err(reply.error()))
        } else {
            match self {
                SettingsWrite::Applying(fd, _) => WriteStep::Next(SettingsWrite::Discarding(fd)),
                SettingsWrite::Discarding(_) => WriteStep::Done(Ok(())),
            }
        }
    }

    /// The call to make next.
    pub fn call(&self) -> (call: Call)
        ensures
            call == self.due(),
    {
        match self {
            SettingsWrite::Applying(fd, settings) => Call::PutTermios {
                fd: *fd,
                request: TCSETS2,
                termios: settings.termios,
            },
            SettingsWrite::Discarding(fd) => Call::Discard {
                fd: *fd,
                queue: platform::file_codes().tcioflush,
            },
        }
    }

    /// Goes on with the reply of the call.
    pub fn resume(self, reply: Reply) -> (step: WriteStep)
        ensures
            step == self.after(reply),
    {
        if reply.ret < 0 {
            return WriteStep::Done(Err(Error::from_raw_os_error(reply.errno)));
        }
        match self {
            SettingsWrite::Applying(fd, _) => WriteStep::Next(SettingsWrite::Discarding(fd)),
            SettingsWrite::Discarding(_) => WriteStep::Done(Ok(())),
        }
    }
}

/// A port that is being given up. The calls are made whatever they come back with.
#[derive(Copy, Clone)]
pub enum Closing {
    /// Others are to be let at the device again.
    Releasing(i32),
    /// The descriptor is to be closed.
    Closing(i32),
}

impl Closing {
    /// The call that is due.
    pub open spec fn due(self) -> Call {
        match self {
            Closing::Releasing(fd) => Call::Ioctl {
                fd,
                request: platform::request_codes().tiocnxcl,
            },
            Closing::Closing(fd) => Call::Close { fd },
        }
    }

    /// What follows the call that was due.
    pub open spec fn after(self) -> Option<Closing> {
        match self {
            Closing::Releasing(fd) => Some(Closing::Closing(fd)),
            Closing::Closing(_) => None,
        }
    }

    /// The call to make next.
    pub fn call(&self) -> (call: Call)
        ensures
            call == self.due(),
    {
        match self {
            Closing::Releasing(fd) => Call::Ioctl {
                fd: *fd,
                request: platform::requests().tiocnxcl,
            },
            Closing::Closing(fd) => Call::Close { fd: *fd },
        }
    }

    /// Goes on once the call is made; none is left after the last.
    pub fn resume(self) -> (next: Option<Closing>)
        ensures
            next == self.after(),
    {
        match self {
            Closing::Releasing(fd) => Some(Closing::Closing(fd)),
            Closing::Closing(_) => None,
        }
    }
}

/// The call that raises or lowers a modem line.
pub open spec fn pin_call(fd: i32, pin: i32, level: bool) -> Call {
    let r = platform::request_codes();
    Call::PutInt {
        fd,
        request: if level {
            r.tiocmbis
        } else {
            r.tiocmbic
        },
        value: pin,
    }
}

/// A modem line that is being read.
#[derive(Debug, Copy, Clone, PartialEq, Eq)]
pub struct PinRead {
    /// The descriptor of the device.
    pub fd: i32,
    /// The bit of the line.
    pub pin: i32,
}

impl PinRead {
    /// The call that reads all modem lines.
    pub fn call(&self) -> (call: Call)
        ensures
            call == (Call::GetInt { fd: self.fd, request: platform::request_codes().tiocmget }),
    {
        Call::GetInt { fd: self.fd, request: platform::requests().tiocmget }
    }

    /// Whether the line is raised, by the reply of the call.
    pub fn finish(self, reply: Reply) -> (result: Result<bool, Error>)
        ensures
            result == if reply.failed() {
                Err::<bool, Error>(reply.error())
            } else {
                Ok::<bool, Error>(reply.value & self.pin != 0)
            },
    {
        if reply.ret < 0 {
            return Err(Error::from_raw_os_error(reply.errno));
        }
        Ok(reply.value & self.pin != 0)
    }
}

/// A call that moves bytes between a device and a buffer.
#[derive(Debug, Copy, Clone, PartialEq, Eq)]
pub enum DataCall {
    /// `read(fd, buffer, len)`.
    Read { fd: i32, len: usize },
    /// `write(fd, buffer, len)`.
    Write { fd: i32, len: usize },
}

/// A read or a write that waits for its device.
#[derive(Debug, Copy, Clone, PartialEq, Eq)]
pub struct Transfer {
    /// The wait.
    pub wait: Wait,
    /// The call that moves the bytes, once the wait is over.
    pub data: DataCall,
}

impl Transfer {
    /// Goes on once the wait is over. Where it failed no bytes are moved, and its error is the
    /// answer.
    pub fn resume(self, waited: Result<(), Error>) -> (result: Result<DataCall, Error>)
        ensures
            waited is Ok ==> result == Ok::<DataCall, Error>(self.data),
            waited matches Err(error) ==> result == Err::<DataCall, Error>(error),
    {
        match waited {
            Ok(_) => Ok(self.data),
            Err(error) => Err(error),
        }
    }

    /// How many bytes were moved, by what the call that moves them returned. A negative number
    /// means that it failed.
    pub fn finish(moved: isize, errno: i32) -> (result: Result<usize, Error>)
        ensures
            result == if moved < 0 {
                Err::<usize, Error>(Error { errno })
            } else {
                Ok::<usize, Error>(moved as usize)
            },
    {
        if moved >= 0 {
            Ok(moved as usize)
        } else {
            Err(Error::from_raw_os_error(errno))
        }
    }
}

} // verus!
