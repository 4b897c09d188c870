//! What the operations on a port ask of the system, and what they make of its replies.
//!
//! Each law speaks of the values that a call takes and gives, for every such call.
use std::time::Duration;
use vstd::prelude::*;

use crate::call::{Call, Reply};
use crate::error::Error;
use crate::platform;
use crate::port::{DataCall, OpenRequest, OpenStep, Opening, PinRead, TTYPort, Transfer};
use crate::settings::TTYSettings;

verus! {

/// A path is refused if and only if it has a zero byte in it, as an invalid argument. Every other
/// path is opened byte for byte as it is, with one zero byte behind it, for reading and writing,
/// not as the controlling terminal and without waiting.
pub proof fn law_open_request(path: &[u8], result: Result<OpenRequest, Error>)
    requires
        call_ensures(TTYPort::open, (path,), result),
    ensures
        result is Err <==> exists|k: int| 0 <= k < path@.len() && path@[k] == 0,
        result matches Err(error) ==> error.errno == platform::errnos().einval,
        result matches Ok(request) ==> {
            let f = platform::file_numbers();
            &&& request.path@.len() == path@.len() + 1
            &&& forall|k: int| 0 <= k < path@.len() ==> request.path@[k] == path@[k]
            &&& request.path@[path@.len() as int] == 0
            &&& request.flags == f.o_rdwr | f.o_noctty | f.o_nonblock
            &&& request.mode == 0
        },
{
    if result is Ok {
        assert(!path@.contains(0u8));
    }
}

/// A descriptor makes a port that is about to be claimed, with a timeout of a tenth of a second.
pub proof fn law_opened_makes_port(opened: Reply, step: OpenStep)
    requires
        call_ensures(TTYPort::opened, (opened,), step),
    ensures
        opened.ret < 0 <==> step is Done,
        opened.ret >= 0 ==> (step matches OpenStep::Next(Opening::Claiming(port))
            && port.descriptor() == opened.ret && port.patience() == crate::port::span_of_millis(
            100,
        )),
{
    TTYPort::lemma_parts(opened.ret, crate::port::span_of_millis(100));
}

/// Setting the timeout succeeds, keeps the descriptor, and the timeout is then the one that was
/// set.
pub proof fn law_set_timeout_effect(
    port: &mut TTYPort,
    timeout: Duration,
    result: Result<(), Error>,
    read: Duration,
    fd: i32,
    fd_after: i32,
)
    requires
        call_ensures(TTYPort::set_timeout, (port, timeout), result),
        call_ensures(TTYPort::timeout, (&*final(port),), read),
        call_ensures(TTYPort::as_raw_fd, (&*old(port),), fd),
        call_ensures(TTYPort::as_raw_fd, (&*final(port),), fd_after),
    ensures
        result is Ok,
        read == timeout,
        fd_after == fd,
{
    TTYPort::lemma_parts(old(port).descriptor(), timeout);
}

/// No port has a negative descriptor.
pub proof fn law_descriptor_is_valid(port: TTYPort, fd: i32)
    requires
        call_ensures(TTYPort::as_raw_fd, (&port,), fd),
    ensures
        fd >= 0,
{
}

/// The settings of a device are asked of its descriptor. A failed reply gives its error, any
/// other the state in it, set up for binary access.
pub proof fn law_settings_read_effect(
    port: TTYPort,
    fd: i32,
    call: Call,
    reply: Reply,
    result: Result<TTYSettings, Error>,
    binary: TTYSettings,
)
    requires
        call_ensures(TTYPort::as_raw_fd, (&port,), fd),
        call_ensures(TTYPort::read_settings, (&port,), call),
        call_ensures(TTYPort::settings_read, (reply,), result),
        call_ensures(TTYSettings::for_binary_access, (reply.termios,), binary),
    ensures
        call == (Call::GetTermios { fd, request: 0x802C_542A }),
        reply.ret < 0 ==> result == Err::<TTYSettings, Error>(Error { errno: reply.errno }),
        reply.ret >= 0 ==> result == Ok::<TTYSettings, Error>(binary),
{
}

/// RTS and DTR are raised by a request that sets bits and lowered by one that clears them, each
/// with the one bit of its line.
pub proof fn law_lines_are_driven(port: TTYPort, fd: i32, level: bool, rts: Call, dtr: Call)
    requires
        call_ensures(TTYPort::as_raw_fd, (&port,), fd),
        call_ensures(TTYPort::set_rts, (&port, level), rts),
        call_ensures(TTYPort::set_dtr, (&port, level), dtr),
    ensures
        level ==> rts == (Call::PutInt {
            fd,
            request: platform::request_codes().tiocmbis,
            value: platform::modem_bits().rts,
        }),
        !level ==> rts == (Call::PutInt {
            fd,
            request: platform::request_codes().tiocmbic,
            value: platform::modem_bits().rts,
        }),
        level ==> dtr == (Call::PutInt {
            fd,
            request: platform::request_codes().tiocmbis,
            value: platform::modem_bits().dtr,
        }),
        !level ==> dtr == (Call::PutInt {
            fd,
            request: platform::request_codes().tiocmbic,
            value: platform::modem_bits().dtr,
        }),
{
}

/// What a line that is read comes to: the error of a failed reply, else whether the bit of the
/// line is set in the lines that the system filled in.
pub proof fn law_line_is_read(
    read: PinRead,
    call: Call,
    reply: Reply,
    result: Result<bool, Error>,
)
    requires
        call_ensures(PinRead::call, (&read,), call),
        call_ensures(PinRead::finish, (read, reply), result),
    ensures
        call == (Call::GetInt { fd: read.fd, request: platform::request_codes().tiocmget }),
        reply.ret < 0 ==> result == Err::<bool, Error>(Error { errno: reply.errno }),
        reply.ret >= 0 ==> result is Ok,
        result == Ok::<bool, Error>(true) <==> reply.ret >= 0 && reply.value & read.pin != 0,
{
}

/// Each line is read by its own bit, on the descriptor of the port.
pub proof fn law_lines_have_their_bits(
    port: TTYPort,
    fd: i32,
    cts: PinRead,
    dsr: PinRead,
    ri: PinRead,
    cd: PinRead,
)
    requires
        call_ensures(TTYPort::as_raw_fd, (&port,), fd),
        call_ensures(TTYPort::read_cts, (&port,), cts),
        call_ensures(TTYPort::read_dsr, (&port,), dsr),
        call_ensures(TTYPort::read_ri, (&port,), ri),
        call_ensures(TTYPort::read_cd, (&port,), cd),
    ensures
        cts.fd == fd && dsr.fd == fd && ri.fd == fd && cd.fd == fd,
        cts.pin == platform::modem_bits().cts,
        dsr.pin == platform::modem_bits().dsr,
        ri.pin == platform::modem_bits().ri,
        cd.pin == platform::modem_bits().cd,
{
}

/// A read waits until there is something to read and a write until something can be written, for
/// the timeout of the port. The bytes are then moved on its descriptor, as many as were asked
/// for.
pub proof fn law_transfers_wait_first(
    port: TTYPort,
    fd: i32,
    timeout: Duration,
    len: usize,
    read: Transfer,
    write: Transfer,
)
    requires
        call_ensures(TTYPort::as_raw_fd, (&port,), fd),
        call_ensures(TTYPort::timeout, (&port,), timeout),
        call_ensures(TTYPort::read, (&port, len), read),
        call_ensures(TTYPort::write, (&port, len), write),
    ensures
        read.wait.fd == fd && write.wait.fd == fd,
        read.wait.timeout == timeout && write.wait.timeout == timeout,
        read.wait.events == platform::poll_bits().pollin,
        write.wait.events == platform::poll_bits().pollout,
        read.data == (DataCall::Read { fd, len }),
        write.data == (DataCall::Write { fd, len }),
{
}

/// No bytes are moved after a wait that failed, and its error is the answer. The bytes that are
/// moved are counted, and a negative count means that moving them failed.
pub proof fn law_transfer_outcome(
    transfer: Transfer,
    waited: Result<(), Error>,
    next: Result<DataCall, Error>,
    moved: isize,
    errno: i32,
    result: Result<usize, Error>,
)
    requires
        call_ensures(Transfer::resume, (transfer, waited), next),
        call_ensures(Transfer::finish, (moved, errno), result),
    ensures
        next is Ok <==> waited is Ok,
        next matches Ok(data) ==> data == transfer.data,
        next matches Err(error) ==> waited == Err::<(), Error>(error),
        result is Ok <==> moved >= 0,
        result matches Ok(count) ==> count as int == moved as int,
        result matches Err(error) ==> error.errno == errno,
{
}

/// A flush waits until the output of the descriptor is sent.
pub proof fn law_flush_drains(port: TTYPort, fd: i32, call: Call)
    requires
        call_ensures(TTYPort::as_raw_fd, (&port,), fd),
        call_ensures(TTYPort::flush, (&port,), call),
    ensures
        call == (Call::Drain { fd }),
{
}

} // verus!
