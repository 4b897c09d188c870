//! What holds of port operations whatever the system replies.
use std::time::Duration;
use vstd::prelude::*;

use crate::call::{Call, Reply};
use crate::error::Error;
use crate::platform;
use crate::port;
use crate::port::{Closing, OpenStep, Opening, SettingsWrite, TTYPort, WriteStep};
use crate::settings;
use crate::settings::{TTYSettings, Termios};
use crate::settings_laws;

verus! {

/// The calls that an operation makes, and its result once it has one.
#[verifier::ext_equal]
pub struct Run<T> {
    pub calls: Seq<Call>,
    pub result: Option<Result<T, Error>>,
}

/// The run of a port that is being opened, from the given step on, with the given replies.
pub open spec fn run_open(step: OpenStep, replies: Seq<Reply>) -> Run<TTYPort>
    decreases replies.len(),
{
    match step {
        OpenStep::Done(result) => Run { calls: seq![], result: Some(result) },
        OpenStep::Next(opening) => if replies.len() == 0 {
            Run { calls: seq![], result: None }
        } else {
            let rest = run_open(opening.after(replies[0]), replies.drop_first());
            Run { calls: seq![opening.due()] + rest.calls, result: rest.result }
        },
    }
}

/// The calls that follow the call of `open`, where none fails and the device is in the given
/// state.
pub open spec fn opening_calls(fd: i32, t: Termios) -> Seq<Call> {
    seq![
        Call::Ioctl { fd, request: platform::request_codes().tiocexcl },
        Call::Fcntl { fd, command: platform::file_numbers().f_setfl, argument: 0 },
        Call::GetTermios { fd, request: port::TCGETS2 },
        Call::PutTermios { fd, request: port::TCSETS2, termios: settings::raw_mode(t) },
        Call::Discard { fd, queue: platform::file_numbers().tcioflush },
    ]
}

/// The calls by which a descriptor is given up.
pub open spec fn closing_calls(fd: i32) -> Seq<Call> {
    seq![
        Call::Ioctl { fd, request: platform::request_codes().tiocnxcl },
        Call::Close { fd },
    ]
}

/// One step of a run.
proof fn lemma_run_open_step(opening: Opening, replies: Seq<Reply>)
    requires
        replies.len() > 0,
    ensures
        ({
            let rest = run_open(opening.after(replies[0]), replies.drop_first());
            run_open(OpenStep::Next(opening), replies) == (Run {
                calls: seq![opening.due()] + rest.calls,
                result: rest.result,
            })
        }),
{
}

/// An abandoned port is released and closed, whatever those calls come back with, and ends in
/// the error for which it was abandoned.
proof fn lemma_run_abandoned(fd: i32, error: Error, replies: Seq<Reply>)
    requires
        replies.len() >= 2,
    ensures
        run_open(OpenStep::Next(Opening::Abandoning(Closing::Releasing(fd), error)), replies)
            == (Run::<TTYPort> { calls: closing_calls(fd), result: Some(Err(error)) }),
{
    let rest = replies.drop_first();
    lemma_run_open_step(Opening::Abandoning(Closing::Releasing(fd), error), replies);
    lemma_run_open_step(Opening::Abandoning(Closing::Closing(fd), error), rest);
    assert(run_open(OpenStep::Done(Err(error)), rest.drop_first()).calls =~= seq![]);
    assert(run_open(
        OpenStep::Next(Opening::Abandoning(Closing::Releasing(fd), error)),
        replies,
    ).calls =~= closing_calls(fd));
}

/// The stages through which a port is opened.
spec fn stage(port: TTYPort, t: Termios, n: int) -> Opening {
    let fd = port.descriptor();
    if n == 0 {
        Opening::Claiming(port)
    } else if n == 1 {
        Opening::Blocking(port)
    } else if n == 2 {
        Opening::Reading(port)
    } else if n == 3 {
        Opening::Writing(
            port,
            SettingsWrite::Applying(fd, TTYSettings { termios: settings::raw_mode(t) }),
        )
    } else {
        Opening::Writing(port, SettingsWrite::Discarding(fd))
    }
}

/// A run from one stage on, up to the first call that fails.
proof fn lemma_run_from_stage(
    port: TTYPort,
    t: Termios,
    n: int,
    failing: int,
    replies: Seq<Reply>,
)
    requires
        0 <= n <= failing <= 5,
        n < 5,
        failing < 5 ==> replies.len() >= failing - n + 3 && replies[failing - n].failed(),
        replies.len() >= 5 - n || failing < 5,
        forall|i: int| 0 <= i < failing - n && i < replies.len() ==> !replies[i].failed(),
        n <= 2 < failing ==> replies[2 - n].termios == t,
    ensures
        ({
            let fd = port.descriptor();
            let run = run_open(OpenStep::Next(stage(port, t, n)), replies);
            let calls = opening_calls(fd, t);
            if failing < 5 {
                &&& run.calls == calls.subrange(n, failing + 1) + closing_calls(fd)
                &&& run.result == Some(Err::<TTYPort, Error>(replies[failing - n].error()))
            } else {
                &&& run.calls == calls.subrange(n, 5)
                &&& run.result == Some(Ok::<TTYPort, Error>(port))
            }
        }),
    decreases 5 - n,
{
    let fd = port.descriptor();
    let rest = replies.drop_first();
    let calls = opening_calls(fd, t);
    let here = stage(port, t, n);
    lemma_run_open_step(here, replies);
    assert(here.due() == calls[n]);
    if failing == n {
        lemma_run_abandoned(fd, replies[0].error(), rest);
        assert(calls.subrange(n, n + 1) =~= seq![calls[n]]);
    } else if n == 4 {
        assert(run_open(OpenStep::Done(Ok(port)), rest).calls =~= seq![]);
        assert(calls.subrange(4, 5) =~= seq![calls[4]]);
        assert(run_open(OpenStep::Next(here), replies).calls =~= calls.subrange(4, 5));
    } else {
        assert(here.after(replies[0]) == OpenStep::Next(stage(port, t, n + 1)));
        assert forall|i: int| 0 <= i < failing - (n + 1) && i < rest.len() implies !(
        #[trigger] rest[i]).failed() by {
            assert(rest[i] == replies[i + 1]);
        }
        lemma_run_from_stage(port, t, n + 1, failing, rest);
        let end = if failing < 5 {
            failing + 1
        } else {
            5
        };
        assert(seq![calls[n]] + calls.subrange(n + 1, end) =~= calls.subrange(n, end));
        if failing < 5 {
            assert(seq![calls[n]] + (calls.subrange(n + 1, end) + closing_calls(fd))
                =~= calls.subrange(n, end) + closing_calls(fd));
        }
    }
}

/// A device that cannot be opened is answered with the error of the call, and nothing else is
/// done.
pub proof fn law_open_without_descriptor(opened: Reply, replies: Seq<Reply>)
    requires
        opened.failed(),
    ensures
        run_open(port::after_open(opened), replies) == (Run::<TTYPort> {
            calls: seq![],
            result: Some(Err(opened.error())),
        }),
{
}

/// Where no call fails, opening a device claims it, makes it wait, and writes its settings back
/// set up for binary access. The port then has the descriptor and the initial timeout.
pub proof fn law_open_succeeds(opened: Reply, replies: Seq<Reply>)
    requires
        !opened.failed(),
        replies.len() >= 5,
        forall|i: int| 0 <= i < 5 ==> !(#[trigger] replies[i]).failed(),
    ensures
        run_open(port::after_open(opened), replies) == (Run::<TTYPort> {
            calls: opening_calls(opened.ret, replies[2].termios),
            result: Some(
                Ok(TTYPort::on(opened.ret, port::span_of_millis(port::INITIAL_TIMEOUT))),
            ),
        }),
{
    let port = TTYPort::on(opened.ret, port::span_of_millis(port::INITIAL_TIMEOUT));
    let t = replies[2].termios;
    TTYPort::lemma_parts(opened.ret, port::span_of_millis(port::INITIAL_TIMEOUT));
    lemma_run_from_stage(port, t, 0, 5, replies);
    assert(opening_calls(opened.ret, t).subrange(0, 5) =~= opening_calls(opened.ret, t));
}

/// Where a call fails once there is a descriptor, no call that would have followed it is made.
/// The descriptor is released and closed instead, whatever those calls come back with, and the
/// answer is the error of the call that failed.
pub proof fn law_open_fails(opened: Reply, replies: Seq<Reply>, failing: int)
    requires
        !opened.failed(),
        0 <= failing < 5,
        replies.len() >= failing + 3,
        replies[failing].failed(),
        forall|i: int| 0 <= i < failing ==> !(#[trigger] replies[i]).failed(),
    ensures
        run_open(port::after_open(opened), replies) == (Run::<TTYPort> {
            calls: opening_calls(opened.ret, replies[2].termios).take(failing + 1)
                + closing_calls(opened.ret),
            result: Some(Err(replies[failing].error())),
        }),
{
    let port = TTYPort::on(opened.ret, port::span_of_millis(port::INITIAL_TIMEOUT));
    let t = replies[2].termios;
    TTYPort::lemma_parts(opened.ret, port::span_of_millis(port::INITIAL_TIMEOUT));
    lemma_run_from_stage(port, t, 0, failing, replies);
    assert(opening_calls(opened.ret, t).subrange(0, failing + 1) =~= opening_calls(
        opened.ret,
        t,
    ).take(failing + 1));
}

/// The run of settings that are being written.
pub open spec fn run_write(step: WriteStep, replies: Seq<Reply>) -> Run<()>
    decreases replies.len(),
{
    match step {
        WriteStep::Done(result) => Run { calls: seq![], result: Some(result) },
        WriteStep::Next(write) => if replies.len() == 0 {
            Run { calls: seq![], result: None }
        } else {
            let rest = run_write(write.after(replies[0]), replies.drop_first());
            Run { calls: seq![write.due()] + rest.calls, result: rest.result }
        },
    }
}

/// To write settings is to put the state and then to throw away what is under way. The second
/// call is made if the first does not fail, and the answer is the error of the one that fails.
pub proof fn law_settings_written(fd: i32, settings: TTYSettings, replies: Seq<Reply>)
    requires
        replies.len() >= 2,
    ensures
        ({
            let put = Call::PutTermios { fd, request: port::TCSETS2, termios: settings.termios };
            let discard = Call::Discard { fd, queue: platform::file_numbers().tcioflush };
            let run = run_write(WriteStep::Next(SettingsWrite::Applying(fd, settings)), replies);
            if replies[0].failed() {
                run == (Run::<()> { calls: seq![put], result: Some(Err(replies[0].error())) })
            } else if replies[1].failed() {
                run == (Run::<()> {
                    calls: seq![put, discard],
                    result: Some(Err(replies[1].error())),
                })
            } else {
                run == (Run::<()> { calls: seq![put, discard], result: Some(Ok(())) })
            }
        }),
{
    reveal_with_fuel(run_write, 3);
    let put = Call::PutTermios { fd, request: port::TCSETS2, termios: settings.termios };
    let discard = Call::Discard { fd, queue: platform::file_numbers().tcioflush };
    assert(seq![put] + Seq::<Call>::empty() =~= seq![put]);
    assert(seq![put] + (seq![discard] + Seq::<Call>::empty()) =~= seq![put, discard]);
    assert(replies.drop_first()[0] == replies[1]);
}

/// The calls of a port that is being given up.
pub open spec fn run_close(closing: Option<Closing>) -> Seq<Call>
    decreases
            (match closing {
                Some(Closing::Releasing(_)) => 2int,
                Some(Closing::Closing(_)) => 1int,
                None => 0int,
            }),
{
    match closing {
        None => seq![],
        Some(closing) => seq![closing.due()] + run_close(closing.after()),
    }
}

/// A port that is given up is released and then closed.
pub proof fn law_close_releases(port: TTYPort)
    ensures
        run_close(Some(Closing::Releasing(port.descriptor()))) == closing_calls(port.descriptor()),
{
    reveal_with_fuel(run_close, 3);
    assert(run_close(Some(Closing::Releasing(port.descriptor()))) =~= closing_calls(
        port.descriptor(),
    ));
}

/// Settings that are read are always set up for binary access, with the parameters of the line
/// as the device has them.
pub proof fn law_settings_read_are_raw(reply: Reply)
    ensures
        port::after_settings_read(reply) matches Ok(settings) ==> {
            let device = TTYSettings { termios: reply.termios };
            &&& settings_laws::is_raw(settings)
            &&& settings_laws::same_rate(settings, device)
            &&& settings_laws::same_char_size(settings, device)
            &&& settings.line_parity() == device.line_parity()
            &&& settings.line_stop_bits() == device.line_stop_bits()
            &&& settings.line_flow_control() == device.line_flow_control()
        },
{
    settings_laws::law_raw_mode_is_stable(reply.termios);
    settings_laws::law_raw_mode_keeps_line(reply.termios);
}

/// A device that keeps the state it was given gives back the settings that were written.
pub proof fn law_settings_read_back(settings: TTYSettings, reply: Reply)
    requires
        settings_laws::is_raw(settings),
        !reply.failed(),
        reply.termios == settings.termios,
    ensures
        port::after_settings_read(reply) == Ok::<TTYSettings, Error>(settings),
{
}

/// Setting the timeout keeps the descriptor, and the timeout is then the one that was set.
pub proof fn law_timeout_reads_back(port: TTYPort, timeout: Duration)
    ensures
        TTYPort::on(port.descriptor(), timeout).patience() == timeout,
        TTYPort::on(port.descriptor(), timeout).descriptor() == port.descriptor(),
{
    TTYPort::lemma_parts(port.descriptor(), timeout);
}

/// A device that cannot be opened is answered with the error of the call, and nothing else is
/// done.
pub proof fn law_failed_open_is_final(opened: Reply, step: OpenStep, replies: Seq<Reply>)
    requires
        call_ensures(TTYPort::opened, (opened,), step),
        opened.ret < 0,
    ensures
        run_open(step, replies).calls == Seq::<Call>::empty(),
        run_open(step, replies).result == Some(
            Err::<TTYPort, Error>(Error { errno: opened.errno }),
        ),
{
}

/// Where no call fails, opening a device claims it, makes it wait, and writes its settings back
/// set up for binary access. The port then has the descriptor, and a timeout of a tenth of a
/// second.
pub proof fn law_opening_goes_through(
    opened: Reply,
    step: OpenStep,
    replies: Seq<Reply>,
    written: TTYSettings,
)
    requires
        call_ensures(TTYPort::opened, (opened,), step),
        opened.ret >= 0,
        replies.len() >= 5,
        forall|i: int| 0 <= i < 5 ==> (#[trigger] replies[i]).ret >= 0,
        call_ensures(TTYSettings::for_binary_access, (replies[2].termios,), written),
    ensures
        ({
            let fd = opened.ret;
            run_open(step, replies).calls == seq![
                Call::Ioctl { fd, request: platform::request_codes().tiocexcl },
                Call::Fcntl { fd, command: platform::file_numbers().f_setfl, argument: 0 },
                Call::GetTermios { fd, request: 0x802C_542A },
                Call::PutTermios { fd, request: 0x402C_542B, termios: written.termios },
                Call::Discard { fd, queue: platform::file_numbers().tcioflush },
            ]
        }),
        run_open(step, replies).result matches Some(Ok(port)) && port.descriptor() == opened.ret
            && port.patience() == port::span_of_millis(100),
{
    let port = TTYPort::on(opened.ret, port::span_of_millis(port::INITIAL_TIMEOUT));
    let t = replies[2].termios;
    assert forall|i: int| 0 <= i < 5 implies !(#[trigger] replies[i]).failed() by {}
    TTYPort::lemma_parts(opened.ret, port::span_of_millis(port::INITIAL_TIMEOUT));
    lemma_run_from_stage(port, t, 0, 5, replies);
    assert(opening_calls(opened.ret, t).subrange(0, 5) =~= opening_calls(opened.ret, t));
}

/// Where a call fails once there is a descriptor, no call that would have followed it is made.
/// The descriptor is released and closed instead, whatever those calls come back with, and the
/// answer is the error of the call that failed.
pub proof fn law_opening_cleans_up(
    opened: Reply,
    step: OpenStep,
    replies: Seq<Reply>,
    failing: int,
    written: TTYSettings,
)
    requires
        call_ensures(TTYPort::opened, (opened,), step),
        opened.ret >= 0,
        0 <= failing < 5,
        replies.len() >= failing + 3,
        replies[failing].ret < 0,
        forall|i: int| 0 <= i < failing ==> (#[trigger] replies[i]).ret >= 0,
        call_ensures(TTYSettings::for_binary_access, (replies[2].termios,), written),
    ensures
        ({
            let fd = opened.ret;
            let calls = seq![
                Call::Ioctl { fd, request: platform::request_codes().tiocexcl },
                Call::Fcntl { fd, command: platform::file_numbers().f_setfl, argument: 0 },
                Call::GetTermios { fd, request: 0x802C_542A },
                Call::PutTermios { fd, request: 0x402C_542B, termios: written.termios },
                Call::Discard { fd, queue: platform::file_numbers().tcioflush },
            ];
            run_open(step, replies).calls == calls.take(failing + 1) + seq![
                Call::Ioctl { fd, request: platform::request_codes().tiocnxcl },
                Call::Close { fd },
            ]
        }),
        run_open(step, replies).result == Some(
            Err::<TTYPort, Error>(Error { errno: replies[failing].errno }),
        ),
{
    let port = TTYPort::on(opened.ret, port::span_of_millis(port::INITIAL_TIMEOUT));
    let t = replies[2].termios;
    assert forall|i: int| 0 <= i < failing implies !(#[trigger] replies[i]).failed() by {}
    TTYPort::lemma_parts(opened.ret, port::span_of_millis(port::INITIAL_TIMEOUT));
    lemma_run_from_stage(port, t, 0, failing, replies);
    assert(opening_calls(opened.ret, t).subrange(0, failing + 1) =~= opening_calls(
        opened.ret,
        t,
    ).take(failing + 1));
}

/// To write settings is to put the state and then to throw away what is under way. The second
/// call is made if the first does not fail, and the answer is the error of the one that fails.
pub proof fn law_writing_settings_goes_through(
    port: TTYPort,
    fd: i32,
    settings: TTYSettings,
    write: SettingsWrite,
    replies: Seq<Reply>,
)
    requires
        call_ensures(TTYPort::as_raw_fd, (&port,), fd),
        call_ensures(TTYPort::write_settings, (&port, &settings), write),
        replies.len() >= 2,
    ensures
        ({
            let put = Call::PutTermios { fd, request: 0x402C_542B, termios: settings.termios };
            let discard = Call::Discard { fd, queue: platform::file_numbers().tcioflush };
            let run = run_write(WriteStep::Next(write), replies);
            let first = Error { errno: replies[0].errno };
            let second = Error { errno: replies[1].errno };
            if replies[0].ret < 0 {
                run.calls == seq![put] && run.result == Some(Err::<(), Error>(first))
            } else if replies[1].ret < 0 {
                run.calls == seq![put, discard] && run.result == Some(Err::<(), Error>(second))
            } else {
                run.calls == seq![put, discard] && run.result == Some(Ok::<(), Error>(()))
            }
        }),
{
    reveal_with_fuel(run_write, 3);
    let put = Call::PutTermios { fd, request: port::TCSETS2, termios: settings.termios };
    let discard = Call::Discard { fd, queue: platform::file_numbers().tcioflush };
    assert(seq![put] + Seq::<Call>::empty() =~= seq![put]);
    assert(seq![put] + (seq![discard] + Seq::<Call>::empty()) =~= seq![put, discard]);
    assert(replies.drop_first()[0] == replies[1]);
}

/// A port that is given up is released and then closed.
pub proof fn law_closing_goes_through(port: TTYPort, fd: i32, closing: Closing)
    requires
        call_ensures(TTYPort::as_raw_fd, (&port,), fd),
        call_ensures(TTYPort::close, (port,), closing),
    ensures
        run_close(Some(closing)) == seq![
            Call::Ioctl { fd, request: platform::request_codes().tiocnxcl },
            Call::Close { fd },
        ],
{
    reveal_with_fuel(run_close, 3);
    assert(run_close(Some(closing)) =~= closing_calls(fd));
}

} // verus!
