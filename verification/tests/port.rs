use std::time::Duration;

use serial_unix::{
    BaudRate, Call, Closing, DataCall, Error, ErrorKind, OpenStep, Reply, SettingsWrite, TTYPort,
    TTYSettings, Termios, Transfer, Wait, WriteStep,
};

fn state(word: u32) -> Termios {
    Termios {
        c_iflag: word,
        c_oflag: word,
        c_cflag: word,
        c_lflag: word,
        c_line: 0,
        c_cc: [1; 19],
        c_ispeed: 0,
        c_ospeed: 0,
    }
}

fn ok(ret: i32) -> Reply {
    Reply { ret, errno: 0, value: 0, termios: state(0) }
}

fn failure(errno: i32) -> Reply {
    Reply { ret: -1, errno, value: 0, termios: state(0) }
}

fn with_state(word: u32) -> Reply {
    Reply { ret: 0, errno: 0, value: 0, termios: state(word) }
}

fn with_value(value: i32) -> Reply {
    Reply { ret: 0, errno: 0, value, termios: state(0) }
}

fn run(mut step: OpenStep, replies: &[Reply]) -> (Vec<Call>, Option<Result<TTYPort, Error>>) {
    let mut calls = vec![];
    let mut i = 0;
    loop {
        match step {
            OpenStep::Done(result) => return (calls, Some(result)),
            OpenStep::Next(opening) => {
                if i == replies.len() {
                    return (calls, None);
                }
                calls.push(opening.call());
                step = opening.resume(replies[i]);
                i += 1;
            }
        }
    }
}

fn port_on(fd: i32) -> TTYPort {
    match run(TTYPort::opened(ok(fd)), &[ok(0), ok(0), with_state(0), ok(0), ok(0)]).1 {
        Some(Ok(port)) => port,
        _ => panic!("the port did not open"),
    }
}

fn opening_calls(fd: i32, word: u32) -> Vec<Call> {
    vec![
        Call::Ioctl { fd, request: libc::TIOCEXCL as u64 },
        Call::Fcntl { fd, command: libc::F_SETFL, argument: 0 },
        Call::GetTermios { fd, request: libc::TCGETS2 as u64 },
        Call::PutTermios {
            fd,
            request: libc::TCSETS2 as u64,
            termios: TTYSettings::for_binary_access(state(word)).termios,
        },
        Call::Discard { fd, queue: libc::TCIOFLUSH },
    ]
}

fn closing_calls(fd: i32) -> Vec<Call> {
    vec![
        Call::Ioctl { fd, request: libc::TIOCNXCL as u64 },
        Call::Close { fd },
    ]
}

#[test]
fn open_asks_for_the_device() {
    let request = TTYPort::open(b"/dev/ttyS0").unwrap_or_else(|_| panic!("refused"));
    assert_eq!(request.path, b"/dev/ttyS0\0");
    assert_eq!(request.flags, libc::O_RDWR | libc::O_NOCTTY | libc::O_NONBLOCK);
    assert_eq!(request.mode, 0);
}

#[test]
fn open_takes_an_empty_path() {
    let request = TTYPort::open(b"").unwrap_or_else(|_| panic!("refused"));
    assert_eq!(request.path, b"\0");
}

#[test]
fn open_refuses_a_path_with_a_zero_byte() {
    for path in [&b"\0"[..], b"/dev\0/ttyS0", b"/dev/ttyS0\0"] {
        let error = match TTYPort::open(path) {
            Err(error) => error,
            Ok(_) => panic!("accepted"),
        };
        assert_eq!(error.raw_os_error(), libc::EINVAL);
        assert_eq!(error.kind(), ErrorKind::InvalidInput);
    }
}

#[test]
fn open_without_a_descriptor_ends_at_once() {
    let (calls, result) = run(TTYPort::opened(failure(libc::ENOENT)), &[ok(0)]);
    assert!(calls.is_empty());
    match result {
        Some(Err(error)) => assert_eq!(error.kind(), ErrorKind::NoDevice),
        _ => panic!("no error"),
    }
}

#[test]
fn open_claims_the_device_and_writes_its_settings_back() {
    let replies = [ok(0), ok(0), with_state(0xffff), ok(0), ok(0)];
    let (calls, result) = run(TTYPort::opened(ok(3)), &replies);
    assert_eq!(calls, opening_calls(3, 0xffff));
    match result {
        Some(Ok(port)) => {
            assert_eq!(port.as_raw_fd(), 3);
            assert_eq!(port.timeout(), Duration::from_millis(100));
        }
        _ => panic!("the port did not open"),
    }
}

#[test]
fn open_takes_descriptor_zero() {
    assert_eq!(port_on(0).as_raw_fd(), 0);
}

#[test]
fn open_gives_up_the_descriptor_when_a_call_fails() {
    for failing in 0..5 {
        let mut replies = vec![ok(0), ok(0), with_state(0xffff), ok(0), ok(0)];
        replies.truncate(failing);
        replies.push(failure(libc::EIO));
        replies.push(failure(libc::EBADF));
        replies.push(failure(libc::EBADF));
        let (calls, result) = run(TTYPort::opened(ok(7)), &replies);
        let mut expected = opening_calls(7, 0xffff);
        expected.truncate(failing + 1);
        expected.extend(closing_calls(7));
        assert_eq!(calls, expected);
        match result {
            Some(Err(error)) => {
                assert_eq!(error.raw_os_error(), libc::EIO);
                assert_eq!(error.kind(), ErrorKind::Io);
            }
            _ => panic!("no error"),
        }
    }
}

#[test]
fn close_releases_the_device_first() {
    let mut calls = vec![];
    let mut closing: Option<Closing> = Some(port_on(9).close());
    while let Some(now) = closing {
        calls.push(now.call());
        closing = now.resume();
    }
    assert_eq!(calls, closing_calls(9));
}

#[test]
fn timeout_reads_back() {
    let mut port = port_on(4);
    port.set_timeout(Duration::from_secs(2)).unwrap();
    assert_eq!(port.timeout(), Duration::from_secs(2));
    assert_eq!(port.as_raw_fd(), 4);
}

#[test]
fn settings_are_read_set_up_for_binary_access() {
    let port = port_on(4);
    assert_eq!(
        port.read_settings(),
        Call::GetTermios { fd: 4, request: 0x802C542A }
    );
    let settings = TTYPort::settings_read(with_state(0xffff)).unwrap_or_else(|_| panic!("failed"));
    assert!(settings == TTYSettings::for_binary_access(state(0xffff)));
    match TTYPort::settings_read(failure(libc::ENOTTY)) {
        Err(error) => assert_eq!(error.raw_os_error(), libc::ENOTTY),
        Ok(_) => panic!("no error"),
    }
}

#[test]
fn written_settings_read_back() {
    let mut settings = TTYSettings::for_binary_access(state(0));
    settings.set_baud_rate(BaudRate::Baud19200).unwrap();
    let termios = match port_on(4).write_settings(&settings).call() {
        Call::PutTermios { termios, .. } => termios,
        _ => panic!("another call"),
    };
    let reply = Reply { ret: 0, errno: 0, value: 0, termios };
    let again = TTYPort::settings_read(reply).unwrap_or_else(|_| panic!("failed"));
    assert!(again == settings);
}

fn run_write(first: SettingsWrite, replies: &[Reply]) -> (Vec<Call>, Result<(), Error>) {
    let mut calls = vec![];
    let mut write = first;
    for reply in replies {
        calls.push(write.call());
        match write.resume(*reply) {
            WriteStep::Next(next) => write = next,
            WriteStep::Done(result) => return (calls, result),
        }
    }
    panic!("not done");
}

#[test]
fn settings_are_written_and_the_queues_discarded() {
    let settings = TTYSettings::new(state(0x1234));
    let write = port_on(5).write_settings(&settings);
    let put = Call::PutTermios { fd: 5, request: 0x402C542B, termios: state(0x1234) };
    let discard = Call::Discard { fd: 5, queue: libc::TCIOFLUSH };
    let error = Error { errno: libc::EIO };
    assert_eq!(run_write(write, &[ok(0), ok(0)]), (vec![put, discard], Ok(())));
    assert_eq!(run_write(write, &[failure(libc::EIO)]), (vec![put], Err(error)));
    assert_eq!(
        run_write(write, &[ok(0), failure(libc::EIO)]),
        (vec![put, discard], Err(error))
    );
}

#[test]
fn modem_lines_are_driven() {
    let port = port_on(6);
    let set = libc::TIOCMBIS as u64;
    let clear = libc::TIOCMBIC as u64;
    let rts = libc::TIOCM_RTS;
    let dtr = libc::TIOCM_DTR;
    assert_eq!(port.set_rts(true), Call::PutInt { fd: 6, request: set, value: rts });
    assert_eq!(port.set_rts(false), Call::PutInt { fd: 6, request: clear, value: rts });
    assert_eq!(port.set_dtr(true), Call::PutInt { fd: 6, request: set, value: dtr });
    assert_eq!(port.set_dtr(false), Call::PutInt { fd: 6, request: clear, value: dtr });
    assert_eq!(ok(0).status(), Ok(()));
    assert_eq!(failure(libc::EIO).status(), Err(Error { errno: libc::EIO }));
}

#[test]
fn modem_lines_are_read() {
    let port = port_on(6);
    let lines = [
        (port.read_cts(), libc::TIOCM_CTS),
        (port.read_dsr(), libc::TIOCM_DSR),
        (port.read_ri(), libc::TIOCM_RI),
        (port.read_cd(), libc::TIOCM_CD),
    ];
    for (read, bit) in lines {
        assert_eq!(
            read.call(),
            Call::GetInt { fd: 6, request: libc::TIOCMGET as u64 }
        );
        assert_eq!(read.finish(with_value(bit)), Ok(true));
        assert_eq!(read.finish(with_value(!bit)), Ok(false));
        assert_eq!(
            read.finish(failure(libc::ENOTTY)),
            Err(Error { errno: libc::ENOTTY })
        );
    }
}

#[test]
fn transfers_wait_first() {
    let mut port = port_on(8);
    let timeout = Duration::from_millis(250);
    port.set_timeout(timeout).unwrap();
    let read = port.read(16);
    assert_eq!(read.wait, Wait { fd: 8, events: libc::POLLIN, timeout });
    assert_eq!(read.resume(Ok(())), Ok(DataCall::Read { fd: 8, len: 16 }));
    let write = port.write(32);
    assert_eq!(write.wait, Wait { fd: 8, events: libc::POLLOUT, timeout });
    assert_eq!(write.resume(Ok(())), Ok(DataCall::Write { fd: 8, len: 32 }));
    let late = Error { errno: libc::ETIMEDOUT };
    assert_eq!(read.resume(Err(late)), Err(late));
    assert_eq!(write.resume(Err(late)), Err(late));
}

#[test]
fn waits_end_in_readiness_or_an_error() {
    let wait = Wait::for_read(8, Duration::from_millis(250));
    let failed = |errno| Err(Error { errno });
    assert_eq!(wait.finish(1, 0, libc::POLLIN), Ok(()));
    assert_eq!(wait.finish(1, 0, libc::POLLIN | libc::POLLHUP), Ok(()));
    assert_eq!(wait.finish(-1, libc::EINTR, libc::POLLIN), failed(libc::EINTR));
    assert_eq!(wait.finish(0, 0, 0), failed(libc::ETIMEDOUT));
    assert_eq!(wait.finish(1, 0, libc::POLLERR), failed(libc::EPIPE));
    assert_eq!(wait.finish(1, 0, libc::POLLHUP), failed(libc::EPIPE));
    assert_eq!(wait.finish(1, 0, libc::POLLNVAL), failed(libc::EIO));
    assert_eq!(wait.finish(1, 0, libc::POLLOUT), failed(libc::EIO));
    let wait = Wait::for_write(8, Duration::from_millis(250));
    assert_eq!(wait.finish(1, 0, libc::POLLOUT), Ok(()));
    assert_eq!(wait.finish(1, 0, libc::POLLIN), failed(libc::EIO));
}

#[test]
fn transfers_count_their_bytes() {
    assert_eq!(Transfer::finish(0, libc::EIO), Ok(0));
    assert_eq!(Transfer::finish(16, 0), Ok(16));
    assert_eq!(Transfer::finish(isize::MAX, 0), Ok(isize::MAX as usize));
    assert_eq!(
        Transfer::finish(-1, libc::EIO),
        Err(Error { errno: libc::EIO })
    );
}

#[test]
fn flush_drains_the_output() {
    assert_eq!(port_on(8).flush(), Call::Drain { fd: 8 });
}

#[test]
fn errors_have_kinds() {
    let no_device = [
        libc::EBUSY,
        libc::EISDIR,
        libc::ELOOP,
        libc::ENOTDIR,
        libc::ENOENT,
        libc::ENODEV,
        libc::ENXIO,
        libc::EACCES,
    ];
    for errno in no_device {
        assert_eq!(Error::from_raw_os_error(errno).kind(), ErrorKind::NoDevice);
    }
    for errno in [libc::EINVAL, libc::ENAMETOOLONG] {
        assert_eq!(Error::from_raw_os_error(errno).kind(), ErrorKind::InvalidInput);
    }
    for errno in [0, libc::EIO, libc::EINTR, libc::EWOULDBLOCK, libc::EBADF] {
        assert_eq!(Error::from_raw_os_error(errno).kind(), ErrorKind::Io);
    }
}
