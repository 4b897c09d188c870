// The numbers that the library claims of the terminal interface. On a target that numbers it
// otherwise these fail.

#[test]
fn standard_speeds_have_the_claimed_numbers() {
    assert_eq!(libc::B0, 0);
    assert_eq!(libc::B50, 1);
    assert_eq!(libc::B75, 2);
    assert_eq!(libc::B110, 3);
    assert_eq!(libc::B134, 4);
    assert_eq!(libc::B150, 5);
    assert_eq!(libc::B200, 6);
    assert_eq!(libc::B300, 7);
    assert_eq!(libc::B600, 8);
    assert_eq!(libc::B1200, 9);
    assert_eq!(libc::B1800, 10);
    assert_eq!(libc::B2400, 11);
    assert_eq!(libc::B4800, 12);
    assert_eq!(libc::B9600, 13);
    assert_eq!(libc::B19200, 14);
    assert_eq!(libc::B38400, 15);
}

#[test]
fn extended_speeds_have_the_claimed_numbers() {
    assert_eq!(libc::B57600, 0x1001);
    assert_eq!(libc::B115200, 0x1002);
    assert_eq!(libc::B230400, 0x1003);
    assert_eq!(libc::B460800, 0x1004);
    assert_eq!(libc::B500000, 0x1005);
    assert_eq!(libc::B576000, 0x1006);
    assert_eq!(libc::B921600, 0x1007);
    assert_eq!(libc::B1000000, 0x1008);
    assert_eq!(libc::B1152000, 0x1009);
    assert_eq!(libc::B1500000, 0x100a);
    assert_eq!(libc::B2000000, 0x100b);
    assert_eq!(libc::B2500000, 0x100c);
    assert_eq!(libc::B3000000, 0x100d);
    assert_eq!(libc::B3500000, 0x100e);
    assert_eq!(libc::B4000000, 0x100f);
}

#[test]
fn control_modes_have_the_claimed_numbers() {
    assert_eq!(libc::CBAUD, 0x100f);
    assert_eq!(libc::CSIZE, 0x30);
    assert_eq!(libc::CS5, 0);
    assert_eq!(libc::CS6, 0x10);
    assert_eq!(libc::CS7, 0x20);
    assert_eq!(libc::CS8, 0x30);
    assert_eq!(libc::CSTOPB, 0x40);
    assert_eq!(libc::CREAD, 0x80);
    assert_eq!(libc::PARENB, 0x100);
    assert_eq!(libc::PARODD, 0x200);
    assert_eq!(libc::CLOCAL, 0x800);
    assert_eq!(libc::CRTSCTS, 0x8000_0000);
}

#[test]
fn input_modes_have_the_claimed_numbers() {
    assert_eq!(libc::IGNBRK, 0x1);
    assert_eq!(libc::IGNPAR, 0x4);
    assert_eq!(libc::INPCK, 0x10);
    assert_eq!(libc::INLCR, 0x40);
    assert_eq!(libc::IGNCR, 0x80);
    assert_eq!(libc::ICRNL, 0x100);
    assert_eq!(libc::IXON, 0x400);
    assert_eq!(libc::IXOFF, 0x1000);
}

#[test]
fn output_modes_have_the_claimed_numbers() {
    assert_eq!(libc::OPOST, 0x1);
}

#[test]
fn local_modes_have_the_claimed_numbers() {
    assert_eq!(libc::ISIG, 0x1);
    assert_eq!(libc::ICANON, 0x2);
    assert_eq!(libc::ECHO, 0x8);
    assert_eq!(libc::ECHOE, 0x10);
    assert_eq!(libc::ECHOK, 0x20);
    assert_eq!(libc::ECHONL, 0x40);
    assert_eq!(libc::IEXTEN, 0x8000);
}

#[test]
fn control_characters_have_the_claimed_numbers() {
    assert_eq!(libc::VTIME, 5);
    assert_eq!(libc::VMIN, 6);
}

#[test]
fn modem_lines_have_the_claimed_numbers() {
    assert_eq!(libc::TIOCM_DTR, 0x2);
    assert_eq!(libc::TIOCM_RTS, 0x4);
    assert_eq!(libc::TIOCM_CTS, 0x20);
    assert_eq!(libc::TIOCM_CD, 0x40);
    assert_eq!(libc::TIOCM_RI, 0x80);
    assert_eq!(libc::TIOCM_DSR, 0x100);
}

#[test]
fn requests_have_the_claimed_numbers() {
    assert_eq!(libc::TIOCEXCL as u64, 0x540c);
    assert_eq!(libc::TIOCNXCL as u64, 0x540d);
    assert_eq!(libc::TIOCMGET as u64, 0x5415);
    assert_eq!(libc::TIOCMBIS as u64, 0x5416);
    assert_eq!(libc::TIOCMBIC as u64, 0x5417);
}

#[test]
fn file_arguments_have_the_claimed_numbers() {
    assert_eq!(libc::O_RDWR, 0x2);
    assert_eq!(libc::O_NOCTTY, 0x100);
    assert_eq!(libc::O_NONBLOCK, 0x800);
    assert_eq!(libc::F_SETFL, 4);
    assert_eq!(libc::TCIOFLUSH, 2);
}

#[test]
fn errors_have_the_claimed_numbers() {
    assert_eq!(libc::ENOENT, 2);
    assert_eq!(libc::EIO, 5);
    assert_eq!(libc::ENXIO, 6);
    assert_eq!(libc::EACCES, 13);
    assert_eq!(libc::EBUSY, 16);
    assert_eq!(libc::ENODEV, 19);
    assert_eq!(libc::ENOTDIR, 20);
    assert_eq!(libc::EISDIR, 21);
    assert_eq!(libc::EINVAL, 22);
    assert_eq!(libc::EPIPE, 32);
    assert_eq!(libc::ENAMETOOLONG, 36);
    assert_eq!(libc::ELOOP, 40);
    assert_eq!(libc::ETIMEDOUT, 110);
}

#[test]
fn poll_events_have_the_claimed_numbers() {
    assert_eq!(libc::POLLIN, 0x1);
    assert_eq!(libc::POLLOUT, 0x4);
    assert_eq!(libc::POLLERR, 0x8);
    assert_eq!(libc::POLLHUP, 0x10);
}

#[test]
fn state_requests_have_the_numbers_of_the_system() {
    assert_eq!(libc::TCGETS2 as u64, serial_unix::port::TCGETS2);
    assert_eq!(libc::TCSETS2 as u64, serial_unix::port::TCSETS2);
    assert_eq!(serial_unix::port::TCGETS2, 0x802c_542a);
    assert_eq!(serial_unix::port::TCSETS2, 0x402c_542b);
}
