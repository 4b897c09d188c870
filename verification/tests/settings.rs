use serial_unix::{
    BaudRate, CharSize, Error, ErrorKind, FlowControl, Parity, StopBits, TTYSettings, Termios,
};

fn filled(word: u32, byte: u8) -> Termios {
    Termios {
        c_iflag: word,
        c_oflag: word,
        c_cflag: word,
        c_lflag: word,
        c_line: byte,
        c_cc: [byte; 19],
        c_ispeed: word,
        c_ospeed: word,
    }
}

fn default_settings() -> TTYSettings {
    TTYSettings::new(filled(0, 0))
}

fn busy_settings() -> TTYSettings {
    TTYSettings::new(filled(u32::MAX, 0xff))
}

#[test]
fn tty_settings_sets_baud_rate() {
    let mut settings = default_settings();

    settings.set_baud_rate(BaudRate::Baud600).unwrap();
    assert_eq!(settings.baud_rate(), Some(BaudRate::Baud600));
}

#[test]
fn tty_settings_overwrites_baud_rate() {
    let mut settings = default_settings();

    settings.set_baud_rate(BaudRate::Baud600).unwrap();
    settings.set_baud_rate(BaudRate::Baud1200).unwrap();
    assert_eq!(settings.baud_rate(), Some(BaudRate::Baud1200));
}

#[test]
fn tty_settings_sets_char_size() {
    let mut settings = default_settings();

    settings.set_char_size(CharSize::Bits8);
    assert_eq!(settings.char_size(), Some(CharSize::Bits8));
}

#[test]
fn tty_settings_overwrites_char_size() {
    let mut settings = default_settings();

    settings.set_char_size(CharSize::Bits8);
    settings.set_char_size(CharSize::Bits7);
    assert_eq!(settings.char_size(), Some(CharSize::Bits7));
}

#[test]
fn tty_settings_sets_parity_even() {
    let mut settings = default_settings();

    settings.set_parity(Parity::ParityEven);
    assert_eq!(settings.parity(), Some(Parity::ParityEven));
}

#[test]
fn tty_settings_sets_parity_odd() {
    let mut settings = default_settings();

    settings.set_parity(Parity::ParityOdd);
    assert_eq!(settings.parity(), Some(Parity::ParityOdd));
}

#[test]
fn tty_settings_sets_parity_none() {
    let mut settings = default_settings();

    settings.set_parity(Parity::ParityEven);
    settings.set_parity(Parity::ParityNone);
    assert_eq!(settings.parity(), Some(Parity::ParityNone));
}

#[test]
fn tty_settings_sets_stop_bits_1() {
    let mut settings = default_settings();

    settings.set_stop_bits(StopBits::Stop2);
    settings.set_stop_bits(StopBits::Stop1);
    assert_eq!(settings.stop_bits(), Some(StopBits::Stop1));
}

#[test]
fn tty_settings_sets_stop_bits_2() {
    let mut settings = default_settings();

    settings.set_stop_bits(StopBits::Stop1);
    settings.set_stop_bits(StopBits::Stop2);
    assert_eq!(settings.stop_bits(), Some(StopBits::Stop2));
}

#[test]
fn tty_settings_sets_flow_control_software() {
    let mut settings = default_settings();

    settings.set_flow_control(FlowControl::FlowSoftware);
    assert_eq!(settings.flow_control(), Some(FlowControl::FlowSoftware));
}

#[test]
fn tty_settings_sets_flow_control_hardware() {
    let mut settings = default_settings();

    settings.set_flow_control(FlowControl::FlowHardware);
    assert_eq!(settings.flow_control(), Some(FlowControl::FlowHardware));
}

#[test]
fn tty_settings_sets_flow_control_none() {
    let mut settings = default_settings();

    settings.set_flow_control(FlowControl::FlowHardware);
    settings.set_flow_control(FlowControl::FlowNone);
    assert_eq!(settings.flow_control(), Some(FlowControl::FlowNone));
}

fn rates() -> Vec<(BaudRate, u32)> {
    vec![
        (BaudRate::BaudOther(50), libc::B50),
        (BaudRate::BaudOther(75), libc::B75),
        (BaudRate::Baud110, libc::B110),
        (BaudRate::BaudOther(134), libc::B134),
        (BaudRate::BaudOther(150), libc::B150),
        (BaudRate::BaudOther(200), libc::B200),
        (BaudRate::Baud300, libc::B300),
        (BaudRate::Baud600, libc::B600),
        (BaudRate::Baud1200, libc::B1200),
        (BaudRate::BaudOther(1800), libc::B1800),
        (BaudRate::Baud2400, libc::B2400),
        (BaudRate::Baud4800, libc::B4800),
        (BaudRate::Baud9600, libc::B9600),
        (BaudRate::Baud19200, libc::B19200),
        (BaudRate::Baud38400, libc::B38400),
        (BaudRate::Baud57600, libc::B57600),
        (BaudRate::Baud115200, libc::B115200),
        (BaudRate::BaudOther(230400), libc::B230400),
        (BaudRate::BaudOther(460800), libc::B460800),
        (BaudRate::BaudOther(500000), libc::B500000),
        (BaudRate::BaudOther(576000), libc::B576000),
        (BaudRate::BaudOther(921600), libc::B921600),
        (BaudRate::BaudOther(1000000), libc::B1000000),
        (BaudRate::BaudOther(1152000), libc::B1152000),
        (BaudRate::BaudOther(1500000), libc::B1500000),
        (BaudRate::BaudOther(2000000), libc::B2000000),
        (BaudRate::BaudOther(2500000), libc::B2500000),
        (BaudRate::BaudOther(3000000), libc::B3000000),
        (BaudRate::BaudOther(3500000), libc::B3500000),
        (BaudRate::BaudOther(4000000), libc::B4000000),
    ]
}

#[test]
fn every_rate_has_the_code_of_the_system() {
    for (rate, code) in rates() {
        for mut settings in [default_settings(), busy_settings()] {
            settings.set_baud_rate(rate).unwrap();
            assert_eq!(settings.termios.c_cflag & libc::CBAUD, code);
            assert_eq!(settings.termios.c_cflag >> 16 & libc::CBAUD, libc::B0);
            assert_eq!(settings.baud_rate(), Some(rate));
        }
    }
}

#[test]
fn rate_keeps_the_bits_outside_its_fields() {
    let mut settings = busy_settings();
    settings.set_baud_rate(BaudRate::Baud9600).unwrap();
    assert_eq!(settings.termios.c_cflag, 0xeff0_effd);
    assert_eq!(settings.termios.c_iflag, u32::MAX);
}

#[test]
fn rates_without_a_code_are_refused() {
    for speed in [0, 1, 51, 110, 7200, 9600, 115200, 4000001] {
        let mut settings = busy_settings();
        let result = settings.set_baud_rate(BaudRate::BaudOther(speed));
        assert_eq!(result, Err(Error { errno: libc::EINVAL }));
        assert_eq!(result.unwrap_err().kind(), ErrorKind::InvalidInput);
        assert!(settings == busy_settings());
    }
}

#[test]
fn input_speed_follows_output_speed_unless_given() {
    let mut settings = default_settings();
    settings.termios.c_cflag = libc::B9600;
    assert_eq!(settings.baud_rate(), Some(BaudRate::Baud9600));
    settings.termios.c_cflag = libc::B9600 | libc::B9600 << 16;
    assert_eq!(settings.baud_rate(), Some(BaudRate::Baud9600));
    settings.termios.c_cflag = libc::B9600 | libc::B1200 << 16;
    assert_eq!(settings.baud_rate(), None);
}

#[test]
fn speeds_that_stand_for_no_rate_are_not_reported() {
    assert_eq!(default_settings().baud_rate(), None);
    let mut settings = default_settings();
    settings.termios.c_cflag = 0x1000;
    assert_eq!(settings.baud_rate(), None);
}

#[test]
fn char_sizes_have_the_codes_of_the_system() {
    let sizes = [
        (CharSize::Bits5, libc::CS5),
        (CharSize::Bits6, libc::CS6),
        (CharSize::Bits7, libc::CS7),
        (CharSize::Bits8, libc::CS8),
    ];
    for (size, code) in sizes {
        let mut settings = busy_settings();
        settings.set_char_size(size);
        assert_eq!(settings.termios.c_cflag & libc::CSIZE, code);
        assert_eq!(settings.termios.c_cflag | libc::CSIZE, u32::MAX);
        assert_eq!(settings.char_size(), Some(size));
    }
}

#[test]
fn parity_sets_the_modes_of_the_system() {
    let mut settings = default_settings();
    settings.set_parity(Parity::ParityOdd);
    assert_eq!(settings.termios.c_cflag, libc::PARENB | libc::PARODD);
    assert_eq!(settings.termios.c_iflag, libc::INPCK);
    settings.set_parity(Parity::ParityEven);
    assert_eq!(settings.termios.c_cflag, libc::PARENB);
    assert_eq!(settings.termios.c_iflag, libc::INPCK);
    settings.set_parity(Parity::ParityNone);
    assert_eq!(settings.termios.c_cflag, 0);
    assert_eq!(settings.termios.c_iflag, libc::IGNPAR);
}

#[test]
fn odd_parity_without_a_parity_bit_is_none() {
    let mut settings = default_settings();
    settings.termios.c_cflag = libc::PARODD;
    assert_eq!(settings.parity(), Some(Parity::ParityNone));
}

#[test]
fn stop_bits_set_the_mode_of_the_system() {
    let mut settings = default_settings();
    settings.set_stop_bits(StopBits::Stop2);
    assert_eq!(settings.termios.c_cflag, libc::CSTOPB);
    settings.set_stop_bits(StopBits::Stop1);
    assert_eq!(settings.termios.c_cflag, 0);
}

#[test]
fn flow_control_sets_the_modes_of_the_system() {
    let mut settings = default_settings();
    settings.set_flow_control(FlowControl::FlowSoftware);
    assert_eq!(settings.termios.c_iflag, libc::IXON | libc::IXOFF);
    assert_eq!(settings.termios.c_cflag, 0);
    settings.set_flow_control(FlowControl::FlowHardware);
    assert_eq!(settings.termios.c_iflag, 0);
    assert_eq!(settings.termios.c_cflag, libc::CRTSCTS);
    settings.set_flow_control(FlowControl::FlowNone);
    assert_eq!(settings.termios.c_iflag, 0);
    assert_eq!(settings.termios.c_cflag, 0);
}

#[test]
fn flow_control_of_the_hardware_goes_first() {
    assert_eq!(busy_settings().flow_control(), Some(FlowControl::FlowHardware));
    let mut settings = default_settings();
    settings.termios.c_iflag = libc::IXOFF;
    assert_eq!(settings.flow_control(), Some(FlowControl::FlowSoftware));
}

#[test]
fn settings_are_independent_of_each_other() {
    for mut settings in [default_settings(), busy_settings()] {
        settings.set_baud_rate(BaudRate::Baud115200).unwrap();
        settings.set_char_size(CharSize::Bits7);
        settings.set_parity(Parity::ParityEven);
        settings.set_stop_bits(StopBits::Stop2);
        settings.set_flow_control(FlowControl::FlowSoftware);
        assert_eq!(settings.baud_rate(), Some(BaudRate::Baud115200));
        assert_eq!(settings.char_size(), Some(CharSize::Bits7));
        assert_eq!(settings.parity(), Some(Parity::ParityEven));
        assert_eq!(settings.stop_bits(), Some(StopBits::Stop2));
        assert_eq!(settings.flow_control(), Some(FlowControl::FlowSoftware));
    }
}

#[test]
fn settings_can_be_set_in_any_order() {
    let mut one = busy_settings();
    one.set_baud_rate(BaudRate::Baud300).unwrap();
    one.set_parity(Parity::ParityNone);
    one.set_flow_control(FlowControl::FlowNone);
    one.set_char_size(CharSize::Bits6);
    one.set_stop_bits(StopBits::Stop1);
    let mut other = busy_settings();
    other.set_stop_bits(StopBits::Stop1);
    other.set_char_size(CharSize::Bits6);
    other.set_flow_control(FlowControl::FlowNone);
    other.set_parity(Parity::ParityNone);
    other.set_baud_rate(BaudRate::Baud300).unwrap();
    assert!(one == other);
}

#[test]
fn the_later_setting_leaves_no_trace_of_the_earlier() {
    let mut one = busy_settings();
    one.set_parity(Parity::ParityOdd);
    one.set_parity(Parity::ParityEven);
    one.set_flow_control(FlowControl::FlowSoftware);
    one.set_flow_control(FlowControl::FlowHardware);
    one.set_baud_rate(BaudRate::BaudOther(4000000)).unwrap();
    one.set_baud_rate(BaudRate::BaudOther(50)).unwrap();
    let mut other = busy_settings();
    other.set_parity(Parity::ParityEven);
    other.set_flow_control(FlowControl::FlowHardware);
    other.set_baud_rate(BaudRate::BaudOther(50)).unwrap();
    assert!(one == other);
}

#[test]
fn setting_what_is_set_changes_nothing() {
    let mut settings = busy_settings();
    settings.set_char_size(CharSize::Bits8);
    settings.set_stop_bits(StopBits::Stop2);
    assert!(settings == busy_settings());
}

#[test]
fn setting_the_current_rate_changes_nothing() {
    let mut settings = default_settings();
    settings.termios.c_cflag = 0xefff_0000 & !(libc::CBAUD << 16) | libc::B9600 | libc::CS8;
    let before = settings;
    settings.set_baud_rate(BaudRate::Baud9600).unwrap();
    assert!(settings == before);
    settings.termios.c_cflag |= libc::B9600 << 16;
    settings.set_baud_rate(BaudRate::Baud9600).unwrap();
    assert!(settings == before);
}

#[test]
fn binary_access_turns_the_terminal_off() {
    let raw = TTYSettings::for_binary_access(filled(0, 7)).termios;
    assert_eq!(raw.c_cflag, libc::CREAD | libc::CLOCAL);
    assert_eq!(raw.c_iflag, 0);
    assert_eq!(raw.c_oflag, 0);
    assert_eq!(raw.c_lflag, 0);

    let raw = TTYSettings::for_binary_access(filled(u32::MAX, 7)).termios;
    assert_eq!(raw.c_cflag, u32::MAX);
    assert_eq!(raw.c_oflag, !libc::OPOST);
    assert_eq!(
        raw.c_lflag,
        !(libc::ICANON
            | libc::ECHO
            | libc::ECHOE
            | libc::ECHOK
            | libc::ECHONL
            | libc::ISIG
            | libc::IEXTEN)
    );
    assert_eq!(
        raw.c_iflag,
        !(libc::INLCR | libc::IGNCR | libc::ICRNL | libc::IGNBRK)
    );
    let mut chars = [7; 19];
    chars[libc::VMIN] = 0;
    chars[libc::VTIME] = 0;
    assert_eq!(raw.c_cc, chars);
    assert_eq!((raw.c_line, raw.c_ispeed, raw.c_ospeed), (7, u32::MAX, u32::MAX));
}

#[test]
fn binary_access_is_stable_and_keeps_the_line() {
    let mut settings = busy_settings();
    settings.set_baud_rate(BaudRate::Baud38400).unwrap();
    settings.set_char_size(CharSize::Bits5);
    settings.set_parity(Parity::ParityOdd);
    settings.set_stop_bits(StopBits::Stop1);
    settings.set_flow_control(FlowControl::FlowSoftware);
    let raw = TTYSettings::for_binary_access(settings.termios);
    assert!(TTYSettings::for_binary_access(raw.termios) == raw);
    assert_eq!(raw.baud_rate(), Some(BaudRate::Baud38400));
    assert_eq!(raw.char_size(), Some(CharSize::Bits5));
    assert_eq!(raw.parity(), Some(Parity::ParityOdd));
    assert_eq!(raw.stop_bits(), Some(StopBits::Stop1));
    assert_eq!(raw.flow_control(), Some(FlowControl::FlowSoftware));
}

#[test]
fn settings_stay_set_up_for_binary_access() {
    let mut settings = TTYSettings::for_binary_access(filled(u32::MAX, 0xff));
    settings.set_baud_rate(BaudRate::Baud110).unwrap();
    settings.set_char_size(CharSize::Bits6);
    settings.set_parity(Parity::ParityNone);
    settings.set_stop_bits(StopBits::Stop1);
    settings.set_flow_control(FlowControl::FlowNone);
    assert!(TTYSettings::for_binary_access(settings.termios) == settings);
}

#[test]
fn settings_are_written_out() {
    let mut settings = default_settings();
    settings.termios.c_iflag = 5;
    settings.termios.c_oflag = 4294967295;
    settings.termios.c_cflag = 1200;
    settings.termios.c_cc[0] = 3;
    settings.termios.c_cc[18] = 255;
    assert_eq!(
        settings.debug_string(),
        "TTYSettings { termios: termios { c_iflag: 5, c_oflag: 4294967295, c_cflag: 1200, \
         c_lflag: 0, c_cc: [3, 0, 0, 0, 0, 0, 0, 0, 0, 0, 0, 0, 0, 0, 0, 0, 0, 0, 255] } }"
    );
}
