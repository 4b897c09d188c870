//! Settings of a terminal device.
use vstd::prelude::*;

use crate::bits;
use crate::error::Error;
use crate::line::{BaudRate, CharSize, FlowControl, Parity, StopBits};
use crate::platform;
use crate::speed;

verus! {

/// How far the input speed lies above the output speed in the control modes.
pub const IBSHIFT: u32 = 16;

/// The state of a terminal device, word for word as the kernel keeps it.
#[derive(Debug, Copy, Clone, PartialEq, Eq)]
pub struct Termios {
    /// Input modes.
    pub c_iflag: u32,
    /// Output modes.
    pub c_oflag: u32,
    /// Control modes.
    pub c_cflag: u32,
    /// Local modes.
    pub c_lflag: u32,
    /// Line discipline.
    pub c_line: u8,
    /// Control characters.
    pub c_cc: [u8; 19],
    /// Input speed, for speeds that have no code.
    pub c_ispeed: u32,
    /// Output speed, for speeds that have no code.
    pub c_ospeed: u32,
}

/// Serial port settings for TTY devices.
#[derive(Copy, Clone, PartialEq, Eq)]
pub struct TTYSettings {
    /// The state that the settings describe.
    pub termios: Termios,
}

/// The part of the control modes that holds both speeds.
pub open spec fn speed_field() -> u32 {
    platform::cflags().cbaud | (platform::cflags().cbaud << IBSHIFT)
}

/// The settings with the output speed that `code` names, and the input speed left to follow it.
pub open spec fn with_speed(settings: TTYSettings, code: u32) -> TTYSettings {
    let t = settings.termios;
    TTYSettings {
        termios: Termios { c_cflag: bits::with_field(t.c_cflag, speed_field(), code), ..t },
    }
}

/// The code of a character size.
pub open spec fn size_code(size: CharSize) -> u32 {
    match size {
        CharSize::Bits5 => platform::cflags().cs5,
        CharSize::Bits6 => platform::cflags().cs6,
        CharSize::Bits7 => platform::cflags().cs7,
        CharSize::Bits8 => platform::cflags().cs8,
    }
}

/// The settings with the given character size.
pub open spec fn with_char_size(settings: TTYSettings, size: CharSize) -> TTYSettings {
    let t = settings.termios;
    TTYSettings {
        termios: Termios {
            c_cflag: bits::with_field(t.c_cflag, platform::cflags().csize, size_code(size)),
            ..t
        },
    }
}

/// The part of the control modes that says which parity bit is sent.
pub open spec fn parity_field() -> u32 {
    platform::cflags().parenb | platform::cflags().parodd
}

/// The part of the input modes that says what becomes of parity errors.
pub open spec fn parity_check_field() -> u32 {
    platform::iflags().inpck | platform::iflags().ignpar
}

/// The control modes that send a parity bit.
pub open spec fn parity_code(parity: Parity) -> u32 {
    match parity {
        Parity::ParityNone => 0,
        Parity::ParityOdd => parity_field(),
        Parity::ParityEven => platform::cflags().parenb,
    }
}

/// The input modes that go with a parity bit: errors are looked for where there is one, and
/// passed over where there is none.
pub open spec fn parity_check_code(parity: Parity) -> u32 {
    match parity {
        Parity::ParityNone => platform::iflags().ignpar,
        _ => platform::iflags().inpck,
    }
}

/// The settings with the given parity.
pub open spec fn with_parity(settings: TTYSettings, parity: Parity) -> TTYSettings {
    let t = settings.termios;
    TTYSettings {
        termios: Termios {
            c_cflag: bits::with_field(t.c_cflag, parity_field(), parity_code(parity)),
            c_iflag: bits::with_field(t.c_iflag, parity_check_field(), parity_check_code(parity)),
            ..t
        },
    }
}

/// The code of a number of stop bits.
pub open spec fn stop_code(stop_bits: StopBits) -> u32 {
    match stop_bits {
        StopBits::Stop1 => 0,
        StopBits::Stop2 => platform::cflags().cstopb,
    }
}

/// The settings with the given number of stop bits.
pub open spec fn with_stop_bits(settings: TTYSettings, stop_bits: StopBits) -> TTYSettings {
    let t = settings.termios;
    TTYSettings {
        termios: Termios {
            c_cflag: bits::with_field(t.c_cflag, platform::cflags().cstopb, stop_code(stop_bits)),
            ..t
        },
    }
}

/// The part of the input modes that flow control with characters takes.
pub open spec fn xon_xoff_field() -> u32 {
    platform::iflags().ixon | platform::iflags().ixoff
}

/// The control modes of a kind of flow control.
pub open spec fn flow_code(flow_control: FlowControl) -> u32 {
    match flow_control {
        FlowControl::FlowHardware => platform::cflags().crtscts,
        _ => 0,
    }
}

/// The input modes of a kind of flow control.
pub open spec fn xon_xoff_code(flow_control: FlowControl) -> u32 {
    match flow_control {
        FlowControl::FlowSoftware => xon_xoff_field(),
        _ => 0,
    }
}

/// The settings with the given flow control.
pub open spec fn with_flow_control(
    settings: TTYSettings,
    flow_control: FlowControl,
) -> TTYSettings {
    let t = settings.termios;
    TTYSettings {
        termios: Termios {
            c_cflag: bits::with_field(
                t.c_cflag,
                platform::cflags().crtscts,
                flow_code(flow_control),
            ),
            c_iflag: bits::with_field(t.c_iflag, xon_xoff_field(), xon_xoff_code(flow_control)),
            ..t
        },
    }
}

/// The control modes of a device that is read and has no modem to wait for.
pub open spec fn receiver_field() -> u32 {
    platform::cflags().cread | platform::cflags().clocal
}

/// The input modes that change what comes in.
pub open spec fn translation_field() -> u32 {
    platform::iflags().inlcr | platform::iflags().igncr | platform::iflags().icrnl
        | platform::iflags().ignbrk
}

/// The local modes that make a terminal of the device: lines, echo and signals.
pub open spec fn terminal_field() -> u32 {
    let l = platform::lflags();
    l.icanon | l.echo | l.echoe | l.echok | l.echonl | l.isig | l.iexten
}

/// The state with the device set up for binary access. The receiver is on, bytes pass unchanged
/// in both directions, and a read returns at once with what is there.
pub open spec fn raw_mode(t: Termios) -> Termios {
    let places = platform::cc_places();
    Termios {
        c_iflag: bits::with_field(t.c_iflag, translation_field(), 0),
        c_oflag: bits::with_field(t.c_oflag, platform::oflags().opost, 0),
        c_cflag: bits::with_field(t.c_cflag, receiver_field(), receiver_field()),
        c_lflag: bits::with_field(t.c_lflag, terminal_field(), 0),
        c_cc: vstd::array::spec_array_update(
            vstd::array::spec_array_update(t.c_cc, places.vmin as int, 0),
            places.vtime as int,
            0,
        ),
        ..t
    }
}

impl TTYSettings {
    /// The code of the output speed.
    pub open spec fn output_speed(self) -> u32 {
        self.termios.c_cflag & platform::cflags().cbaud
    }

    /// The code of the input speed, which is that of the output speed where none is given.
    pub open spec fn input_speed(self) -> u32 {
        let code = (self.termios.c_cflag >> IBSHIFT) & platform::cflags().cbaud;
        if code == platform::standard_codes().b0 {
            self.output_speed()
        } else {
            code
        }
    }

    /// Whether the line runs at the given rate in both directions.
    pub open spec fn runs_at(self, rate: BaudRate) -> bool {
        &&& self.input_speed() == self.output_speed()
        &&& speed::speed_code(rate) == Some(self.output_speed())
    }

    /// Whether the line runs at no rate that has a code.
    pub open spec fn has_no_rate(self) -> bool {
        forall|rate: BaudRate| !#[trigger] self.runs_at(rate)
    }

    /// Whether characters have the given size.
    pub open spec fn has_char_size(self, size: CharSize) -> bool {
        self.termios.c_cflag & platform::cflags().csize == size_code(size)
    }

    /// The parity of the line.
    pub open spec fn line_parity(self) -> Parity {
        if self.termios.c_cflag & platform::cflags().parenb == 0 {
            Parity::ParityNone
        } else if self.termios.c_cflag & platform::cflags().parodd == 0 {
            Parity::ParityEven
        } else {
            Parity::ParityOdd
        }
    }

    /// The stop bits of the line.
    pub open spec fn line_stop_bits(self) -> StopBits {
        if self.termios.c_cflag & platform::cflags().cstopb == 0 {
            StopBits::Stop1
        } else {
            StopBits::Stop2
        }
    }

    /// The flow control of the line. That of the hardware goes before that of the software.
    pub open spec fn line_flow_control(self) -> FlowControl {
        if self.termios.c_cflag & platform::cflags().crtscts != 0 {
            FlowControl::FlowHardware
        } else if self.termios.c_iflag & xon_xoff_field() != 0 {
            FlowControl::FlowSoftware
        } else {
            FlowControl::FlowNone
        }
    }

    /// The settings that describe the given state.
    pub fn new(termios: Termios) -> (settings: Self)
        ensures
            settings == (TTYSettings { termios }),
    {
        TTYSettings { termios }
    }

    /// The rate of the line: none where the two directions differ, or where the speed has no
    /// code.
    pub fn baud_rate(&self) -> (found: Option<BaudRate>)
        ensures
            forall|rate: BaudRate| found == Some(rate) <==> #[trigger] self.runs_at(rate),
            match found {
                Some(rate) => self.runs_at(rate),
                None => self.has_no_rate(),
            },
    {
        let cbaud: u32 = platform::control_flags().cbaud;
        let b0: u32 = platform::standard_speeds().b0;

        let ospeed: u32 = self.termios.c_cflag & cbaud;
        let icode: u32 = (self.termios.c_cflag >> IBSHIFT) & cbaud;
        let ispeed: u32 = if icode == b0 {
            ospeed
        } else {
            icode
        };

        if ospeed != ispeed {
            return None;
        }
        speed::rate_of_code(ospeed)
    }

    /// Settings that describe the given state, once set up for binary serial port access.
    pub fn for_binary_access(termios: Termios) -> (settings: Self)
        ensures
            settings == (TTYSettings { termios: raw_mode(termios) }),
    {
        let c = platform::control_flags();
        let l = platform::local_flags();
        let o = platform::output_flags();
        let i = platform::input_flags();
        let places = platform::control_chars();

        let mut t = termios;
        t.c_cflag = t.c_cflag | (c.cread | c.clocal);
        t.c_lflag = t.c_lflag & !(l.icanon | l.echo | l.echoe | l.echok | l.echonl | l.isig
            | l.iexten);
        t.c_oflag = t.c_oflag & !o.opost;
        t.c_iflag = t.c_iflag & !(i.inlcr | i.igncr | i.icrnl | i.ignbrk);

        t.c_cc[places.vmin] = 0;
        t.c_cc[places.vtime] = 0;
        proof {
            bits::lemma_field_filled(termios.c_cflag, receiver_field());
            bits::lemma_field_cleared(termios.c_lflag, terminal_field());
            bits::lemma_field_cleared(termios.c_oflag, platform::oflags().opost);
            bits::lemma_field_cleared(termios.c_iflag, translation_field());
            assert(t.c_cc =~= raw_mode(termios).c_cc);
        }
        TTYSettings::new(t)
    }

    /// The size of a character.
    pub fn char_size(&self) -> (found: Option<CharSize>)
        ensures
            found is Some,
            self.has_char_size(found->0),
            forall|size: CharSize| found == Some(size) <==> #[trigger] self.has_char_size(size),
    {
        let c = platform::control_flags();
        let code: u32 = self.termios.c_cflag & c.csize;
        proof {
            let word = self.termios.c_cflag;
            assert(word & 0x30 == 0 || word & 0x30 == 0x10 || word & 0x30 == 0x20 || word & 0x30
                == 0x30) by (bit_vector);
        }
        if code == c.cs8 {
            Some(CharSize::Bits8)
        } else if code == c.cs7 {
            Some(CharSize::Bits7)
        } else if code == c.cs6 {
            Some(CharSize::Bits6)
        } else if code == c.cs5 {
            Some(CharSize::Bits5)
        } else {
            None
        }
    }

    /// The parity bit.
    pub fn parity(&self) -> (found: Option<Parity>)
        ensures
            found == Some(self.line_parity()),
    {
        let c = platform::control_flags();
        if self.termios.c_cflag & c.parenb != 0 {
            if self.termios.c_cflag & c.parodd != 0 {
                Some(Parity::ParityOdd)
            } else {
                Some(Parity::ParityEven)
            }
        } else {
            Some(Parity::ParityNone)
        }
    }

    /// The number of stop bits.
    pub fn stop_bits(&self) -> (found: Option<StopBits>)
        ensures
            found == Some(self.line_stop_bits()),
    {
        if self.termios.c_cflag & platform::control_flags().cstopb != 0 {
            Some(StopBits::Stop2)
        } else {
            Some(StopBits::Stop1)
        }
    }

    /// The flow control.
    pub fn flow_control(&self) -> (found: Option<FlowControl>)
        ensures
            found == Some(self.line_flow_control()),
    {
        let i = platform::input_flags();
        if self.termios.c_cflag & platform::control_flags().crtscts != 0 {
            Some(FlowControl::FlowHardware)
        } else if self.termios.c_iflag & (i.ixon | i.ixoff) != 0 {
            Some(FlowControl::FlowSoftware)
        } else {
            Some(FlowControl::FlowNone)
        }
    }

    /// Sets the rate of both directions. A rate that has no code is refused, and changes nothing.
    pub fn set_baud_rate(&mut self, baud_rate: BaudRate) -> (result: Result<(), Error>)
        ensures
            match speed::speed_code(baud_rate) {
                Some(code) => {
                    &&& result == Ok::<(), Error>(())
                    &&& *final(self) == with_speed(*old(self), code)
                    &&& final(self).runs_at(baud_rate)
                },
                None => {
                    &&& result == Err::<(), Error>(Error::invalid())
                    &&& *final(self) == *old(self)
                },
            },
    {
        let baud: u32 = match speed::code_of_rate(baud_rate) {
            Some(code) => code,
            None => {
                return Err(Error::from_raw_os_error(platform::error_numbers().einval));
            },
        };

        let cbaud: u32 = platform::control_flags().cbaud;
        let b0: u32 = platform::standard_speeds().b0;
        self.termios.c_cflag = self.termios.c_cflag & !(cbaud | cbaud << IBSHIFT);
        self.termios.c_cflag = self.termios.c_cflag | (baud | b0 << IBSHIFT);
        proof {
            assert(baud | 0u32 << 16u32 == baud) by (bit_vector);
            lemma_speed_reads_back(*old(self), baud_rate);
        }
        Ok(())
    }

    /// Sets the size of a character.
    pub fn set_char_size(&mut self, char_size: CharSize)
        ensures
            *final(self) == with_char_size(*old(self), char_size),
            final(self).has_char_size(char_size),
    {
        let c = platform::control_flags();
        let size: u32 = match char_size {
            CharSize::Bits5 => c.cs5,
            CharSize::Bits6 => c.cs6,
            CharSize::Bits7 => c.cs7,
            CharSize::Bits8 => c.cs8,
        };

        self.termios.c_cflag = self.termios.c_cflag & !c.csize;
        self.termios.c_cflag = self.termios.c_cflag | size;
        proof {
            lemma_char_size_reads_back(*old(self), char_size);
        }
    }

    /// Sets the parity bit.
    pub fn set_parity(&mut self, parity: Parity)
        ensures
            *final(self) == with_parity(*old(self), parity),
            final(self).line_parity() == parity,
    {
        let c = platform::control_flags();
        let i = platform::input_flags();
        match parity {
            Parity::ParityNone => {
                self.termios.c_cflag = self.termios.c_cflag & !(c.parenb | c.parodd);
                self.termios.c_iflag = self.termios.c_iflag & !i.inpck;
                self.termios.c_iflag = self.termios.c_iflag | i.ignpar;
            },
            Parity::ParityOdd => {
                self.termios.c_cflag = self.termios.c_cflag | (c.parenb | c.parodd);
                self.termios.c_iflag = self.termios.c_iflag | i.inpck;
                self.termios.c_iflag = self.termios.c_iflag & !i.ignpar;
            },
            Parity::ParityEven => {
                self.termios.c_cflag = self.termios.c_cflag & !c.parodd;
                self.termios.c_cflag = self.termios.c_cflag | c.parenb;
                self.termios.c_iflag = self.termios.c_iflag | i.inpck;
                self.termios.c_iflag = self.termios.c_iflag & !i.ignpar;
            },
        }
        proof {
            lemma_parity_words(old(self).termios.c_cflag, old(self).termios.c_iflag);
            lemma_parity_reads_back(*old(self), parity);
        }
    }

    /// Sets the number of stop bits.
    pub fn set_stop_bits(&mut self, stop_bits: StopBits)
        ensures
            *final(self) == with_stop_bits(*old(self), stop_bits),
            final(self).line_stop_bits() == stop_bits,
    {
        let cstopb: u32 = platform::control_flags().cstopb;
        match stop_bits {
            StopBits::Stop1 => {
                self.termios.c_cflag = self.termios.c_cflag & !cstopb;
            },
            StopBits::Stop2 => {
                self.termios.c_cflag = self.termios.c_cflag | cstopb;
            },
        }
        proof {
            bits::lemma_field_cleared(old(self).termios.c_cflag, cstopb);
            bits::lemma_field_filled(old(self).termios.c_cflag, cstopb);
            lemma_stop_bits_read_back(*old(self), stop_bits);
        }
    }

    /// Sets the flow control.
    pub fn set_flow_control(&mut self, flow_control: FlowControl)
        ensures
            *final(self) == with_flow_control(*old(self), flow_control),
            final(self).line_flow_control() == flow_control,
    {
        let i = platform::input_flags();
        let crtscts: u32 = platform::control_flags().crtscts;
        match flow_control {
            FlowControl::FlowNone => {
                self.termios.c_iflag = self.termios.c_iflag & !(i.ixon | i.ixoff);
                self.termios.c_cflag = self.termios.c_cflag & !crtscts;
            },
            FlowControl::FlowSoftware => {
                self.termios.c_iflag = self.termios.c_iflag | (i.ixon | i.ixoff);
                self.termios.c_cflag = self.termios.c_cflag & !crtscts;
            },
            FlowControl::FlowHardware => {
                self.termios.c_iflag = self.termios.c_iflag & !(i.ixon | i.ixoff);
                self.termios.c_cflag = self.termios.c_cflag | crtscts;
            },
        }
        proof {
            bits::lemma_field_cleared(old(self).termios.c_cflag, crtscts);
            bits::lemma_field_filled(old(self).termios.c_cflag, crtscts);
            bits::lemma_field_cleared(old(self).termios.c_iflag, xon_xoff_field());
            bits::lemma_field_filled(old(self).termios.c_iflag, xon_xoff_field());
            lemma_flow_control_reads_back(*old(self), flow_control);
        }
    }
}

/// Every speed code lies within its field.
pub(crate) proof fn lemma_code_fits(rate: BaudRate)
    ensures
        speed::speed_code(rate) matches Some(code) ==> bits::fits(code, platform::cflags().cbaud),
{
    assert(forall|code: u32|
        code <= 0xf || 0x1000 <= code <= 0x100f ==> #[trigger] (code & 0x100f) == code)
        by (bit_vector);
}

/// A line whose speed was set runs at it.
pub(crate) proof fn lemma_speed_reads_back(settings: TTYSettings, rate: BaudRate)
    requires
        speed::speed_code(rate) is Some,
    ensures
        with_speed(settings, speed::speed_code(rate)->0).runs_at(rate),
{
    lemma_code_fits(rate);
    let word = settings.termios.c_cflag;
    let code = speed::speed_code(rate)->0;
    let set = bits::with_field(word, speed_field(), code);
    assert(set & 0x100f == code && (set >> 16u32) & 0x100f == 0) by (bit_vector)
        requires
            code & 0x100f == code,
            set == (word & !(0x100fu32 | (0x100fu32 << 16u32))) | code,
    ;
}

/// The values that the settings put in their fields lie within them.
pub(crate) proof fn lemma_values_fit()
    by (bit_vector)
    ensures
        0u32 & 0x30 == 0,
        0x10u32 & 0x30 == 0x10,
        0x20u32 & 0x30 == 0x20,
        0x30u32 & 0x30 == 0x30,
        0u32 & (0x100u32 | 0x200) == 0,
        0x100u32 & (0x100u32 | 0x200) == 0x100,
        (0x100u32 | 0x200) & (0x100u32 | 0x200) == 0x100u32 | 0x200,
        0x4u32 & (0x10u32 | 0x4) == 0x4,
        0x10u32 & (0x10u32 | 0x4) == 0x10,
        0u32 & 0x40 == 0,
        0x40u32 & 0x40 == 0x40,
        0u32 & 0x8000_0000 == 0,
        0x8000_0000u32 & 0x8000_0000 == 0x8000_0000,
        0u32 & (0x400u32 | 0x1000) == 0,
        (0x400u32 | 0x1000) & (0x400u32 | 0x1000) == 0x400u32 | 0x1000,
        0x400u32 | 0x1000 != 0,
{
}

/// A character size that was set is the one that the settings have.
proof fn lemma_char_size_reads_back(settings: TTYSettings, size: CharSize)
    ensures
        with_char_size(settings, size).has_char_size(size),
{
    lemma_values_fit();
    bits::lemma_field_reads_back(
        settings.termios.c_cflag,
        platform::cflags().csize,
        size_code(size),
    );
}

/// Setting and clearing the parity bits one by one fills their fields.
proof fn lemma_parity_words(c: u32, i: u32)
    by (bit_vector)
    ensures
        (c & !(0x100u32 | 0x200)) | 0 == c & !(0x100u32 | 0x200),
        (c & !(0x100u32 | 0x200)) | (0x100u32 | 0x200) == c | (0x100u32 | 0x200),
        (c & !(0x100u32 | 0x200)) | 0x100 == (c & !0x200u32) | 0x100,
        (i & !(0x10u32 | 0x4)) | 0x4 == (i & !0x10u32) | 0x4,
        (i & !(0x10u32 | 0x4)) | 0x10 == (i | 0x10) & !0x4u32,
{
}

/// A parity that was set is the one that the settings have.
proof fn lemma_parity_reads_back(settings: TTYSettings, parity: Parity)
    ensures
        with_parity(settings, parity).line_parity() == parity,
{
    let c = settings.termios.c_cflag;
    assert({
        &&& ((c & !(0x100u32 | 0x200)) | 0) & 0x100 == 0
        &&& ((c & !(0x100u32 | 0x200)) | (0x100u32 | 0x200)) & 0x100 != 0
        &&& ((c & !(0x100u32 | 0x200)) | (0x100u32 | 0x200)) & 0x200 != 0
        &&& ((c & !(0x100u32 | 0x200)) | 0x100) & 0x100 != 0
        &&& ((c & !(0x100u32 | 0x200)) | 0x100) & 0x200 == 0
    }) by (bit_vector);
}

/// A number of stop bits that was set is the one that the settings have.
proof fn lemma_stop_bits_read_back(settings: TTYSettings, stop_bits: StopBits)
    ensures
        with_stop_bits(settings, stop_bits).line_stop_bits() == stop_bits,
{
    lemma_values_fit();
    bits::lemma_field_reads_back(
        settings.termios.c_cflag,
        platform::cflags().cstopb,
        stop_code(stop_bits),
    );
}

/// A flow control that was set is the one that the settings have.
proof fn lemma_flow_control_reads_back(settings: TTYSettings, flow_control: FlowControl)
    ensures
        with_flow_control(settings, flow_control).line_flow_control() == flow_control,
{
    lemma_values_fit();
    let t = settings.termios;
    bits::lemma_field_reads_back(
        t.c_cflag,
        platform::cflags().crtscts,
        flow_code(flow_control),
    );
    bits::lemma_field_reads_back(t.c_iflag, xon_xoff_field(), xon_xoff_code(flow_control));
}

} // verus!
