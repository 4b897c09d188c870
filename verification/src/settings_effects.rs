//! What the operations on settings do to the words of a terminal, told bit by bit.
//!
//! Each law speaks of the values that a call takes and leaves, for every such call.
use vstd::prelude::*;

use crate::bits;
use crate::error::Error;
use crate::line::{BaudRate, CharSize, FlowControl, Parity, StopBits};
use crate::platform;
use crate::rate_laws;
use crate::settings;
use crate::settings::{TTYSettings, Termios};
use crate::settings_laws;
use crate::speed;

verus! {

/// Settings are made of a state as it stands.
pub proof fn law_new_keeps_state(termios: Termios, made: TTYSettings)
    requires
        call_ensures(TTYSettings::new, (termios,), made),
    ensures
        made.termios == termios,
{
}

/// The rate is reported from both speed codes, the output speed in the low half of the control
/// modes and the input speed in the same bits of the high half. A rate is reported if and only
/// if the output speed has its code and the input speed has that code too, or none.
pub proof fn law_baud_rate_reports(
    settings: TTYSettings,
    found: Option<BaudRate>,
    rate: BaudRate,
    place: int,
)
    requires
        call_ensures(TTYSettings::baud_rate, (&settings,), found),
        0 <= place < rate_laws::speeds().len(),
        rate_laws::can_be_set(rate),
        rate_laws::bits_per_second(rate) == rate_laws::speeds()[place],
    ensures
        ({
            let output = settings.termios.c_cflag & 0x100f;
            let input = (settings.termios.c_cflag >> 16u32) & 0x100f;
            found == Some(rate) <==> output == rate_laws::code_at(place) && (input == 0 || input
                == output)
        }),
        found matches Some(other) ==> rate_laws::can_be_set(other),
{
    rate_laws::law_codes_follow_speeds(rate, place);
    assert(found is None ==> !settings.runs_at(rate));
    if found is Some {
        rate_laws::law_codes_follow_speeds(found->0, place);
        if settings.runs_at(rate) {
            settings_laws::law_rate_is_unique(settings, found->0, rate);
        }
    }
}

/// A rate that is set stands as the output speed, and the input speed is left to follow it. No
/// other bit of the state changes. A rate that cannot be set is refused as an invalid argument,
/// and then nothing changes at all.
pub proof fn law_set_baud_rate_effect(
    settings: &mut TTYSettings,
    rate: BaudRate,
    result: Result<(), Error>,
    place: int,
)
    requires
        call_ensures(TTYSettings::set_baud_rate, (settings, rate), result),
        0 <= place < rate_laws::speeds().len(),
    ensures
        result is Ok <==> rate_laws::can_be_set(rate),
        result matches Err(error) ==> error.errno == platform::errnos().einval && *final(settings)
            == *old(settings),
        result is Ok ==> {
            let before = old(settings).termios;
            let after = final(settings).termios;
            &&& rate_laws::bits_per_second(rate) == rate_laws::speeds()[place] <==> after.c_cflag
                & 0x100f == rate_laws::code_at(place)
            &&& (after.c_cflag >> 16u32) & 0x100f == 0
            &&& after.c_cflag & 0xeff0_eff0 == before.c_cflag & 0xeff0_eff0
            &&& after == (Termios { c_cflag: after.c_cflag, ..before })
        },
{
    rate_laws::law_codes_follow_speeds(rate, place);
    if speed::speed_code(rate) is Some {
        let word = old(settings).termios.c_cflag;
        let code = speed::speed_code(rate)->0;
        let set = final(settings).termios.c_cflag;
        settings::lemma_code_fits(rate);
        assert(set & 0x100f == code && (set >> 16u32) & 0x100f == 0 && set & 0xeff0_eff0 == word
            & 0xeff0_eff0) by (bit_vector)
            requires
                code & 0x100f == code,
                set == (word & !(0x100fu32 | (0x100fu32 << 16u32))) | code,
        ;
    }
}

/// The number of bits in a character of a size.
pub open spec fn width(size: CharSize) -> int {
    match size {
        CharSize::Bits5 => 5,
        CharSize::Bits6 => 6,
        CharSize::Bits7 => 7,
        CharSize::Bits8 => 8,
    }
}

/// The two bits of the character size count the bits of a character from five on.
pub proof fn law_char_size_reports(settings: TTYSettings, found: Option<CharSize>)
    requires
        call_ensures(TTYSettings::char_size, (&settings,), found),
    ensures
        found matches Some(size) && settings.termios.c_cflag & platform::cflags().csize == 0x10 * (
        width(size) - 5),
{
}

/// A character size that is set changes the two bits that count it, and no other.
pub proof fn law_set_char_size_effect(settings: &mut TTYSettings, size: CharSize)
    requires
        call_ensures(TTYSettings::set_char_size, (settings, size), ()),
    ensures
        ({
            let before = old(settings).termios;
            let after = final(settings).termios;
            let mask = platform::cflags().csize;
            &&& after.c_cflag & mask == 0x10 * (width(size) - 5)
            &&& after.c_cflag & !mask == before.c_cflag & !mask
            &&& after == (Termios { c_cflag: after.c_cflag, ..before })
        }),
{
    settings::lemma_values_fit();
    bits::lemma_field_reads_back(
        old(settings).termios.c_cflag,
        platform::cflags().csize,
        settings::size_code(size),
    );
    bits::lemma_field_keeps_outside(
        old(settings).termios.c_cflag,
        platform::cflags().csize,
        settings::size_code(size),
    );
}

/// There is a parity bit if and only if PARENB is set, and PARODD says which.
pub proof fn law_parity_reports(settings: TTYSettings, found: Option<Parity>)
    requires
        call_ensures(TTYSettings::parity, (&settings,), found),
    ensures
        ({
            let enabled = settings.termios.c_cflag & platform::cflags().parenb != 0;
            let odd = settings.termios.c_cflag & platform::cflags().parodd != 0;
            &&& found == Some(Parity::ParityNone) <==> !enabled
            &&& found == Some(Parity::ParityOdd) <==> enabled && odd
            &&& found == Some(Parity::ParityEven) <==> enabled && !odd
        }),
{
}

/// A parity that is set decides PARENB and PARODD. Whatever the state was, parity errors are
/// then looked for where there is a parity bit, and ignored where there is none. No other bit
/// changes.
pub proof fn law_set_parity_effect(settings: &mut TTYSettings, parity: Parity)
    requires
        call_ensures(TTYSettings::set_parity, (settings, parity), ()),
    ensures
        ({
            let before = old(settings).termios;
            let after = final(settings).termios;
            let c = platform::cflags();
            let i = platform::iflags();
            &&& after.c_cflag & c.parenb == (if parity is ParityNone {
                0
            } else {
                c.parenb
            })
            &&& after.c_cflag & c.parodd == (if parity is ParityOdd {
                c.parodd
            } else {
                0
            })
            &&& after.c_cflag & !(c.parenb | c.parodd) == before.c_cflag & !(c.parenb | c.parodd)
            &&& after.c_iflag & i.inpck == (if parity is ParityNone {
                0
            } else {
                i.inpck
            })
            &&& after.c_iflag & i.ignpar == (if parity is ParityNone {
                i.ignpar
            } else {
                0
            })
            &&& after.c_iflag & !(i.inpck | i.ignpar) == before.c_iflag & !(i.inpck | i.ignpar)
            &&& after == (Termios {
                c_cflag: after.c_cflag,
                c_iflag: after.c_iflag,
                ..before
            })
        }),
{
    lemma_parity_bits(old(settings).termios.c_cflag, old(settings).termios.c_iflag);
}

/// The bits of the parity fields, once they are set.
proof fn lemma_parity_bits(c: u32, i: u32)
    by (bit_vector)
    ensures
        ((c & !(0x100u32 | 0x200)) | 0) & 0x100 == 0,
        ((c & !(0x100u32 | 0x200)) | 0) & 0x200 == 0,
        ((c & !(0x100u32 | 0x200)) | 0) & !(0x100u32 | 0x200) == c & !(0x100u32 | 0x200),
        ((c & !(0x100u32 | 0x200)) | (0x100u32 | 0x200)) & 0x100 == 0x100,
        ((c & !(0x100u32 | 0x200)) | (0x100u32 | 0x200)) & 0x200 == 0x200,
        ((c & !(0x100u32 | 0x200)) | (0x100u32 | 0x200)) & !(0x100u32 | 0x200) == c & !(0x100u32
            | 0x200),
        ((c & !(0x100u32 | 0x200)) | 0x100) & 0x100 == 0x100,
        ((c & !(0x100u32 | 0x200)) | 0x100) & 0x200 == 0,
        ((c & !(0x100u32 | 0x200)) | 0x100) & !(0x100u32 | 0x200) == c & !(0x100u32 | 0x200),
        ((i & !(0x10u32 | 0x4)) | 0x4) & 0x10 == 0,
        ((i & !(0x10u32 | 0x4)) | 0x4) & 0x4 == 0x4,
        ((i & !(0x10u32 | 0x4)) | 0x4) & !(0x10u32 | 0x4) == i & !(0x10u32 | 0x4),
        ((i & !(0x10u32 | 0x4)) | 0x10) & 0x10 == 0x10,
        ((i & !(0x10u32 | 0x4)) | 0x10) & 0x4 == 0,
        ((i & !(0x10u32 | 0x4)) | 0x10) & !(0x10u32 | 0x4) == i & !(0x10u32 | 0x4),
{
}

/// There are two stop bits if and only if CSTOPB is set.
pub proof fn law_stop_bits_report(settings: TTYSettings, found: Option<StopBits>)
    requires
        call_ensures(TTYSettings::stop_bits, (&settings,), found),
    ensures
        found is Some,
        found == Some(StopBits::Stop2) <==> settings.termios.c_cflag & platform::cflags().cstopb
            != 0,
{
}

/// A number of stop bits that is set decides CSTOPB, and no other bit changes.
pub proof fn law_set_stop_bits_effect(settings: &mut TTYSettings, stop_bits: StopBits)
    requires
        call_ensures(TTYSettings::set_stop_bits, (settings, stop_bits), ()),
    ensures
        ({
            let before = old(settings).termios;
            let after = final(settings).termios;
            let mask = platform::cflags().cstopb;
            &&& after.c_cflag & mask == (if stop_bits is Stop2 {
                mask
            } else {
                0
            })
            &&& after.c_cflag & !mask == before.c_cflag & !mask
            &&& after == (Termios { c_cflag: after.c_cflag, ..before })
        }),
{
    settings::lemma_values_fit();
    bits::lemma_field_reads_back(
        old(settings).termios.c_cflag,
        platform::cflags().cstopb,
        settings::stop_code(stop_bits),
    );
    bits::lemma_field_keeps_outside(
        old(settings).termios.c_cflag,
        platform::cflags().cstopb,
        settings::stop_code(stop_bits),
    );
}

/// The flow control is that of the hardware if and only if CRTSCTS is set. Where it is not, it
/// is none if and only if both IXON and IXOFF are clear: either of them is enough for that of
/// the software.
pub proof fn law_flow_control_reports(settings: TTYSettings, found: Option<FlowControl>)
    requires
        call_ensures(TTYSettings::flow_control, (&settings,), found),
    ensures
        ({
            let hardware = settings.termios.c_cflag & platform::cflags().crtscts != 0;
            let xon = settings.termios.c_iflag & platform::iflags().ixon != 0;
            let xoff = settings.termios.c_iflag & platform::iflags().ixoff != 0;
            &&& found == Some(FlowControl::FlowHardware) <==> hardware
            &&& found == Some(FlowControl::FlowNone) <==> !hardware && !xon && !xoff
            &&& found == Some(FlowControl::FlowSoftware) <==> !hardware && (xon || xoff)
        }),
{
    let i = settings.termios.c_iflag;
    assert(i & (0x400u32 | 0x1000) == 0 <==> i & 0x400 == 0 && i & 0x1000 == 0) by (bit_vector);
}

/// A flow control that is set decides CRTSCTS, IXON and IXOFF, and no other bit changes.
pub proof fn law_set_flow_control_effect(settings: &mut TTYSettings, flow: FlowControl)
    requires
        call_ensures(TTYSettings::set_flow_control, (settings, flow), ()),
    ensures
        ({
            let before = old(settings).termios;
            let after = final(settings).termios;
            let crtscts = platform::cflags().crtscts;
            let i = platform::iflags();
            &&& after.c_cflag & crtscts == (if flow is FlowHardware {
                crtscts
            } else {
                0
            })
            &&& after.c_cflag & !crtscts == before.c_cflag & !crtscts
            &&& after.c_iflag & i.ixon == (if flow is FlowSoftware {
                i.ixon
            } else {
                0
            })
            &&& after.c_iflag & i.ixoff == (if flow is FlowSoftware {
                i.ixoff
            } else {
                0
            })
            &&& after.c_iflag & !(i.ixon | i.ixoff) == before.c_iflag & !(i.ixon | i.ixoff)
            &&& after == (Termios {
                c_cflag: after.c_cflag,
                c_iflag: after.c_iflag,
                ..before
            })
        }),
{
    let c = old(settings).termios.c_cflag;
    let i = old(settings).termios.c_iflag;
    settings::lemma_values_fit();
    bits::lemma_field_reads_back(c, platform::cflags().crtscts, settings::flow_code(flow));
    bits::lemma_field_keeps_outside(c, platform::cflags().crtscts, settings::flow_code(flow));
    bits::lemma_field_keeps_outside(
        i,
        settings::xon_xoff_field(),
        settings::xon_xoff_code(flow),
    );
    assert({
        &&& ((i & !(0x400u32 | 0x1000)) | 0) & 0x400 == 0
        &&& ((i & !(0x400u32 | 0x1000)) | 0) & 0x1000 == 0
        &&& ((i & !(0x400u32 | 0x1000)) | (0x400u32 | 0x1000)) & 0x400 == 0x400
        &&& ((i & !(0x400u32 | 0x1000)) | (0x400u32 | 0x1000)) & 0x1000 == 0x1000
    }) by (bit_vector);
}

/// Settings for binary access differ from the state that they are made of in what binary access
/// takes, and in nothing else. The receiver is on and no modem is waited for; lines, echo,
/// signals and the processing of input and output are off; a read waits neither for a byte nor
/// for time to pass. Every other control character, the line discipline, both speeds and every
/// other bit are those of the state.
pub proof fn law_binary_access_effect(before: Termios, made: TTYSettings)
    requires
        call_ensures(TTYSettings::for_binary_access, (before,), made),
    ensures
        ({
            let after = made.termios;
            let c = platform::cflags();
            let i = platform::iflags();
            let o = platform::oflags();
            let l = platform::lflags();
            let places = platform::cc_places();
            let on = c.cread | c.clocal;
            let translating = i.inlcr | i.igncr | i.icrnl | i.ignbrk;
            let terminal = l.icanon | l.echo | l.echoe | l.echok | l.echonl | l.isig | l.iexten;
            &&& after.c_cflag & on == on
            &&& after.c_cflag & !on == before.c_cflag & !on
            &&& after.c_iflag & translating == 0
            &&& after.c_iflag & !translating == before.c_iflag & !translating
            &&& after.c_oflag & o.opost == 0
            &&& after.c_oflag & !o.opost == before.c_oflag & !o.opost
            &&& after.c_lflag & terminal == 0
            &&& after.c_lflag & !terminal == before.c_lflag & !terminal
            &&& forall|k: int|
                0 <= k < 19 ==> #[trigger] after.c_cc[k] == (if k == places.vmin || k == places.vtime {
                    0
                } else {
                    before.c_cc[k]
                })
            &&& after.c_line == before.c_line
            &&& after.c_ispeed == before.c_ispeed
            &&& after.c_ospeed == before.c_ospeed
        }),
{
    let t = before;
    settings_laws::law_raw_mode_passes_bytes(t);
    settings_laws::lemma_zero_fits(settings::terminal_field());
    settings_laws::lemma_zero_fits(platform::oflags().opost);
    settings_laws::lemma_zero_fits(settings::translation_field());
    assert((0x80u32 | 0x800) & (0x80u32 | 0x800) == 0x80u32 | 0x800) by (bit_vector);
    bits::lemma_field_keeps_outside(
        t.c_cflag,
        settings::receiver_field(),
        settings::receiver_field(),
    );
    bits::lemma_field_keeps_outside(t.c_lflag, settings::terminal_field(), 0);
    bits::lemma_field_keeps_outside(t.c_oflag, platform::oflags().opost, 0);
    bits::lemma_field_keeps_outside(t.c_iflag, settings::translation_field(), 0);
}

} // verus!
