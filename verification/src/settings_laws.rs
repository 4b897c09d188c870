//! What holds of settings whatever they are.
use vstd::prelude::*;

use crate::bits;
use crate::line::{BaudRate, CharSize, FlowControl, Parity, StopBits};
use crate::platform;
use crate::settings;
use crate::settings::{Termios, TTYSettings};
use crate::speed;

verus! {

/// The fields that the settings take in one word have no bit in common.
proof fn lemma_fields_disjoint()
    by (bit_vector)
    ensures
        (0x100fu32 | (0x100fu32 << 16u32)) & 0x30 == 0,
        (0x100fu32 | (0x100fu32 << 16u32)) & (0x100u32 | 0x200) == 0,
        (0x100fu32 | (0x100fu32 << 16u32)) & 0x40 == 0,
        (0x100fu32 | (0x100fu32 << 16u32)) & 0x8000_0000 == 0,
        (0x100fu32 | (0x100fu32 << 16u32)) & (0x80u32 | 0x800) == 0,
        0x30u32 & (0x100fu32 | (0x100fu32 << 16u32)) == 0,
        0x30u32 & (0x100u32 | 0x200) == 0,
        0x30u32 & 0x40 == 0,
        0x30u32 & 0x8000_0000 == 0,
        0x30u32 & (0x80u32 | 0x800) == 0,
        (0x100u32 | 0x200) & (0x100fu32 | (0x100fu32 << 16u32)) == 0,
        (0x100u32 | 0x200) & 0x30 == 0,
        (0x100u32 | 0x200) & 0x40 == 0,
        (0x100u32 | 0x200) & 0x8000_0000 == 0,
        (0x100u32 | 0x200) & (0x80u32 | 0x800) == 0,
        0x40u32 & (0x100fu32 | (0x100fu32 << 16u32)) == 0,
        0x40u32 & 0x30 == 0,
        0x40u32 & (0x100u32 | 0x200) == 0,
        0x40u32 & 0x8000_0000 == 0,
        0x40u32 & (0x80u32 | 0x800) == 0,
        0x8000_0000u32 & (0x100fu32 | (0x100fu32 << 16u32)) == 0,
        0x8000_0000u32 & 0x30 == 0,
        0x8000_0000u32 & (0x100u32 | 0x200) == 0,
        0x8000_0000u32 & 0x40 == 0,
        0x8000_0000u32 & (0x80u32 | 0x800) == 0,
        (0x80u32 | 0x800) & (0x100fu32 | (0x100fu32 << 16u32)) == 0,
        (0x80u32 | 0x800) & 0x30 == 0,
        (0x80u32 | 0x800) & (0x100u32 | 0x200) == 0,
        (0x80u32 | 0x800) & 0x40 == 0,
        (0x80u32 | 0x800) & 0x8000_0000 == 0,
        (0x10u32 | 0x4) & (0x400u32 | 0x1000) == 0,
        (0x10u32 | 0x4) & (0x40u32 | 0x80 | 0x100 | 0x1) == 0,
        (0x400u32 | 0x1000) & (0x10u32 | 0x4) == 0,
        (0x400u32 | 0x1000) & (0x40u32 | 0x80 | 0x100 | 0x1) == 0,
        (0x40u32 | 0x80 | 0x100 | 0x1) & (0x10u32 | 0x4) == 0,
        (0x40u32 | 0x80 | 0x100 | 0x1) & (0x400u32 | 0x1000) == 0,
        (0x80u32 | 0x800) & (0x80u32 | 0x800) == 0x80u32 | 0x800,
        0u32 & (0x40u32 | 0x80 | 0x100 | 0x1) == 0,
{
}

/// A value that lies within the field of the output speed lies within that of both speeds.
proof fn lemma_code_fits_both(code: u32)
    by (bit_vector)
    requires
        code & 0x100f == code,
    ensures
        code & (0x100fu32 | (0x100fu32 << 16u32)) == code,
{
}

/// Each setting depends on its own fields alone.
proof fn lemma_settings_in_fields(a: u32, b: u32)
    by (bit_vector)
    ensures
        a & (0x100fu32 | (0x100fu32 << 16u32)) == b & (0x100fu32 | (0x100fu32 << 16u32)) ==> a
            & 0x100f == b & 0x100f && (a >> 16u32) & 0x100f == (b >> 16u32) & 0x100f,
        a & (0x100u32 | 0x200) == b & (0x100u32 | 0x200) ==> a & 0x100 == b & 0x100 && a & 0x200
            == b & 0x200,
{
}

/// Whether two settings have the same rate.
pub open spec fn same_rate(a: TTYSettings, b: TTYSettings) -> bool {
    forall|rate: BaudRate| #[trigger] a.runs_at(rate) <==> b.runs_at(rate)
}

/// Whether two settings have the same character size.
pub open spec fn same_char_size(a: TTYSettings, b: TTYSettings) -> bool {
    forall|size: CharSize| #[trigger] a.has_char_size(size) <==> b.has_char_size(size)
}

/// What putting a value in one field of the control modes does to the other fields.
proof fn lemma_control_edit(word: u32, mask: u32, value: u32)
    requires
        bits::fits(value, mask),
    ensures
        bits::disjoint(mask, settings::speed_field()) ==> bits::with_field(word, mask, value)
            & settings::speed_field() == word & settings::speed_field(),
        bits::disjoint(mask, platform::cflags().csize) ==> bits::with_field(word, mask, value)
            & platform::cflags().csize == word & platform::cflags().csize,
        bits::disjoint(mask, settings::parity_field()) ==> bits::with_field(word, mask, value)
            & settings::parity_field() == word & settings::parity_field(),
        bits::disjoint(mask, platform::cflags().cstopb) ==> bits::with_field(word, mask, value)
            & platform::cflags().cstopb == word & platform::cflags().cstopb,
        bits::disjoint(mask, platform::cflags().crtscts) ==> bits::with_field(word, mask, value)
            & platform::cflags().crtscts == word & platform::cflags().crtscts,
{
    if bits::disjoint(mask, settings::speed_field()) {
        bits::lemma_field_leaves_others(word, mask, value, settings::speed_field());
    }
    if bits::disjoint(mask, platform::cflags().csize) {
        bits::lemma_field_leaves_others(word, mask, value, platform::cflags().csize);
    }
    if bits::disjoint(mask, settings::parity_field()) {
        bits::lemma_field_leaves_others(word, mask, value, settings::parity_field());
    }
    if bits::disjoint(mask, platform::cflags().cstopb) {
        bits::lemma_field_leaves_others(word, mask, value, platform::cflags().cstopb);
    }
    if bits::disjoint(mask, platform::cflags().crtscts) {
        bits::lemma_field_leaves_others(word, mask, value, platform::cflags().crtscts);
    }
}

/// A line runs at one rate at most, so that a code stands for one rate at most.
pub proof fn law_rate_is_unique(settings: TTYSettings, a: BaudRate, b: BaudRate)
    requires
        settings.runs_at(a),
        settings.runs_at(b),
    ensures
        a == b,
{
}

/// Every rate that settings report can be set, and they then still report it.
pub proof fn law_reported_rate_can_be_set(settings: TTYSettings, rate: BaudRate)
    requires
        settings.runs_at(rate),
    ensures
        speed::speed_code(rate) matches Some(code) && settings::with_speed(
            settings,
            code,
        ).runs_at(rate),
{
    settings::lemma_speed_reads_back(settings, rate);
}

/// A rate that was set is the one rate that the settings report.
pub proof fn law_rate_reads_back(settings: TTYSettings, set: BaudRate, reported: BaudRate)
    requires
        speed::speed_code(set) is Some,
    ensures
        settings::with_speed(settings, speed::speed_code(set)->0).runs_at(reported) <==> reported
            == set,
{
    settings::lemma_speed_reads_back(settings, set);
    let after = settings::with_speed(settings, speed::speed_code(set)->0);
    if after.runs_at(reported) {
        law_rate_is_unique(after, set, reported);
    }
}

/// Setting the rate leaves the other settings as they were.
pub proof fn law_rate_is_independent(settings: TTYSettings, rate: BaudRate)
    requires
        speed::speed_code(rate) is Some,
    ensures
        ({
            let after = settings::with_speed(settings, speed::speed_code(rate)->0);
            &&& same_char_size(after, settings)
            &&& after.line_parity() == settings.line_parity()
            &&& after.line_stop_bits() == settings.line_stop_bits()
            &&& after.line_flow_control() == settings.line_flow_control()
        }),
{
    let code = speed::speed_code(rate)->0;
    settings::lemma_code_fits(rate);
    lemma_code_fits_both(code);
    lemma_fields_disjoint();
    lemma_control_edit(settings.termios.c_cflag, settings::speed_field(), code);
    lemma_settings_in_fields(
        settings.termios.c_cflag,
        settings::with_speed(settings, code).termios.c_cflag,
    );
}

/// Setting the character size leaves the other settings as they were.
pub proof fn law_char_size_is_independent(settings: TTYSettings, size: CharSize)
    ensures
        ({
            let after = settings::with_char_size(settings, size);
            &&& same_rate(after, settings)
            &&& after.line_parity() == settings.line_parity()
            &&& after.line_stop_bits() == settings.line_stop_bits()
            &&& after.line_flow_control() == settings.line_flow_control()
        }),
{
    settings::lemma_values_fit();
    lemma_fields_disjoint();
    lemma_control_edit(
        settings.termios.c_cflag,
        platform::cflags().csize,
        settings::size_code(size),
    );
    lemma_settings_in_fields(
        settings.termios.c_cflag,
        settings::with_char_size(settings, size).termios.c_cflag,
    );
}

/// Setting the parity leaves the other settings as they were.
pub proof fn law_parity_is_independent(settings: TTYSettings, parity: Parity)
    ensures
        ({
            let after = settings::with_parity(settings, parity);
            &&& same_rate(after, settings)
            &&& same_char_size(after, settings)
            &&& after.line_stop_bits() == settings.line_stop_bits()
            &&& after.line_flow_control() == settings.line_flow_control()
        }),
{
    settings::lemma_values_fit();
    lemma_fields_disjoint();
    lemma_control_edit(
        settings.termios.c_cflag,
        settings::parity_field(),
        settings::parity_code(parity),
    );
    bits::lemma_field_leaves_others(
        settings.termios.c_iflag,
        settings::parity_check_field(),
        settings::parity_check_code(parity),
        settings::xon_xoff_field(),
    );
    lemma_settings_in_fields(
        settings.termios.c_cflag,
        settings::with_parity(settings, parity).termios.c_cflag,
    );
}

/// Setting the stop bits leaves the other settings as they were.
pub proof fn law_stop_bits_are_independent(settings: TTYSettings, stop_bits: StopBits)
    ensures
        ({
            let after = settings::with_stop_bits(settings, stop_bits);
            &&& same_rate(after, settings)
            &&& same_char_size(after, settings)
            &&& after.line_parity() == settings.line_parity()
            &&& after.line_flow_control() == settings.line_flow_control()
        }),
{
    settings::lemma_values_fit();
    lemma_fields_disjoint();
    lemma_control_edit(
        settings.termios.c_cflag,
        platform::cflags().cstopb,
        settings::stop_code(stop_bits),
    );
    lemma_settings_in_fields(
        settings.termios.c_cflag,
        settings::with_stop_bits(settings, stop_bits).termios.c_cflag,
    );
}

/// Setting the flow control leaves the other settings as they were.
pub proof fn law_flow_control_is_independent(settings: TTYSettings, flow_control: FlowControl)
    ensures
        ({
            let after = settings::with_flow_control(settings, flow_control);
            &&& same_rate(after, settings)
            &&& same_char_size(after, settings)
            &&& after.line_parity() == settings.line_parity()
            &&& after.line_stop_bits() == settings.line_stop_bits()
        }),
{
    settings::lemma_values_fit();
    lemma_fields_disjoint();
    lemma_control_edit(
        settings.termios.c_cflag,
        platform::cflags().crtscts,
        settings::flow_code(flow_control),
    );
    lemma_settings_in_fields(
        settings.termios.c_cflag,
        settings::with_flow_control(settings, flow_control).termios.c_cflag,
    );
}

/// Of two values set for the same setting, the later stays and the earlier leaves no trace.
pub proof fn law_later_setting_overwrites(
    settings: TTYSettings,
    rates: (BaudRate, BaudRate),
    sizes: (CharSize, CharSize),
    parities: (Parity, Parity),
    stops: (StopBits, StopBits),
    flows: (FlowControl, FlowControl),
)
    requires
        speed::speed_code(rates.0) is Some,
        speed::speed_code(rates.1) is Some,
    ensures
        ({
            let first = speed::speed_code(rates.0)->0;
            let second = speed::speed_code(rates.1)->0;
            settings::with_speed(settings::with_speed(settings, first), second)
                == settings::with_speed(settings, second)
        }),
        settings::with_char_size(settings::with_char_size(settings, sizes.0), sizes.1)
            == settings::with_char_size(settings, sizes.1),
        settings::with_parity(settings::with_parity(settings, parities.0), parities.1)
            == settings::with_parity(settings, parities.1),
        settings::with_stop_bits(settings::with_stop_bits(settings, stops.0), stops.1)
            == settings::with_stop_bits(settings, stops.1),
        settings::with_flow_control(settings::with_flow_control(settings, flows.0), flows.1)
            == settings::with_flow_control(settings, flows.1),
{
    let c = settings.termios.c_cflag;
    let i = settings.termios.c_iflag;
    let first = speed::speed_code(rates.0)->0;
    let second = speed::speed_code(rates.1)->0;
    settings::lemma_values_fit();
    settings::lemma_code_fits(rates.0);
    lemma_code_fits_both(first);
    bits::lemma_field_overwrites(c, settings::speed_field(), first, second);
    bits::lemma_field_overwrites(
        c,
        platform::cflags().csize,
        settings::size_code(sizes.0),
        settings::size_code(sizes.1),
    );
    bits::lemma_field_overwrites(
        c,
        settings::parity_field(),
        settings::parity_code(parities.0),
        settings::parity_code(parities.1),
    );
    bits::lemma_field_overwrites(
        i,
        settings::parity_check_field(),
        settings::parity_check_code(parities.0),
        settings::parity_check_code(parities.1),
    );
    bits::lemma_field_overwrites(
        c,
        platform::cflags().cstopb,
        settings::stop_code(stops.0),
        settings::stop_code(stops.1),
    );
    bits::lemma_field_overwrites(
        c,
        platform::cflags().crtscts,
        settings::flow_code(flows.0),
        settings::flow_code(flows.1),
    );
    bits::lemma_field_overwrites(
        i,
        settings::xon_xoff_field(),
        settings::xon_xoff_code(flows.0),
        settings::xon_xoff_code(flows.1),
    );
}

/// Different settings can be set in any order.
pub proof fn law_settings_commute(
    settings: TTYSettings,
    rate: BaudRate,
    size: CharSize,
    parity: Parity,
    stop_bits: StopBits,
    flow: FlowControl,
)
    requires
        speed::speed_code(rate) is Some,
    ensures
        ({
            let code = speed::speed_code(rate)->0;
            &&& settings::with_char_size(settings::with_speed(settings, code), size)
                == settings::with_speed(settings::with_char_size(settings, size), code)
            &&& settings::with_parity(settings::with_speed(settings, code), parity)
                == settings::with_speed(settings::with_parity(settings, parity), code)
            &&& settings::with_stop_bits(settings::with_speed(settings, code), stop_bits)
                == settings::with_speed(settings::with_stop_bits(settings, stop_bits), code)
            &&& settings::with_flow_control(settings::with_speed(settings, code), flow)
                == settings::with_speed(settings::with_flow_control(settings, flow), code)
        }),
        settings::with_parity(settings::with_char_size(settings, size), parity)
            == settings::with_char_size(settings::with_parity(settings, parity), size),
        settings::with_stop_bits(settings::with_char_size(settings, size), stop_bits)
            == settings::with_char_size(settings::with_stop_bits(settings, stop_bits), size),
        settings::with_flow_control(settings::with_char_size(settings, size), flow)
            == settings::with_char_size(settings::with_flow_control(settings, flow), size),
        settings::with_stop_bits(settings::with_parity(settings, parity), stop_bits)
            == settings::with_parity(settings::with_stop_bits(settings, stop_bits), parity),
        settings::with_flow_control(settings::with_parity(settings, parity), flow)
            == settings::with_parity(settings::with_flow_control(settings, flow), parity),
        settings::with_flow_control(settings::with_stop_bits(settings, stop_bits), flow)
            == settings::with_stop_bits(settings::with_flow_control(settings, flow), stop_bits),
{
    let c = settings.termios.c_cflag;
    let code = speed::speed_code(rate)->0;
    let f = platform::cflags();
    let speeds = settings::speed_field();
    let parities = settings::parity_field();
    let s = settings::size_code(size);
    let p = settings::parity_code(parity);
    let b = settings::stop_code(stop_bits);
    let w = settings::flow_code(flow);
    settings::lemma_values_fit();
    settings::lemma_code_fits(rate);
    lemma_code_fits_both(code);
    lemma_fields_disjoint();
    bits::lemma_fields_commute(c, speeds, code, f.csize, s);
    bits::lemma_fields_commute(c, speeds, code, parities, p);
    bits::lemma_fields_commute(c, speeds, code, f.cstopb, b);
    bits::lemma_fields_commute(c, speeds, code, f.crtscts, w);
    bits::lemma_fields_commute(c, f.csize, s, parities, p);
    bits::lemma_fields_commute(c, f.csize, s, f.cstopb, b);
    bits::lemma_fields_commute(c, f.csize, s, f.crtscts, w);
    bits::lemma_fields_commute(c, parities, p, f.cstopb, b);
    bits::lemma_fields_commute(c, parities, p, f.crtscts, w);
    bits::lemma_fields_commute(c, f.cstopb, b, f.crtscts, w);
    bits::lemma_fields_commute(
        settings.termios.c_iflag,
        settings::parity_check_field(),
        settings::parity_check_code(parity),
        settings::xon_xoff_field(),
        settings::xon_xoff_code(flow),
    );
}

/// Setting the character size or the stop bits that settings have changes nothing.
pub proof fn law_setting_what_is_set_changes_nothing(settings: TTYSettings, size: CharSize)
    requires
        settings.has_char_size(size),
    ensures
        settings::with_char_size(settings, size) == settings,
        settings::with_stop_bits(settings, settings.line_stop_bits()) == settings,
{
    let c = settings.termios.c_cflag;
    bits::lemma_field_kept(c, platform::cflags().csize);
    bits::lemma_field_kept(c, platform::cflags().cstopb);
    assert(c & 0x40 == 0 || c & 0x40 == 0x40) by (bit_vector);
}

/// Setting the rate at which a line runs changes nothing, where the input speed follows the
/// output speed and has no code of its own.
pub proof fn law_setting_current_rate_changes_nothing(settings: TTYSettings, rate: BaudRate)
    requires
        settings.runs_at(rate),
        (settings.termios.c_cflag >> settings::IBSHIFT) & platform::cflags().cbaud
            == platform::standard_codes().b0,
    ensures
        settings::with_speed(settings, speed::speed_code(rate)->0) == settings,
{
    let c = settings.termios.c_cflag;
    let code = speed::speed_code(rate)->0;
    assert((c & !(0x100fu32 | (0x100fu32 << 16u32))) | code == c) by (bit_vector)
        requires
            c & 0x100f == code,
            (c >> 16u32) & 0x100f == 0,
    ;
}

/// Setting a device up for binary access that is set up already changes nothing.
pub proof fn law_raw_mode_is_stable(t: Termios)
    ensures
        settings::raw_mode(settings::raw_mode(t)) == settings::raw_mode(t),
{
    lemma_fields_disjoint();
    let raw = settings::raw_mode(t);
    bits::lemma_field_overwrites(
        t.c_cflag,
        settings::receiver_field(),
        settings::receiver_field(),
        settings::receiver_field(),
    );
    lemma_zero_fits(settings::terminal_field());
    lemma_zero_fits(platform::oflags().opost);
    lemma_zero_fits(settings::translation_field());
    bits::lemma_field_overwrites(t.c_lflag, settings::terminal_field(), 0, 0);
    bits::lemma_field_overwrites(t.c_oflag, platform::oflags().opost, 0, 0);
    bits::lemma_field_overwrites(t.c_iflag, settings::translation_field(), 0, 0);
    assert(settings::raw_mode(raw).c_cc =~= raw.c_cc);
}

/// Zero lies within every field.
pub(crate) proof fn lemma_zero_fits(mask: u32)
    by (bit_vector)
    ensures
        bits::fits(0, mask),
{
}

/// Setting a device up for binary access keeps the parameters of the line.
pub proof fn law_raw_mode_keeps_line(t: Termios)
    ensures
        ({
            let before = TTYSettings { termios: t };
            let after = TTYSettings { termios: settings::raw_mode(t) };
            &&& same_rate(after, before)
            &&& same_char_size(after, before)
            &&& after.line_parity() == before.line_parity()
            &&& after.line_stop_bits() == before.line_stop_bits()
            &&& after.line_flow_control() == before.line_flow_control()
        }),
{
    lemma_fields_disjoint();
    lemma_zero_fits(settings::translation_field());
    lemma_control_edit(t.c_cflag, settings::receiver_field(), settings::receiver_field());
    bits::lemma_field_leaves_others(
        t.c_iflag,
        settings::translation_field(),
        0,
        settings::xon_xoff_field(),
    );
    lemma_settings_in_fields(t.c_cflag, settings::raw_mode(t).c_cflag);
}

/// Once a device is set up for binary access its receiver is on and no modem is waited for, no
/// mode is left that changes bytes or acts on them, and a read neither waits for a byte nor for
/// time to pass.
pub proof fn law_raw_mode_passes_bytes(t: Termios)
    ensures
        ({
            let raw = settings::raw_mode(t);
            &&& raw.c_cflag & settings::receiver_field() == settings::receiver_field()
            &&& raw.c_lflag & settings::terminal_field() == 0
            &&& raw.c_oflag & platform::oflags().opost == 0
            &&& raw.c_iflag & settings::translation_field() == 0
            &&& raw.c_cc[platform::cc_places().vmin as int] == 0
            &&& raw.c_cc[platform::cc_places().vtime as int] == 0
        }),
{
    lemma_fields_disjoint();
    lemma_zero_fits(settings::terminal_field());
    lemma_zero_fits(platform::oflags().opost);
    lemma_zero_fits(settings::translation_field());
    bits::lemma_field_reads_back(
        t.c_cflag,
        settings::receiver_field(),
        settings::receiver_field(),
    );
    bits::lemma_field_reads_back(t.c_lflag, settings::terminal_field(), 0);
    bits::lemma_field_reads_back(t.c_oflag, platform::oflags().opost, 0);
    bits::lemma_field_reads_back(t.c_iflag, settings::translation_field(), 0);
}

/// Whether two settings agree in everything but the input and control modes.
pub open spec fn same_rest(a: TTYSettings, b: TTYSettings) -> bool {
    &&& a.termios.c_oflag == b.termios.c_oflag
    &&& a.termios.c_lflag == b.termios.c_lflag
    &&& a.termios.c_line == b.termios.c_line
    &&& a.termios.c_cc == b.termios.c_cc
    &&& a.termios.c_ispeed == b.termios.c_ispeed
    &&& a.termios.c_ospeed == b.termios.c_ospeed
}

/// The settings live in the input and control modes: setting them keeps all the rest.
pub proof fn law_settings_keep_the_rest(
    settings: TTYSettings,
    code: u32,
    size: CharSize,
    parity: Parity,
    stop_bits: StopBits,
    flow: FlowControl,
)
    ensures
        same_rest(settings::with_speed(settings, code), settings),
        same_rest(settings::with_char_size(settings, size), settings),
        same_rest(settings::with_parity(settings, parity), settings),
        same_rest(settings::with_stop_bits(settings, stop_bits), settings),
        same_rest(settings::with_flow_control(settings, flow), settings),
{
}

/// Whether settings describe a device that is set up for binary access.
pub open spec fn is_raw(settings: TTYSettings) -> bool {
    settings::raw_mode(settings.termios) == settings.termios
}

/// No setting takes a device out of binary access.
pub proof fn law_settings_stay_raw(
    settings: TTYSettings,
    rate: BaudRate,
    size: CharSize,
    parity: Parity,
    stop_bits: StopBits,
    flow: FlowControl,
)
    requires
        is_raw(settings),
    ensures
        speed::speed_code(rate) matches Some(code) ==> is_raw(settings::with_speed(settings, code)),
        is_raw(settings::with_char_size(settings, size)),
        is_raw(settings::with_parity(settings, parity)),
        is_raw(settings::with_stop_bits(settings, stop_bits)),
        is_raw(settings::with_flow_control(settings, flow)),
{
    let c = settings.termios.c_cflag;
    let i = settings.termios.c_iflag;
    let f = platform::cflags();
    let on = settings::receiver_field();
    let speeds = settings::speed_field();
    let parities = settings::parity_field();
    settings::lemma_values_fit();
    lemma_fields_disjoint();
    lemma_zero_fits(settings::translation_field());
    if speed::speed_code(rate) is Some {
        let code = speed::speed_code(rate)->0;
        settings::lemma_code_fits(rate);
        lemma_code_fits_both(code);
        bits::lemma_fields_commute(c, speeds, code, on, on);
    }
    bits::lemma_fields_commute(c, f.csize, settings::size_code(size), on, on);
    bits::lemma_fields_commute(c, parities, settings::parity_code(parity), on, on);
    bits::lemma_fields_commute(c, f.cstopb, settings::stop_code(stop_bits), on, on);
    bits::lemma_fields_commute(c, f.crtscts, settings::flow_code(flow), on, on);
    bits::lemma_fields_commute(
        i,
        settings::parity_check_field(),
        settings::parity_check_code(parity),
        settings::translation_field(),
        0,
    );
    bits::lemma_fields_commute(
        i,
        settings::xon_xoff_field(),
        settings::xon_xoff_code(flow),
        settings::translation_field(),
        0,
    );
}

} // verus!
