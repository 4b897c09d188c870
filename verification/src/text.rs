//! Settings written out for people to read.
use vstd::prelude::*;
use vstd::string::StringExecFns;

use crate::settings::{TTYSettings, Termios};

verus! {

/// The decimal digit of a number below ten.
pub open spec fn digit(n: nat) -> char {
    ('0' as nat + n) as char
}

/// A number in decimal, without leading zeros.
pub open spec fn decimal(n: nat) -> Seq<char>
    decreases n,
{
    if n < 10 {
        seq![digit(n)]
    } else {
        decimal(n / 10).push(digit(n % 10))
    }
}

/// Numbers in decimal, with a comma and a space between each two.
pub open spec fn listing(numbers: Seq<u8>) -> Seq<char>
    decreases numbers.len(),
{
    if numbers.len() == 0 {
        seq![]
    } else if numbers.len() == 1 {
        decimal(numbers[0] as nat)
    } else {
        listing(numbers.drop_last()) + ", "@ + decimal(numbers.last() as nat)
    }
}

impl TTYSettings {
    /// The settings as `debug_string` writes them.
    pub open spec fn described(self) -> Seq<char> {
        let t = self.termios;
        "TTYSettings { termios: termios { c_iflag: "@ + decimal(t.c_iflag as nat)
            + ", c_oflag: "@ + decimal(t.c_oflag as nat) + ", c_cflag: "@ + decimal(
            t.c_cflag as nat,
        ) + ", c_lflag: "@ + decimal(t.c_lflag as nat) + ", c_cc: ["@ + listing(t.c_cc@)
            + "] } }"@
    }

    /// Writes out the modes and the control characters.
    pub fn debug_string(&self) -> (text: String)
        ensures
            text@ == self.described(),
    {
        let mut text = String::new();
        text.append("TTYSettings { termios: termios { c_iflag: ");
        append_decimal(&mut text, self.termios.c_iflag);
        text.append(", c_oflag: ");
        append_decimal(&mut text, self.termios.c_oflag);
        text.append(", c_cflag: ");
        append_decimal(&mut text, self.termios.c_cflag);
        text.append(", c_lflag: ");
        append_decimal(&mut text, self.termios.c_lflag);
        text.append(", c_cc: [");
        append_listing(&mut text, &self.termios.c_cc);
        text.append("] } }");
        proof {
            assert(text@ =~= self.described());
        }
        text
    }
}

/// The digit of a number below ten, as a text of one character.
fn digit_text(n: u32) -> (text: &'static str)
    requires
        n < 10,
    ensures
        text@ == seq![digit(n as nat)],
{
    proof {
        reveal_strlit("0");
        reveal_strlit("1");
        reveal_strlit("2");
        reveal_strlit("3");
        reveal_strlit("4");
        reveal_strlit("5");
        reveal_strlit("6");
        reveal_strlit("7");
        reveal_strlit("8");
        reveal_strlit("9");
    }
    match n {
        0 => "0",
        1 => "1",
        2 => "2",
        3 => "3",
        4 => "4",
        5 => "5",
        6 => "6",
        7 => "7",
        8 => "8",
        _ => "9",
    }
}

/// Appends a number in decimal.
fn append_decimal(text: &mut String, n: u32)
    ensures
        final(text)@ == old(text)@ + decimal(n as nat),
    decreases n,
{
    if n >= 10 {
        append_decimal(text, n / 10);
    }
    text.append(digit_text(n % 10));
    proof {
        assert(text@ =~= old(text)@ + decimal(n as nat));
    }
}

/// Appends the control characters as numbers.
fn append_listing(text: &mut String, numbers: &[u8; 19])
    ensures
        final(text)@ == old(text)@ + listing(numbers@),
{
    let mut i: usize = 0;
    while i < 19
        invariant
            i <= 19,
            text@ == old(text)@ + listing(numbers@.take(i as int)),
        decreases 19 - i,
    {
        if i > 0 {
            text.append(", ");
        }
        append_decimal(text, numbers[i] as u32);
        proof {
            let next = numbers@.take(i + 1);
            assert(next.drop_last() =~= numbers@.take(i as int));
            assert(text@ =~= old(text)@ + listing(next));
        }
        i = i + 1;
    }
    proof {
        assert(numbers@.take(19) =~= numbers@);
    }
}

/// The number that a text of decimal digits stands for.
pub open spec fn number(text: Seq<char>) -> int
    decreases text.len(),
{
    if text.len() == 0 {
        0
    } else {
        10 * number(text.drop_last()) + (text.last() as int - '0' as int)
    }
}

/// Whether a text is a number as people write it: decimal digits, the first of which is zero
/// only where there is no other.
pub open spec fn is_numeral(text: Seq<char>, n: int) -> bool {
    &&& text.len() > 0
    &&& forall|k: int| 0 <= k < text.len() ==> '0' as int <= #[trigger] text[k] as int <= '9' as int
    &&& text.len() > 1 ==> text[0] != '0'
    &&& number(text) == n
}

/// Texts one behind the other, with a comma and a space between each two.
pub open spec fn joined(texts: Seq<Seq<char>>) -> Seq<char>
    decreases texts.len(),
{
    if texts.len() == 0 {
        seq![]
    } else if texts.len() == 1 {
        texts[0]
    } else {
        joined(texts.drop_last()) + ", "@ + texts.last()
    }
}

/// Whether a text shows a state: the four modes by name and the control characters in their
/// order, each as the number that it is.
pub open spec fn shows(
    text: Seq<char>,
    t: Termios,
    modes: Seq<Seq<char>>,
    chars: Seq<Seq<char>>,
) -> bool {
    &&& modes.len() == 4
    &&& is_numeral(modes[0], t.c_iflag as int)
    &&& is_numeral(modes[1], t.c_oflag as int)
    &&& is_numeral(modes[2], t.c_cflag as int)
    &&& is_numeral(modes[3], t.c_lflag as int)
    &&& chars.len() == 19
    &&& forall|k: int| 0 <= k < 19 ==> is_numeral(#[trigger] chars[k], t.c_cc[k] as int)
    &&& text == "TTYSettings { termios: termios { c_iflag: "@ + modes[0] + ", c_oflag: "@
        + modes[1] + ", c_cflag: "@ + modes[2] + ", c_lflag: "@ + modes[3] + ", c_cc: ["@
        + joined(chars) + "] } }"@
}

/// A number in decimal is a numeral of that number.
proof fn lemma_decimal_is_numeral(n: nat)
    ensures
        is_numeral(decimal(n), n as int),
        n > 0 ==> decimal(n)[0] != '0',
    decreases n,
{
    let text = decimal(n);
    if n < 10 {
        assert(text.drop_last() =~= seq![]);
        assert(number(text.drop_last()) == 0);
    } else {
        lemma_decimal_is_numeral(n / 10);
        assert(text.drop_last() =~= decimal(n / 10));
        assert(text[0] == decimal(n / 10)[0]);
    }
}

/// A listing is the numbers in decimal, joined.
proof fn lemma_listing_is_joined(numbers: Seq<u8>)
    ensures
        listing(numbers) == joined(
            Seq::new(numbers.len(), |k: int| decimal(numbers[k] as nat)),
        ),
    decreases numbers.len(),
{
    let texts = Seq::new(numbers.len(), |k: int| decimal(numbers[k] as nat));
    if numbers.len() > 1 {
        let shorter = numbers.drop_last();
        lemma_listing_is_joined(shorter);
        assert(Seq::new(shorter.len(), |k: int| decimal(shorter[k] as nat))
            =~= texts.drop_last());
    }
}

/// Settings that are written out show their modes and control characters, each by a numeral from
/// which it can be read again.
pub proof fn law_debug_string_shows_state(settings: TTYSettings, text: String)
    requires
        call_ensures(TTYSettings::debug_string, (&settings,), text),
    ensures
        exists|modes: Seq<Seq<char>>, chars: Seq<Seq<char>>| #[trigger]
            shows(text@, settings.termios, modes, chars),
{
    let t = settings.termios;
    let modes = seq![
        decimal(t.c_iflag as nat),
        decimal(t.c_oflag as nat),
        decimal(t.c_cflag as nat),
        decimal(t.c_lflag as nat),
    ];
    let chars = Seq::new(19, |k: int| decimal(t.c_cc@[k] as nat));
    lemma_decimal_is_numeral(t.c_iflag as nat);
    lemma_decimal_is_numeral(t.c_oflag as nat);
    lemma_decimal_is_numeral(t.c_cflag as nat);
    lemma_decimal_is_numeral(t.c_lflag as nat);
    assert forall|k: int| 0 <= k < 19 implies is_numeral(#[trigger] chars[k], t.c_cc[k] as int) by {
        lemma_decimal_is_numeral(t.c_cc@[k] as nat);
    }
    lemma_listing_is_joined(t.c_cc@);
    assert(chars =~= Seq::new(t.c_cc@.len(), |k: int| decimal(t.c_cc@[k] as nat)));
    assert(shows(text@, t, modes, chars));
}

} // verus!
