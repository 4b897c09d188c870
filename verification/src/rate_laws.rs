//! Rates and their codes, told by speed alone.
use vstd::prelude::*;

use crate::line::BaudRate;
use crate::speed;

verus! {

/// The speeds that a terminal can be set to, from the slowest to the fastest.
pub open spec fn speeds() -> Seq<nat> {
    seq![
        50, 75, 110, 134, 150, 200,
        300, 600, 1200, 1800, 2400, 4800,
        9600, 19200, 38400, 57600, 115200, 230400,
        460800, 500000, 576000, 921600, 1000000, 1152000,
        1500000, 2000000, 2500000, 3000000, 3500000, 4000000,
    ]
}

/// The code of a speed, by its place among the speeds. The first half of the codes counts from
/// one, the second half does so too behind the bit that marks the extended speeds.
pub open spec fn code_at(place: int) -> int {
    if place < 15 {
        place + 1
    } else {
        0x1000 + (place - 14)
    }
}

/// The speed that a rate stands for.
pub open spec fn bits_per_second(rate: BaudRate) -> nat {
    match rate {
        BaudRate::Baud110 => 110,
        BaudRate::Baud300 => 300,
        BaudRate::Baud600 => 600,
        BaudRate::Baud1200 => 1200,
        BaudRate::Baud2400 => 2400,
        BaudRate::Baud4800 => 4800,
        BaudRate::Baud9600 => 9600,
        BaudRate::Baud19200 => 19200,
        BaudRate::Baud38400 => 38400,
        BaudRate::Baud57600 => 57600,
        BaudRate::Baud115200 => 115200,
        BaudRate::BaudOther(n) => n as nat,
    }
}

/// Whether a speed has a name of its own among the rates.
pub open spec fn has_own_name(n: nat) -> bool {
    exists|rate: BaudRate| rate !is BaudOther && #[trigger] bits_per_second(rate) == n
}

/// Whether a rate can be set: a terminal has its speed, and the rate names it in the one way in
/// which it is to be named.
pub open spec fn can_be_set(rate: BaudRate) -> bool {
    &&& speeds().contains(bits_per_second(rate))
    &&& rate is BaudOther ==> !has_own_name(bits_per_second(rate))
}

/// What the speeds are, place by place.
proof fn lemma_speeds_listed(place: int)
    ensures
        speeds().len() == 30,
        0 <= place < 30 ==> {
            &&& place == 0 <==> speeds()[place] == 50
            &&& place == 1 <==> speeds()[place] == 75
            &&& place == 2 <==> speeds()[place] == 110
            &&& place == 3 <==> speeds()[place] == 134
            &&& place == 4 <==> speeds()[place] == 150
            &&& place == 5 <==> speeds()[place] == 200
            &&& place == 6 <==> speeds()[place] == 300
            &&& place == 7 <==> speeds()[place] == 600
            &&& place == 8 <==> speeds()[place] == 1200
            &&& place == 9 <==> speeds()[place] == 1800
            &&& place == 10 <==> speeds()[place] == 2400
            &&& place == 11 <==> speeds()[place] == 4800
            &&& place == 12 <==> speeds()[place] == 9600
            &&& place == 13 <==> speeds()[place] == 19200
            &&& place == 14 <==> speeds()[place] == 38400
            &&& place == 15 <==> speeds()[place] == 57600
            &&& place == 16 <==> speeds()[place] == 115200
            &&& place == 17 <==> speeds()[place] == 230400
            &&& place == 18 <==> speeds()[place] == 460800
            &&& place == 19 <==> speeds()[place] == 500000
            &&& place == 20 <==> speeds()[place] == 576000
            &&& place == 21 <==> speeds()[place] == 921600
            &&& place == 22 <==> speeds()[place] == 1000000
            &&& place == 23 <==> speeds()[place] == 1152000
            &&& place == 24 <==> speeds()[place] == 1500000
            &&& place == 25 <==> speeds()[place] == 2000000
            &&& place == 26 <==> speeds()[place] == 2500000
            &&& place == 27 <==> speeds()[place] == 3000000
            &&& place == 28 <==> speeds()[place] == 3500000
            &&& place == 29 <==> speeds()[place] == 4000000
        },
{
    let all = speeds();
    assert(all[0] == 50);
    assert(all[1] == 75);
    assert(all[2] == 110);
    assert(all[3] == 134);
    assert(all[4] == 150);
    assert(all[5] == 200);
    assert(all[6] == 300);
    assert(all[7] == 600);
    assert(all[8] == 1200);
    assert(all[9] == 1800);
    assert(all[10] == 2400);
    assert(all[11] == 4800);
    assert(all[12] == 9600);
    assert(all[13] == 19200);
    assert(all[14] == 38400);
    assert(all[15] == 57600);
    assert(all[16] == 115200);
    assert(all[17] == 230400);
    assert(all[18] == 460800);
    assert(all[19] == 500000);
    assert(all[20] == 576000);
    assert(all[21] == 921600);
    assert(all[22] == 1000000);
    assert(all[23] == 1152000);
    assert(all[24] == 1500000);
    assert(all[25] == 2000000);
    assert(all[26] == 2500000);
    assert(all[27] == 3000000);
    assert(all[28] == 3500000);
    assert(all[29] == 4000000);
}

/// Which speeds have a name of their own.
proof fn lemma_named(n: nat)
    ensures
        has_own_name(n) <==> (n == 110 || n == 300 || n == 600 || n == 1200 || n == 2400 || n == 4800 || n == 9600 || n == 19200 || n == 38400 || n == 57600 || n == 115200),
{
    assert(bits_per_second(BaudRate::Baud110) == 110);
    assert(bits_per_second(BaudRate::Baud300) == 300);
    assert(bits_per_second(BaudRate::Baud600) == 600);
    assert(bits_per_second(BaudRate::Baud1200) == 1200);
    assert(bits_per_second(BaudRate::Baud2400) == 2400);
    assert(bits_per_second(BaudRate::Baud4800) == 4800);
    assert(bits_per_second(BaudRate::Baud9600) == 9600);
    assert(bits_per_second(BaudRate::Baud19200) == 19200);
    assert(bits_per_second(BaudRate::Baud38400) == 38400);
    assert(bits_per_second(BaudRate::Baud57600) == 57600);
    assert(bits_per_second(BaudRate::Baud115200) == 115200);
}

/// The codes are the places of the speeds: a rate that can be set has the code of the place at
/// which its speed stands, and no other rate has a code.
pub proof fn law_codes_follow_speeds(rate: BaudRate, place: int)
    requires
        0 <= place < speeds().len(),
    ensures
        speed::speed_code(rate) is Some <==> can_be_set(rate),
        can_be_set(rate) ==> (speed::speed_code(rate)->0 == code_at(place) <==> bits_per_second(
            rate,
        ) == speeds()[place]),
{
    let n = bits_per_second(rate);
    lemma_named(n);
    lemma_speeds_listed(place);
    if speed::speed_code(rate) is Some {
        let code = speed::speed_code(rate)->0;
        let at: int = if code < 0x1000 {
            code - 1
        } else {
            code - 0x1000 + 14
        };
        lemma_speeds_listed(at);
        assert(speeds()[at] == n);
    }
    if speeds().contains(n) {
        let at = choose|i: int| 0 <= i < speeds().len() && speeds()[i] == n;
        lemma_speeds_listed(at);
    }
}

/// A faster rate has a greater code.
pub proof fn law_codes_are_ordered(slow: BaudRate, fast: BaudRate)
    requires
        speed::speed_code(slow) is Some,
        speed::speed_code(fast) is Some,
    ensures
        bits_per_second(slow) < bits_per_second(fast) <==> speed::speed_code(slow)->0
            < speed::speed_code(fast)->0,
{
}

/// Every code of a place is the code of some rate.
pub proof fn law_every_code_is_used(place: int)
    requires
        0 <= place < speeds().len(),
    ensures
        exists|rate: BaudRate| #[trigger] speed::speed_code(rate) matches Some(code) && code
            == code_at(place),
{
    lemma_speeds_listed(place);
    let n = speeds()[place];
    let rate = if n == 110 {
        BaudRate::Baud110
    } else if n == 300 {
        BaudRate::Baud300
    } else if n == 600 {
        BaudRate::Baud600
    } else if n == 1200 {
        BaudRate::Baud1200
    } else if n == 2400 {
        BaudRate::Baud2400
    } else if n == 4800 {
        BaudRate::Baud4800
    } else if n == 9600 {
        BaudRate::Baud9600
    } else if n == 19200 {
        BaudRate::Baud19200
    } else if n == 38400 {
        BaudRate::Baud38400
    } else if n == 57600 {
        BaudRate::Baud57600
    } else if n == 115200 {
        BaudRate::Baud115200
    } else {
        BaudRate::BaudOther(n as usize)
    };
    assert(speed::speed_code(rate)->0 == code_at(place));
}

} // verus!
