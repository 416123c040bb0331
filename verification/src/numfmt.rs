//! Decimal rendering of the integers that appear in the harness output: query
//! indices in banners and file names, and elapsed times in milliseconds with
//! two decimal digits.

use vstd::prelude::*;

verus! {

/// The decimal digit character for a value below ten.
pub open spec fn digit_char(d: nat) -> char {
    if d == 0 {
        '0'
    } else if d == 1 {
        '1'
    } else if d == 2 {
        '2'
    } else if d == 3 {
        '3'
    } else if d == 4 {
        '4'
    } else if d == 5 {
        '5'
    } else if d == 6 {
        '6'
    } else if d == 7 {
        '7'
    } else if d == 8 {
        '8'
    } else {
        '9'
    }
}

/// The usual decimal representation of `n`: no sign, no leading zero except
/// for `n == 0` itself.
pub open spec fn dec_rep(n: nat) -> Seq<char>
    decreases n,
{
    if n < 10 {
        seq![digit_char(n)]
    } else {
        dec_rep(n / 10).push(digit_char(n % 10))
    }
}

/// A one-character string slice holding the digit for `d`.
fn digit_str(d: u64) -> (r: &'static str)
    requires
        d < 10,
    ensures
        r@ =~= seq![digit_char(d as nat)],
{
    proof {
        reveal_strlit("0");
        reveal_strlit("1");
        reveal_strlit("2");
        reveal_strlit("3");
        reveal_strlit("4");
        reveal_strlit("5");
        reveal_strlit("6");
        reveal_strlit("7");
        reveal_strlit("8");
        reveal_strlit("9");
    }
    if d == 0 {
        "0"
    } else if d == 1 {
        "1"
    } else if d == 2 {
        "2"
    } else if d == 3 {
        "3"
    } else if d == 4 {
        "4"
    } else if d == 5 {
        "5"
    } else if d == 6 {
        "6"
    } else if d == 7 {
        "7"
    } else if d == 8 {
        "8"
    } else {
        "9"
    }
}

/// Renders `n` in decimal.
pub fn u64_to_dec(n: u64) -> (s: String)
    ensures
        s@ == dec_rep(n as nat),
    decreases n,
{
    if n < 10 {
        let s = String::from_str(digit_str(n));
        proof {
            assert(s@ =~= dec_rep(n as nat));
        }
        s
    } else {
        let mut s = u64_to_dec(n / 10);
        s.append(digit_str(n % 10));
        proof {
            assert(s@ =~= dec_rep(n as nat));
        }
        s
    }
}

/// Nanoseconds rounded to the nearest hundredth of a millisecond
/// (one hundredth of a millisecond is ten thousand nanoseconds; ties round up).
pub open spec fn centi_millis_of(nanos: nat) -> nat {
    nanos / 10000 + if nanos % 10000 >= 5000 {
        1nat
    } else {
        0nat
    }
}

/// The elapsed-time figure: milliseconds with exactly two decimal digits.
pub open spec fn millis_rep(nanos: nat) -> Seq<char> {
    let centis = centi_millis_of(nanos);
    dec_rep(centis / 100) + seq!['.', digit_char(centis / 10 % 10), digit_char(centis % 10)]
}

/// Renders a duration given in nanoseconds as milliseconds with two decimal
/// digits, rounding to the nearest hundredth of a millisecond.
pub fn format_millis(nanos: u64) -> (s: String)
    ensures
        s@ == millis_rep(nanos as nat),
{
    let centis: u64 = nanos / 10000 + if nanos % 10000 >= 5000 {
        1
    } else {
        0
    };
    proof {
        assert(centis as nat == centi_millis_of(nanos as nat));
    }
    let mut s = u64_to_dec(centis / 100);
    proof {
        reveal_strlit(".");
    }
    s.append(".");
    s.append(digit_str(centis / 10 % 10));
    s.append(digit_str(centis % 10));
    proof {
        assert(s@ =~= millis_rep(nanos as nat));
    }
    s
}

} // verus!
