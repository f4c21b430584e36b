//! Decimal rendering of integers and the `HH:MM:SS` clock format.
//!
//! The playback store renders a position in seconds as `HH:MM:SS`, and the
//! request builders embed a user identifier in a URL. Both come down to the
//! decimal digits of an integer, specified here by `dec_digits` and proved
//! about the executable builders.

use vstd::prelude::*;

verus! {

/// The character for one decimal digit.
pub open spec fn digit_char(d: nat) -> char {
    if d == 0 {
        '0'
    } else if d == 1 {
        '1'
    } else if d == 2 {
        '2'
    } else if d == 3 {
        '3'
    } else if d == 4 {
        '4'
    } else if d == 5 {
        '5'
    } else if d == 6 {
        '6'
    } else if d == 7 {
        '7'
    } else if d == 8 {
        '8'
    } else {
        '9'
    }
}

/// The decimal digits of `n`, most significant first, with no leading zero
/// except for `n == 0` itself.
pub open spec fn dec_digits(n: nat) -> Seq<char>
    decreases n,
{
    if n < 10 {
        seq![digit_char(n)]
    } else {
        dec_digits(n / 10).push(digit_char(n % 10))
    }
}

/// The decimal digits of `n`, padded on the left to at least two digits,
/// as a clock field is rendered.
pub open spec fn two_digits(n: nat) -> Seq<char> {
    if n < 10 {
        seq!['0', digit_char(n)]
    } else {
        dec_digits(n)
    }
}

/// The `HH:MM:SS` rendering of a number of seconds. Minutes and seconds are
/// always two digits; hours grow beyond two digits when they must.
pub open spec fn hms_format(total_seconds: nat) -> Seq<char> {
    two_digits(total_seconds / 3600) + seq![':'] + two_digits((total_seconds % 3600) / 60)
        + seq![':'] + two_digits(total_seconds % 60)
}

/// The decimal rendering of a possibly negative integer.
pub open spec fn int_dec(n: int) -> Seq<char> {
    if n < 0 {
        seq!['-'] + dec_digits((-n) as nat)
    } else {
        dec_digits(n as nat)
    }
}

fn digit_str(d: u64) -> (r: &'static str)
    requires
        d < 10,
    ensures
        r@ == seq![digit_char(d as nat)],
{
    proof {
        reveal_strlit("0");
        reveal_strlit("1");
        reveal_strlit("2");
        reveal_strlit("3");
        reveal_strlit("4");
        reveal_strlit("5");
        reveal_strlit("6");
        reveal_strlit("7");
        reveal_strlit("8");
        reveal_strlit("9");
    }
    let r: &'static str = if d == 0 {
        "0"
    } else if d == 1 {
        "1"
    } else if d == 2 {
        "2"
    } else if d == 3 {
        "3"
    } else if d == 4 {
        "4"
    } else if d == 5 {
        "5"
    } else if d == 6 {
        "6"
    } else if d == 7 {
        "7"
    } else if d == 8 {
        "8"
    } else {
        "9"
    };
    proof {
        assert(r@ =~= seq![digit_char(d as nat)]);
    }
    r
}

/// The decimal rendering of an unsigned integer.
pub fn u64_dec(n: u64) -> (s: String)
    ensures
        s@ == dec_digits(n as nat),
    decreases n,
{
    if n < 10 {
        String::from_str(digit_str(n))
    } else {
        let mut s = u64_dec(n / 10);
        s.append(digit_str(n % 10));
        proof {
            assert(s@ =~= dec_digits((n as nat) / 10).push(digit_char((n as nat) % 10)));
        }
        s
    }
}

/// The decimal rendering of a signed integer.
pub fn i32_dec(n: i32) -> (s: String)
    ensures
        s@ == int_dec(n as int),
{
    if n >= 0 {
        u64_dec(n as u64)
    } else {
        let wide: i64 = n as i64;
        let magnitude: u64 = (-wide) as u64;
        let mut s = String::from_str("-");
        let digits = u64_dec(magnitude);
        s.append(digits.as_str());
        proof {
            reveal_strlit("-");
            assert(s@ =~= seq!['-'] + dec_digits((-(n as int)) as nat));
        }
        s
    }
}

fn two_digit_dec(n: u64) -> (s: String)
    ensures
        s@ == two_digits(n as nat),
{
    if n < 10 {
        let mut s = String::from_str("0");
        s.append(digit_str(n));
        proof {
            reveal_strlit("0");
            assert(s@ =~= seq!['0', digit_char(n as nat)]);
        }
        s
    } else {
        u64_dec(n)
    }
}

/// The `HH:MM:SS` clock rendering of a position in seconds, exactly the
/// `hms_format` derivation: for example, 3661 seconds become `01:01:01`.
pub fn format_position(total_seconds: u64) -> (s: String)
    ensures
        s@ == hms_format(total_seconds as nat),
{
    let hours = total_seconds / 3600;
    let minutes = (total_seconds % 3600) / 60;
    let seconds = total_seconds % 60;
    let mut s = two_digit_dec(hours);
    s.append(":");
    let minutes_str = two_digit_dec(minutes);
    s.append(minutes_str.as_str());
    s.append(":");
    let seconds_str = two_digit_dec(seconds);
    s.append(seconds_str.as_str());
    proof {
        reveal_strlit(":");
        assert((":")@ =~= seq![':']);
        assert(s@ =~= hms_format(total_seconds as nat));
    }
    s
}

} // verus!
