//! Decimal rendering of times: the `mm:ss.mmm` tooltip label that follows the
//! hovered position, and the plain seconds values handed to the encoder.

use vstd::prelude::*;
use vstd::string::*;

verus! {

/// The decimal digit character for `d` (meaningful for `0 <= d <= 9`).
pub open spec fn digit_char(d: int) -> char {
    if d == 0 {
        '0'
    } else if d == 1 {
        '1'
    } else if d == 2 {
        '2'
    } else if d == 3 {
        '3'
    } else if d == 4 {
        '4'
    } else if d == 5 {
        '5'
    } else if d == 6 {
        '6'
    } else if d == 7 {
        '7'
    } else if d == 8 {
        '8'
    } else {
        '9'
    }
}

/// The decimal digits of `n`, most significant first, with no leading zeros
/// (a single `'0'` for zero itself).
pub open spec fn spec_decimal(n: nat) -> Seq<char>
    decreases n,
{
    if n <= 9 {
        seq![digit_char(n as int)]
    } else {
        spec_decimal(n / 10).push(digit_char((n % 10) as int))
    }
}

/// The decimal digits of `n`, zero-padded on the left to at least two places.
pub open spec fn spec_two_digits(n: nat) -> Seq<char> {
    if n <= 9 {
        seq!['0', digit_char(n as int)]
    } else {
        spec_decimal(n)
    }
}

/// The decimal digits of `n`, zero-padded on the left to at least three
/// places.
pub open spec fn spec_three_digits(n: nat) -> Seq<char> {
    if n <= 9 {
        seq!['0', '0', digit_char(n as int)]
    } else if n <= 99 {
        seq!['0'] + spec_decimal(n)
    } else {
        spec_decimal(n)
    }
}

/// The `mm:ss.mmm` label for an absolute time of `ms` milliseconds: whole
/// minutes (at least two places), seconds within the minute (two places), and
/// milliseconds within the second (three places).
pub open spec fn spec_timestamp(ms: nat) -> Seq<char> {
    spec_two_digits(ms / 60000) + seq![':'] + spec_two_digits((ms / 1000) % 60) + seq!['.']
        + spec_three_digits(ms % 1000)
}

/// The seconds value for an absolute time of `ms` milliseconds, written with
/// its three millisecond places after a decimal point.
pub open spec fn spec_seconds(ms: nat) -> Seq<char> {
    spec_decimal(ms / 1000) + seq!['.'] + spec_three_digits(ms % 1000)
}

/// The one-character string of the decimal digit `d`.
fn digit_str(d: u64) -> (r: &'static str)
    requires
        d <= 9,
    ensures
        r@ == seq![digit_char(d as int)],
{
    proof {
        reveal_strlit("0");
        reveal_strlit("1");
        reveal_strlit("2");
        reveal_strlit("3");
        reveal_strlit("4");
        reveal_strlit("5");
        reveal_strlit("6");
        reveal_strlit("7");
        reveal_strlit("8");
        reveal_strlit("9");
    }
    let r: &'static str = if d == 0 {
        "0"
    } else if d == 1 {
        "1"
    } else if d == 2 {
        "2"
    } else if d == 3 {
        "3"
    } else if d == 4 {
        "4"
    } else if d == 5 {
        "5"
    } else if d == 6 {
        "6"
    } else if d == 7 {
        "7"
    } else if d == 8 {
        "8"
    } else {
        "9"
    };
    proof {
        assert(r@ =~= seq![digit_char(d as int)]);
    }
    r
}

/// Renders `n` in decimal.
pub fn fmt_u64(n: u64) -> (r: String)
    ensures
        r@ == spec_decimal(n as nat),
    decreases n,
{
    if n <= 9 {
        String::from_str(digit_str(n))
    } else {
        let mut s: String = fmt_u64(n / 10);
        s.append(digit_str(n % 10));
        proof {
            assert(s@ =~= spec_decimal(n as nat));
        }
        s
    }
}

/// Renders `n` in decimal, zero-padded to at least two places.
pub fn fmt_two_digits(n: u64) -> (r: String)
    ensures
        r@ == spec_two_digits(n as nat),
{
    if n <= 9 {
        proof {
            reveal_strlit("0");
        }
        let mut s: String = String::from_str("0");
        s.append(digit_str(n));
        proof {
            assert(s@ =~= spec_two_digits(n as nat));
        }
        s
    } else {
        fmt_u64(n)
    }
}

/// Renders `n` in decimal, zero-padded to at least three places.
pub fn fmt_three_digits(n: u64) -> (r: String)
    ensures
        r@ == spec_three_digits(n as nat),
{
    if n <= 9 {
        proof {
            reveal_strlit("00");
        }
        let mut s: String = String::from_str("00");
        s.append(digit_str(n));
        proof {
            assert(s@ =~= spec_three_digits(n as nat));
        }
        s
    } else if n <= 99 {
        proof {
            reveal_strlit("0");
        }
        let mut s: String = String::from_str("0");
        let rest: String = fmt_u64(n);
        s.append(rest.as_str());
        proof {
            assert(s@ =~= spec_three_digits(n as nat));
        }
        s
    } else {
        fmt_u64(n)
    }
}

/// The `mm:ss.mmm` label for an absolute time of `ms` milliseconds.
pub fn timestamp_label(ms: u64) -> (r: String)
    ensures
        r@ == spec_timestamp(ms as nat),
{
    let minutes: u64 = ms / 60000;
    let seconds: u64 = (ms / 1000) % 60;
    let millis: u64 = ms % 1000;
    let mut s: String = fmt_two_digits(minutes);
    proof {
        reveal_strlit(":");
        reveal_strlit(".");
    }
    s.append(":");
    let sec_part: String = fmt_two_digits(seconds);
    s.append(sec_part.as_str());
    s.append(".");
    let milli_part: String = fmt_three_digits(millis);
    s.append(milli_part.as_str());
    proof {
        assert(s@ =~= spec_timestamp(ms as nat));
    }
    s
}

/// The seconds value of `ms` milliseconds, with three decimal places.
pub fn seconds_label(ms: u64) -> (r: String)
    ensures
        r@ == spec_seconds(ms as nat),
{
    let millis: u64 = ms % 1000;
    let mut s: String = fmt_u64(ms / 1000);
    proof {
        reveal_strlit(".");
    }
    s.append(".");
    let milli_part: String = fmt_three_digits(millis);
    s.append(milli_part.as_str());
    proof {
        assert(s@ =~= spec_seconds(ms as nat));
    }
    s
}

} // verus!
