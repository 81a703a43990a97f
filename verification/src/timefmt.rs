//! Rendering of track durations as `h:mm:ss` / `m:ss` strings.

use vstd::prelude::*;

verus! {

/// The character for a single decimal digit.
pub open spec fn digit_char(d: int) -> char {
    if d == 0 {
        '0'
    } else if d == 1 {
        '1'
    } else if d == 2 {
        '2'
    } else if d == 3 {
        '3'
    } else if d == 4 {
        '4'
    } else if d == 5 {
        '5'
    } else if d == 6 {
        '6'
    } else if d == 7 {
        '7'
    } else if d == 8 {
        '8'
    } else {
        '9'
    }
}

/// The decimal rendering of a non-negative integer, without leading
/// zeros (except for the single digit of zero itself).
pub open spec fn decimal_digits(n: int) -> Seq<char>
    decreases n,
{
    if n < 10 {
        seq![digit_char(n)]
    } else {
        decimal_digits(n / 10).push(digit_char(n % 10))
    }
}

fn digit_str(d: u64) -> (r: &'static str)
    requires
        d < 10,
    ensures
        r@ == seq![digit_char(d as int)],
{
    proof {
        reveal_strlit("0");
        reveal_strlit("1");
        reveal_strlit("2");
        reveal_strlit("3");
        reveal_strlit("4");
        reveal_strlit("5");
        reveal_strlit("6");
        reveal_strlit("7");
        reveal_strlit("8");
        reveal_strlit("9");
    }
    let r = match d {
        0 => "0",
        1 => "1",
        2 => "2",
        3 => "3",
        4 => "4",
        5 => "5",
        6 => "6",
        7 => "7",
        8 => "8",
        _ => "9",
    };
    proof {
        assert(r@ =~= seq![digit_char(d as int)]);
    }
    r
}

/// The decimal rendering of `n`, e.g. `1234` becomes `"1234"`.
pub fn decimal_string(n: u64) -> (r: String)
    ensures
        r@ == decimal_digits(n as int),
    decreases n,
{
    if n < 10 {
        String::from_str(digit_str(n))
    } else {
        let prefix = decimal_string(n / 10);
        let r = prefix.concat(digit_str(n % 10));
        proof {
            assert(r@ =~= decimal_digits(n as int));
        }
        r
    }
}

/// A number below 60, rendered on exactly two digits (`8` becomes `"08"`).
pub open spec fn two_digits(n: int) -> Seq<char> {
    seq![digit_char(n / 10), digit_char(n % 10)]
}

fn two_digit_string(n: u64) -> (r: String)
    requires
        n < 60,
    ensures
        r@ == two_digits(n as int),
{
    let r = String::from_str(digit_str(n / 10)).concat(digit_str(n % 10));
    proof {
        assert(r@ =~= two_digits(n as int));
    }
    r
}

/// A duration in seconds, rendered the way the queue displays it:
/// `h:mm:ss` when there is a whole hour, `m:ss` otherwise.
pub open spec fn duration_text(secs: int) -> Seq<char> {
    let hours = secs / 60 / 60;
    let minutes = secs / 60 % 60;
    let seconds = secs % 60;
    if hours != 0 {
        decimal_digits(hours) + seq![':'] + two_digits(minutes) + seq![':'] + two_digits(seconds)
    } else {
        decimal_digits(minutes) + seq![':'] + two_digits(seconds)
    }
}

/// Renders a number of seconds as `h:mm:ss`, or `m:ss` while the
/// duration is below one hour: `8` becomes `"0:08"`, `3600` becomes
/// `"1:00:00"`.
pub fn format_duration(secs: u64) -> (r: String)
    ensures
        r@ == duration_text(secs as int),
{
    proof {
        reveal_strlit(":");
    }
    let hours = secs / 60 / 60;
    let minutes = secs / 60 % 60;
    let seconds = secs % 60;
    let r = if hours != 0 {
        decimal_string(hours)
            .concat(":")
            .concat(two_digit_string(minutes).as_str())
            .concat(":")
            .concat(two_digit_string(seconds).as_str())
    } else {
        decimal_string(minutes).concat(":").concat(two_digit_string(seconds).as_str())
    };
    proof {
        assert(r@ =~= duration_text(secs as int));
    }
    r
}

} // verus!
