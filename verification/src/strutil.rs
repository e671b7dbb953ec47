//! Verified text helpers: decimal rendering of counters and clock-style
//! time stamps for the progress display, and character-level truncation.

use vstd::prelude::*;
use vstd::string::StrSliceExecFns;
use vstd::string::StringExecFns;

verus! {

/// The decimal digit character for one digit value.
pub open spec fn digit_char(d: int) -> char {
    if d == 0 {
        '0'
    } else if d == 1 {
        '1'
    } else if d == 2 {
        '2'
    } else if d == 3 {
        '3'
    } else if d == 4 {
        '4'
    } else if d == 5 {
        '5'
    } else if d == 6 {
        '6'
    } else if d == 7 {
        '7'
    } else if d == 8 {
        '8'
    } else {
        '9'
    }
}

/// The decimal rendering of a number, most significant digit first, with no
/// leading zero except for the number zero itself.
pub open spec fn spec_digits(n: nat) -> Seq<char>
    decreases n,
{
    if n < 10 {
        seq![digit_char(n as int)]
    } else {
        spec_digits(n / 10).push(digit_char((n % 10) as int))
    }
}

/// The decimal rendering padded on the left to at least two digits, as the
/// seconds field of a clock reads.
pub open spec fn spec_pad2(n: nat) -> Seq<char> {
    if n < 10 {
        seq!['0'] + spec_digits(n)
    } else {
        spec_digits(n)
    }
}

/// A time length in time-units rendered as minutes and zero-padded seconds
/// with a colon in between.
pub open spec fn spec_mmss(t: nat) -> Seq<char> {
    spec_digits(t / 60) + seq![':'] + spec_pad2(t % 60)
}

/// An optional text's characters, or the default's where it is absent.
pub open spec fn str_or(o: Option<String>, d: Seq<char>) -> Seq<char> {
    match o {
        Some(s) => s@,
        None => d,
    }
}

/// A character sequence cut off after `max` characters.
pub open spec fn spec_truncated(s: Seq<char>, max: nat) -> Seq<char> {
    if s.len() <= max {
        s
    } else {
        s.subrange(0, max as int)
    }
}

fn digit_str(d: u64) -> (r: &'static str)
    requires
        d < 10,
    ensures
        r@ =~= seq![digit_char(d as int)],
{
    let r: &'static str = if d == 0 {
        "0"
    } else if d == 1 {
        "1"
    } else if d == 2 {
        "2"
    } else if d == 3 {
        "3"
    } else if d == 4 {
        "4"
    } else if d == 5 {
        "5"
    } else if d == 6 {
        "6"
    } else if d == 7 {
        "7"
    } else if d == 8 {
        "8"
    } else {
        "9"
    };
    proof {
        reveal_strlit("0");
        reveal_strlit("1");
        reveal_strlit("2");
        reveal_strlit("3");
        reveal_strlit("4");
        reveal_strlit("5");
        reveal_strlit("6");
        reveal_strlit("7");
        reveal_strlit("8");
        reveal_strlit("9");
    }
    r
}

/// Render a counter in decimal.
pub fn u64_to_string(n: u64) -> (r: String)
    ensures
        r@ == spec_digits(n as nat),
    decreases n,
{
    if n < 10 {
        let s: &'static str = digit_str(n);
        let r = s.to_owned();
        proof {
            assert(r@ =~= spec_digits(n as nat));
        }
        r
    } else {
        let mut s: String = u64_to_string(n / 10);
        let d: &'static str = digit_str(n % 10);
        s.append(d);
        proof {
            assert(s@ =~= spec_digits(n as nat));
        }
        s
    }
}

/// Render a counter in decimal, zero-padded on the left to two digits.
pub fn u64_to_padded2(n: u64) -> (r: String)
    ensures
        r@ == spec_pad2(n as nat),
{
    if n < 10 {
        let mut s: String = "0".to_owned();
        let d: &'static str = digit_str(n);
        s.append(d);
        proof {
            reveal_strlit("0");
            assert(s@ =~= spec_pad2(n as nat));
        }
        s
    } else {
        u64_to_string(n)
    }
}

/// Render a time length as minutes and seconds, the short clock form the
/// progress bar shows.
pub fn duration_formatted_short(t: u64) -> (r: String)
    ensures
        r@ == spec_mmss(t as nat),
{
    let mut s: String = u64_to_string(t / 60);
    s.append(":");
    let secs: String = u64_to_padded2(t % 60);
    s.append(secs.as_str());
    proof {
        reveal_strlit(":");
        assert(s@ =~= spec_mmss(t as nat));
    }
    s
}

/// Cut a name off after `max` characters, as the progress title does with
/// long artist and track names.
pub fn truncate_chars(s: &str, max: usize) -> (r: String)
    ensures
        r@ == spec_truncated(s@, max as nat),
{
    let n: usize = s.unicode_len();
    if n <= max {
        s.to_owned()
    } else {
        let t: &str = s.substring_char(0, max);
        let r = t.to_owned();
        proof {
            assert(r@ =~= spec_truncated(s@, max as nat));
        }
        r
    }
}

} // verus!
