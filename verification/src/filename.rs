//! Deterministic segment file names.
//!
//! A segment is named from the sanitized source address and the local
//! wall-clock timestamp at creation, at second granularity:
//! `video/{sanitized-address}_{YYYYMMDD}_{HHMMSS}.mp4`. Sanitization
//! replaces the path separator `/` with `_` so the address part is a valid
//! single path component.

use vstd::prelude::*;
use vstd::string::StrSliceExecFns;
use vstd::string::StringExecFns;

use crate::clock::ClockReading;

verus! {

/// A timestamp normalized for fixed-width decimal rendering: the year is
/// clamped into four digits, the other fields carry their calendar ranges.
#[derive(Clone, Copy)]
pub struct TimeParts {
    pub year: u16,
    pub month: u8,
    pub day: u8,
    pub hour: u8,
    pub minute: u8,
    pub second: u8,
}

impl TimeParts {
    /// Every field fits its place in the fixed-width rendering.
    pub open spec fn wf(self) -> bool {
        &&& self.year <= 9999
        &&& 1 <= self.month <= 12
        &&& 1 <= self.day <= 31
        &&& self.hour <= 23
        &&& self.minute <= 59
        &&& self.second <= 59
    }
}

/// The decimal digit character for `d` (meaningful for `0 <= d <= 9`).
pub open spec fn digit_char(d: int) -> char {
    if d == 0 {
        '0'
    } else if d == 1 {
        '1'
    } else if d == 2 {
        '2'
    } else if d == 3 {
        '3'
    } else if d == 4 {
        '4'
    } else if d == 5 {
        '5'
    } else if d == 6 {
        '6'
    } else if d == 7 {
        '7'
    } else if d == 8 {
        '8'
    } else {
        '9'
    }
}

/// `n` rendered as exactly two decimal digits, zero padded.
pub open spec fn two_digit_chars(n: int) -> Seq<char> {
    seq![digit_char(n / 10), digit_char(n % 10)]
}

/// `n` rendered as exactly four decimal digits, zero padded.
pub open spec fn four_digit_chars(n: int) -> Seq<char> {
    seq![
        digit_char(n / 1000),
        digit_char((n / 100) % 10),
        digit_char((n / 10) % 10),
        digit_char(n % 10),
    ]
}

/// The `YYYYMMDD_HHMMSS` rendering of a timestamp.
pub open spec fn timestamp_chars(t: TimeParts) -> Seq<char> {
    four_digit_chars(t.year as int) + two_digit_chars(t.month as int) + two_digit_chars(
        t.day as int,
    ) + seq!['_'] + two_digit_chars(t.hour as int) + two_digit_chars(t.minute as int)
        + two_digit_chars(t.second as int)
}

/// What one address character becomes in a file name.
pub open spec fn sanitized_char(c: char) -> char {
    if c == '/' {
        '_'
    } else {
        c
    }
}

/// The address with every path separator replaced.
pub open spec fn sanitize_chars(s: Seq<char>) -> Seq<char> {
    s.map_values(|c: char| sanitized_char(c))
}

/// The full relative path of a segment file for the given address and
/// timestamp.
pub open spec fn segment_path_chars(addr: Seq<char>, t: TimeParts) -> Seq<char> {
    "video/"@ + sanitize_chars(addr) + "_"@ + timestamp_chars(t) + ".mp4"@
}

/// The year clamped into the four-digit range of the rendering.
pub open spec fn clamp_year(y: int) -> int {
    if y < 0 {
        0
    } else if y > 9999 {
        9999
    } else {
        y
    }
}

fn digit_str(d: u32) -> (r: &'static str)
    requires
        d <= 9,
    ensures
        r@ =~= seq![digit_char(d as int)],
{
    proof {
        reveal_strlit("0");
        reveal_strlit("1");
        reveal_strlit("2");
        reveal_strlit("3");
        reveal_strlit("4");
        reveal_strlit("5");
        reveal_strlit("6");
        reveal_strlit("7");
        reveal_strlit("8");
        reveal_strlit("9");
    }
    match d {
        0 => "0",
        1 => "1",
        2 => "2",
        3 => "3",
        4 => "4",
        5 => "5",
        6 => "6",
        7 => "7",
        8 => "8",
        _ => "9",
    }
}

fn push_two_digits(out: &mut String, n: u32)
    requires
        n <= 99,
    ensures
        final(out)@ == old(out)@ + two_digit_chars(n as int),
{
    out.append(digit_str(n / 10));
    out.append(digit_str(n % 10));
    proof {
        assert(final(out)@ =~= old(out)@ + two_digit_chars(n as int));
    }
}

fn push_four_digits(out: &mut String, n: u32)
    requires
        n <= 9999,
    ensures
        final(out)@ == old(out)@ + four_digit_chars(n as int),
{
    out.append(digit_str(n / 1000));
    out.append(digit_str((n / 100) % 10));
    out.append(digit_str((n / 10) % 10));
    out.append(digit_str(n % 10));
    proof {
        assert(final(out)@ =~= old(out)@ + four_digit_chars(n as int));
    }
}

/// Replaces every `/` in the address with `_`, leaving all other characters
/// verbatim.
pub fn sanitize_address(addr: &str) -> (r: String)
    ensures
        r@ == sanitize_chars(addr@),
{
    let n = addr.unicode_len();
    let mut out = String::new();
    let mut i: usize = 0;
    while i < n
        invariant
            n == addr@.len(),
            i <= n,
            out@ == sanitize_chars(addr@.take(i as int)),
        decreases n - i,
    {
        let c = addr.get_char(i);
        if c == '/' {
            out.append("_");
            proof {
                reveal_strlit("_");
            }
        } else {
            let piece = addr.substring_char(i, i + 1);
            out.append(piece);
        }
        i = i + 1;
        proof {
            assert(out@ =~= sanitize_chars(addr@.take(i as int)));
        }
    }
    proof {
        assert(addr@.take(n as int) =~= addr@);
    }
    out
}

/// Clamps a raw clock reading into a renderable timestamp. Only the year can
/// be out of range; the other fields are carried over unchanged.
pub fn normalize_reading(c: ClockReading) -> (t: TimeParts)
    requires
        c.in_range(),
    ensures
        t.wf(),
        t.year as int == clamp_year(c.year as int),
        t.month == c.month,
        t.day == c.day,
        t.hour == c.hour,
        t.minute == c.minute,
        t.second == c.second,
{
    let year: u16 = if c.year < 0 {
        0
    } else if c.year > 9999 {
        9999
    } else {
        c.year as u16
    };
    TimeParts {
        year,
        month: c.month as u8,
        day: c.day as u8,
        hour: c.hour as u8,
        minute: c.minute as u8,
        second: c.second as u8,
    }
}

/// Renders a timestamp as `YYYYMMDD_HHMMSS`.
pub fn format_timestamp(t: &TimeParts) -> (r: String)
    requires
        t.wf(),
    ensures
        r@ == timestamp_chars(*t),
{
    let mut out = String::new();
    push_four_digits(&mut out, t.year as u32);
    push_two_digits(&mut out, t.month as u32);
    push_two_digits(&mut out, t.day as u32);
    out.append("_");
    push_two_digits(&mut out, t.hour as u32);
    push_two_digits(&mut out, t.minute as u32);
    push_two_digits(&mut out, t.second as u32);
    proof {
        reveal_strlit("_");
        assert(out@ =~= timestamp_chars(*t));
    }
    out
}

/// Builds the full segment path for an address and a given timestamp.
pub fn segment_file_path(addr: &str, t: &TimeParts) -> (r: String)
    requires
        t.wf(),
    ensures
        r@ == segment_path_chars(addr@, *t),
{
    let mut out = String::from_str("video/");
    let sanitized = sanitize_address(addr);
    out.append(sanitized.as_str());
    out.append("_");
    let stamp = format_timestamp(t);
    out.append(stamp.as_str());
    out.append(".mp4");
    proof {
        assert(out@ =~= segment_path_chars(addr@, *t));
    }
    out
}

/// Builds the path for a new segment of the given address, stamped with the
/// local wall clock now. The clock is nondeterministic, so the contract says
/// only that the result is the deterministic rendering of some well-formed
/// timestamp.
pub fn fresh_segment_path(addr: &str) -> (r: String)
    ensures
        exists|t: TimeParts| t.wf() && r@ == segment_path_chars(addr@, t),
{
    let reading = crate::clock::local_clock();
    let t = normalize_reading(reading);
    let r = segment_file_path(addr, &t);
    proof {
        assert(t.wf() && r@ == segment_path_chars(addr@, t));
    }
    r
}

} // verus!
