//! The wall-clock model: a calendar time broken into plain fields, and its
//! rendering as `DD.MM.YYYY HH:MM:SS` (zero-padded, 24-hour clock).

use vstd::prelude::*;

use chrono::Datelike;
use chrono::Timelike;

verus! {

/// A calendar time broken into plain fields, as the clock displays it.
#[derive(Clone, Copy, PartialEq, Eq, Structural, Debug)]
pub struct ClockTime {
    pub year: u32,
    pub month: u32,
    pub day: u32,
    pub hour: u32,
    pub minute: u32,
    pub second: u32,
}

impl ClockTime {
    /// The fields form a displayable calendar time: the year has at most
    /// four digits and the remaining fields are in their calendar ranges.
    pub open spec fn wf(self) -> bool {
        &&& self.year <= 9999
        &&& 1 <= self.month <= 12
        &&& 1 <= self.day <= 31
        &&& self.hour <= 23
        &&& self.minute <= 59
        &&& self.second <= 59
    }
}

/// The decimal digit character for `d`, which must be in `0 ..= 9`.
pub open spec fn digit_char(d: int) -> char {
    if d == 0 {
        '0'
    } else if d == 1 {
        '1'
    } else if d == 2 {
        '2'
    } else if d == 3 {
        '3'
    } else if d == 4 {
        '4'
    } else if d == 5 {
        '5'
    } else if d == 6 {
        '6'
    } else if d == 7 {
        '7'
    } else if d == 8 {
        '8'
    } else {
        '9'
    }
}

/// `n` rendered as exactly two decimal digits, zero-padded.
pub open spec fn two_digits(n: int) -> Seq<char> {
    seq![digit_char(n / 10), digit_char(n % 10)]
}

/// `n` rendered as exactly four decimal digits, zero-padded.
pub open spec fn four_digits(n: int) -> Seq<char> {
    two_digits(n / 100) + two_digits(n % 100)
}

/// The display text for a calendar time: `DD.MM.YYYY HH:MM:SS`,
/// zero-padded, 24-hour clock.
pub open spec fn spec_format_time(t: ClockTime) -> Seq<char> {
    two_digits(t.day as int) + seq!['.'] + two_digits(t.month as int) + seq!['.'] + four_digits(
        t.year as int,
    ) + seq![' '] + two_digits(t.hour as int) + seq![':'] + two_digits(t.minute as int)
        + seq![':'] + two_digits(t.second as int)
}

/// The display text of any calendar time is exactly 19 characters,
/// so in particular it is never empty.
pub proof fn lemma_format_time_len(t: ClockTime)
    ensures
        spec_format_time(t).len() == 19,
{
}

fn digit_str(d: u32) -> (r: &'static str)
    requires
        d < 10,
    ensures
        r@ == seq![digit_char(d as int)],
{
    let r: &'static str = if d == 0 {
        "0"
    } else if d == 1 {
        "1"
    } else if d == 2 {
        "2"
    } else if d == 3 {
        "3"
    } else if d == 4 {
        "4"
    } else if d == 5 {
        "5"
    } else if d == 6 {
        "6"
    } else if d == 7 {
        "7"
    } else if d == 8 {
        "8"
    } else {
        "9"
    };
    proof {
        reveal_strlit("0");
        reveal_strlit("1");
        reveal_strlit("2");
        reveal_strlit("3");
        reveal_strlit("4");
        reveal_strlit("5");
        reveal_strlit("6");
        reveal_strlit("7");
        reveal_strlit("8");
        reveal_strlit("9");
        assert(r@ =~= seq![digit_char(d as int)]);
    }
    r
}

fn append_two_digits(s: &mut String, n: u32)
    requires
        n < 100,
    ensures
        final(s)@ == old(s)@ + two_digits(n as int),
{
    s.append(digit_str(n / 10));
    s.append(digit_str(n % 10));
    proof {
        assert(s@ =~= old(s)@ + two_digits(n as int));
    }
}

fn append_four_digits(s: &mut String, n: u32)
    requires
        n < 10000,
    ensures
        final(s)@ == old(s)@ + four_digits(n as int),
{
    append_two_digits(s, n / 100);
    append_two_digits(s, n % 100);
    proof {
        assert(s@ =~= old(s)@ + four_digits(n as int));
    }
}

/// Render a calendar time as `DD.MM.YYYY HH:MM:SS`, zero-padded.
pub fn format_time(t: &ClockTime) -> (r: String)
    requires
        t.wf(),
    ensures
        r@ == spec_format_time(*t),
{
    let mut s = String::new();
    append_two_digits(&mut s, t.day);
    s.append(".");
    append_two_digits(&mut s, t.month);
    s.append(".");
    append_four_digits(&mut s, t.year);
    s.append(" ");
    append_two_digits(&mut s, t.hour);
    s.append(":");
    append_two_digits(&mut s, t.minute);
    s.append(":");
    append_two_digits(&mut s, t.second);
    proof {
        reveal_strlit(".");
        reveal_strlit(" ");
        reveal_strlit(":");
        assert(s@ =~= spec_format_time(*t));
    }
    s
}

/// Relies on chrono: `Local::now` reads the current local time, and the
/// `Datelike` / `Timelike` accessors on the returned time are documented to
/// give `month` in `1..=12`, `day` in `1..=31`, `hour` in `0..=23`, and
/// `minute` and `second` in `0..=59`. chrono documents no range for the
/// year, so none is assumed of it.
#[verifier::external_body]
fn local_now_fields() -> (t: (i32, u32, u32, u32, u32, u32))
    ensures
        1 <= t.1 <= 12,
        1 <= t.2 <= 31,
        t.3 <= 23,
        t.4 <= 59,
        t.5 <= 59,
{
    let now = chrono::Local::now();
    (now.year(), now.month(), now.day(), now.hour(), now.minute(), now.second())
}

/// The current local time, with the year saturated into the four-digit
/// range that the display carries.
pub fn now_local() -> (t: ClockTime)
    ensures
        t.wf(),
{
    let (y, month, day, hour, minute, second) = local_now_fields();
    let year: u32 = if y < 0 {
        0
    } else if y > 9999 {
        9999
    } else {
        y as u32
    };
    ClockTime { year, month, day, hour, minute, second }
}

/// The current local time rendered for display: the text of some
/// displayable calendar time, in `DD.MM.YYYY HH:MM:SS` form.
pub fn get_time() -> (r: String)
    ensures
        exists|t: ClockTime| t.wf() && r@ == spec_format_time(t),
{
    let now = now_local();
    let r = format_time(&now);
    proof {
        assert(now.wf() && r@ == spec_format_time(now));
    }
    r
}

} // verus!
