//! Calendar dates, the proleptic Gregorian rules the search's default date
//! range needs, and their `YYYY-MM-DD` rendering.
//!
//! The only outside input is "today", read once through a trusted wrapper
//! around the system clock; every computation on it (stepping back a week,
//! formatting) is verified here.

use vstd::prelude::*;
use vstd::string::StringExecFns;

verus! {

/// A calendar date. `valid` says whether the fields name a real day of the
/// proleptic Gregorian calendar.
#[derive(Clone, Copy, Debug, PartialEq, Eq, Structural)]
pub struct Date {
    pub year: i32,
    pub month: u8,
    pub day: u8,
}

/// Gregorian leap-year rule.
pub open spec fn spec_is_leap_year(y: int) -> bool {
    (y % 4 == 0 && y % 100 != 0) || y % 400 == 0
}

/// Days in a month of the proleptic Gregorian calendar.
pub open spec fn spec_days_in_month(y: int, m: int) -> int
    recommends
        1 <= m <= 12,
{
    if m == 2 {
        if spec_is_leap_year(y) { 29 } else { 28 }
    } else if m == 4 || m == 6 || m == 9 || m == 11 {
        30
    } else {
        31
    }
}

impl Date {
    /// The fields name a real calendar day.
    pub open spec fn valid(self) -> bool {
        &&& 1 <= self.month <= 12
        &&& 1 <= self.day <= spec_days_in_month(self.year as int, self.month as int)
    }
}

/// Gregorian leap-year test.
pub fn is_leap_year(y: i32) -> (r: bool)
    ensures
        r == spec_is_leap_year(y as int),
{
    (y % 4 == 0 && y % 100 != 0) || y % 400 == 0
}

/// Days in the given month.
pub fn days_in_month(y: i32, m: u8) -> (r: u8)
    requires
        1 <= m <= 12,
    ensures
        r == spec_days_in_month(y as int, m as int),
{
    if m == 2 {
        if is_leap_year(y) { 29 } else { 28 }
    } else if m == 4 || m == 6 || m == 9 || m == 11 {
        30
    } else {
        31
    }
}

/// The day before `d`.
pub open spec fn spec_prev_day(d: Date) -> Date
    recommends
        d.valid(),
{
    if d.day > 1 {
        Date { year: d.year, month: d.month, day: (d.day - 1) as u8 }
    } else if d.month > 1 {
        Date {
            year: d.year,
            month: (d.month - 1) as u8,
            day: spec_days_in_month(d.year as int, d.month as int - 1) as u8,
        }
    } else {
        Date { year: (d.year - 1) as i32, month: 12, day: 31 }
    }
}

/// The day after `d`.
pub open spec fn spec_next_day(d: Date) -> Date
    recommends
        d.valid(),
{
    if d.day < spec_days_in_month(d.year as int, d.month as int) {
        Date { year: d.year, month: d.month, day: (d.day + 1) as u8 }
    } else if d.month < 12 {
        Date { year: d.year, month: (d.month + 1) as u8, day: 1 }
    } else {
        Date { year: (d.year + 1) as i32, month: 1, day: 1 }
    }
}

/// `d` stepped back `n` days.
pub open spec fn spec_minus_days(d: Date, n: nat) -> Date
    decreases n,
{
    if n == 0 { d } else { spec_minus_days(spec_prev_day(d), (n - 1) as nat) }
}

/// `d` stepped forward `n` days.
pub open spec fn spec_plus_days(d: Date, n: nat) -> Date
    decreases n,
{
    if n == 0 { d } else { spec_plus_days(spec_next_day(d), (n - 1) as nat) }
}

/// Stepping back one day from a valid date away from the representable floor
/// gives a valid date of the same or the previous year, and stepping forward
/// again returns to the start.
pub proof fn lemma_prev_day_valid(d: Date)
    requires
        d.valid(),
        d.year > i32::MIN,
    ensures
        spec_prev_day(d).valid(),
        d.year - 1 <= spec_prev_day(d).year <= d.year,
        spec_next_day(spec_prev_day(d)) == d,
{
}

/// Stepping back `n` days keeps the date valid and moves the year down by at
/// most `n`.
pub proof fn lemma_minus_days_valid(d: Date, n: nat)
    requires
        d.valid(),
        d.year - n > i32::MIN,
    ensures
        spec_minus_days(d, n).valid(),
        d.year - n <= spec_minus_days(d, n).year <= d.year,
    decreases n,
{
    if n > 0 {
        lemma_prev_day_valid(d);
        lemma_minus_days_valid(spec_prev_day(d), (n - 1) as nat);
    }
}

/// Stepping forward is peeled from the far end: `n + 1` steps forward are
/// `n` steps followed by one.
pub proof fn lemma_plus_days_peel_right(d: Date, n: nat)
    ensures
        spec_plus_days(d, n + 1) == spec_next_day(spec_plus_days(d, n)),
    decreases n,
{
    if n == 0 {
        assert(spec_plus_days(d, 1) == spec_plus_days(spec_next_day(d), 0));
    } else {
        lemma_plus_days_peel_right(spec_next_day(d), (n - 1) as nat);
        assert(spec_plus_days(d, n + 1) == spec_plus_days(spec_next_day(d), n));
        assert(spec_plus_days(d, n) == spec_plus_days(spec_next_day(d), (n - 1) as nat));
    }
}

/// Stepping forward `n` days undoes stepping back `n` days: the default date
/// range's start is exactly `n` days before its end.
pub proof fn lemma_plus_undoes_minus(d: Date, n: nat)
    requires
        d.valid(),
        d.year - n > i32::MIN,
    ensures
        spec_plus_days(spec_minus_days(d, n), n) == d,
    decreases n,
{
    if n > 0 {
        lemma_prev_day_valid(d);
        lemma_plus_undoes_minus(spec_prev_day(d), (n - 1) as nat);
        lemma_plus_days_peel_right(spec_minus_days(spec_prev_day(d), (n - 1) as nat), (n - 1) as nat);
    }
}

/// `d` stepped back `n` days.
pub fn minus_days(d: Date, n: u32) -> (r: Date)
    requires
        d.valid(),
        d.year - n > i32::MIN,
    ensures
        r == spec_minus_days(d, n as nat),
        r.valid(),
        d.year - n <= r.year <= d.year,
{
    let mut acc = d;
    for i in 0..n
        invariant
            acc == spec_minus_days(d, i as nat),
            acc.valid(),
            d.year - i <= acc.year <= d.year,
            d.year - n > i32::MIN,
            n <= u32::MAX,
    {
        proof {
            lemma_prev_day_valid(acc);
            lemma_minus_days_peel_right(d, i as nat);
        }
        acc = prev_day(acc);
    }
    proof {
        lemma_minus_days_valid(d, n as nat);
    }
    acc
}

/// Stepping back is peeled from the far end: `n + 1` steps back are `n`
/// steps followed by one.
pub proof fn lemma_minus_days_peel_right(d: Date, n: nat)
    ensures
        spec_minus_days(d, n + 1) == spec_prev_day(spec_minus_days(d, n)),
    decreases n,
{
    if n == 0 {
        assert(spec_minus_days(d, 1) == spec_minus_days(spec_prev_day(d), 0));
    } else {
        lemma_minus_days_peel_right(spec_prev_day(d), (n - 1) as nat);
        assert(spec_minus_days(d, n + 1) == spec_minus_days(spec_prev_day(d), n));
        assert(spec_minus_days(d, n) == spec_minus_days(spec_prev_day(d), (n - 1) as nat));
    }
}

/// The day before `d`.
pub fn prev_day(d: Date) -> (r: Date)
    requires
        d.valid(),
        d.year > i32::MIN,
    ensures
        r == spec_prev_day(d),
        r.valid(),
        d.year - 1 <= r.year <= d.year,
{
    proof {
        lemma_prev_day_valid(d);
    }
    if d.day > 1 {
        Date { year: d.year, month: d.month, day: d.day - 1 }
    } else if d.month > 1 {
        Date { year: d.year, month: d.month - 1, day: days_in_month(d.year, d.month - 1) }
    } else {
        Date { year: d.year - 1, month: 12, day: 31 }
    }
}

/// One decimal digit as a character.
pub open spec fn spec_digit(d: int) -> char
    recommends
        0 <= d <= 9,
{
    if d == 0 { '0' }
    else if d == 1 { '1' }
    else if d == 2 { '2' }
    else if d == 3 { '3' }
    else if d == 4 { '4' }
    else if d == 5 { '5' }
    else if d == 6 { '6' }
    else if d == 7 { '7' }
    else if d == 8 { '8' }
    else { '9' }
}

/// The decimal digits of `n`, most significant first, no leading zeros.
pub open spec fn spec_dec_digits(n: nat) -> Seq<char>
    decreases n,
{
    if n < 10 { seq![spec_digit(n as int)] } else {
        spec_dec_digits(n / 10).push(spec_digit((n % 10) as int))
    }
}

/// The decimal digits of `n`, zero-padded on the left to at least four.
pub open spec fn spec_padded4(n: nat) -> Seq<char> {
    if n < 10 { "000"@ + spec_dec_digits(n) }
    else if n < 100 { "00"@ + spec_dec_digits(n) }
    else if n < 1000 { "0"@ + spec_dec_digits(n) }
    else { spec_dec_digits(n) }
}

/// A year as `%Y` renders it: at least four digits, a sign when negative.
pub open spec fn spec_year_str(y: int) -> Seq<char> {
    if y < 0 { "-"@ + spec_padded4((-y) as nat) } else { spec_padded4(y as nat) }
}

/// Exactly two decimal digits.
pub open spec fn spec_two_digits(n: nat) -> Seq<char>
    recommends
        n < 100,
{
    seq![spec_digit((n / 10) as int), spec_digit((n % 10) as int)]
}

/// A date as the catalog's `YYYY-MM-DD` shape renders it.
pub open spec fn spec_format_date(d: Date) -> Seq<char>
    recommends
        d.valid(),
{
    spec_year_str(d.year as int) + "-"@ + spec_two_digits(d.month as nat) + "-"@
        + spec_two_digits(d.day as nat)
}

/// One digit as a string slice.
fn digit_str(d: u64) -> (r: &'static str)
    requires
        d < 10,
    ensures
        r@ =~= seq![spec_digit(d as int)],
{
    let r = match d {
        0 => "0",
        1 => "1",
        2 => "2",
        3 => "3",
        4 => "4",
        5 => "5",
        6 => "6",
        7 => "7",
        8 => "8",
        _ => "9",
    };
    proof {
        reveal_strlit("0");
        reveal_strlit("1");
        reveal_strlit("2");
        reveal_strlit("3");
        reveal_strlit("4");
        reveal_strlit("5");
        reveal_strlit("6");
        reveal_strlit("7");
        reveal_strlit("8");
        reveal_strlit("9");
    }
    r
}

/// Appends the decimal digits of `n` to `out`.
fn push_dec_digits(out: &mut String, n: u64)
    ensures
        final(out)@ == old(out)@ + spec_dec_digits(n as nat),
    decreases n,
{
    if n < 10 {
        out.append(digit_str(n));
        assert(final(out)@ =~= old(out)@ + spec_dec_digits(n as nat));
    } else {
        push_dec_digits(out, n / 10);
        out.append(digit_str(n % 10));
        assert(final(out)@ =~= old(out)@ + spec_dec_digits(n as nat));
    }
}

/// Appends `n` zero-padded to at least four digits.
fn push_padded4(out: &mut String, n: u64)
    ensures
        final(out)@ == old(out)@ + spec_padded4(n as nat),
{
    if n < 10 {
        out.append("000");
    } else if n < 100 {
        out.append("00");
    } else if n < 1000 {
        out.append("0");
    }
    push_dec_digits(out, n);
    assert(final(out)@ =~= old(out)@ + spec_padded4(n as nat));
}

/// Appends exactly two decimal digits of `n`.
fn push_two_digits(out: &mut String, n: u64)
    requires
        n < 100,
    ensures
        final(out)@ == old(out)@ + spec_two_digits(n as nat),
{
    out.append(digit_str(n / 10));
    out.append(digit_str(n % 10));
    assert(final(out)@ =~= old(out)@ + spec_two_digits(n as nat));
}

/// Renders a date in the catalog's `YYYY-MM-DD` shape, the same way the
/// `%Y-%m-%d` formatting directive renders it.
pub fn format_date(d: Date) -> (r: String)
    requires
        d.valid(),
    ensures
        r@ == spec_format_date(d),
{
    let mut out = String::new();
    if d.year < 0 {
        out.append("-");
        let mag: i64 = -(d.year as i64);
        push_padded4(&mut out, mag as u64);
    } else {
        push_padded4(&mut out, d.year as u64);
    }
    out.append("-");
    push_two_digits(&mut out, d.month as u64);
    out.append("-");
    push_two_digits(&mut out, d.day as u64);
    assert(out@ =~= spec_format_date(d));
    out
}

/// Relies on `chrono::Local::now` and the `chrono::Datelike` accessors:
/// `year`, `month` and `day` of a chrono date name a real day of the
/// proleptic Gregorian calendar (`month` in 1..=12, `day` in 1..=31 and
/// consistent with the month and leap rule), and chrono restricts its dates
/// to years within about plus or minus 262,000.
#[verifier::external_body]
pub(crate) fn today_local() -> (r: Date)
    ensures
        r.valid(),
        -262144 <= r.year <= 262143,
{
    let now = chrono::Local::now();
    Date {
        year: chrono::Datelike::year(&now),
        month: chrono::Datelike::month(&now) as u8,
        day: chrono::Datelike::day(&now) as u8,
    }
}

} // verus!
