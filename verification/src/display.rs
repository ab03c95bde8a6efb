//! Text shown in the statistics bar and the spot table: counts with
//! thousands separators, UTC clock times, SNR colour classes, and the map
//! selection a table row stands for.
use vstd::prelude::*;

use crate::text::{decimal_nat, digit_char, push_char, push_u64};
use chrono::{Datelike, Timelike};
use vstd::string::{StrSliceExecFns, StringExecFns};

verus! {

// ---------------------------------------------------------------------------
// Counts
// ---------------------------------------------------------------------------

/// Three decimal digits of `m < 1000`, with leading zeros.
pub open spec fn three_digits(m: int) -> Seq<char> {
    seq![digit_char(m / 100), digit_char((m / 10) % 10), digit_char(m % 10)]
}

/// Decimal representation of `n` with a `,` between groups of three digits,
/// counted from the right.
pub open spec fn grouped_decimal(n: nat) -> Seq<char>
    decreases n,
{
    if n < 1000 {
        decimal_nat(n)
    } else {
        grouped_decimal(n / 1000) + seq![','] + three_digits((n % 1000) as int)
    }
}

fn push_three_digits(s: &mut String, m: u64)
    requires
        m < 1000,
    ensures
        final(s)@ == old(s)@ + three_digits(m as int),
{
    push_char(s, ((m / 100) as u8 + 48u8) as char);
    push_char(s, (((m / 10) % 10) as u8 + 48u8) as char);
    push_char(s, ((m % 10) as u8 + 48u8) as char);
    proof {
        assert(old(s)@.push(digit_char(m as int / 100)).push(digit_char((m as int / 10) % 10)).push(
            digit_char(m as int % 10),
        ) == old(s)@ + three_digits(m as int));
    }
}

fn push_grouped(s: &mut String, n: u64)
    ensures
        final(s)@ == old(s)@ + grouped_decimal(n as nat),
    decreases n,
{
    if n < 1000 {
        push_u64(s, n);
    } else {
        push_grouped(s, n / 1000);
        push_char(s, ',');
        push_three_digits(s, n % 1000);
        proof {
            assert(old(s)@ + grouped_decimal((n / 1000) as nat) + seq![','] + three_digits(
                (n % 1000) as int,
            ) == old(s)@ + grouped_decimal(n as nat));
        }
    }
}

/// Format a count with thousands separators, e.g. `1234567` → `"1,234,567"`.
pub fn format_count(n: u64) -> (s: String)
    ensures
        s@ == grouped_decimal(n as nat),
{
    let mut s = String::new();
    push_grouped(&mut s, n);
    s
}

/// `s` with every `,` removed.
pub open spec fn without_commas(s: Seq<char>) -> Seq<char>
    decreases s.len(),
{
    if s.len() == 0 {
        s
    } else if s.last() == ',' {
        without_commas(s.drop_last())
    } else {
        without_commas(s.drop_last()).push(s.last())
    }
}

proof fn lemma_without_commas_append(a: Seq<char>, b: Seq<char>)
    ensures
        without_commas(a + b) == without_commas(a) + without_commas(b),
    decreases b.len(),
{
    if b.len() == 0 {
        assert(a + b == a);
    } else {
        lemma_without_commas_append(a, b.drop_last());
        assert((a + b).drop_last() == a + b.drop_last());
    }
}

proof fn lemma_decimal_no_commas(n: nat)
    ensures
        without_commas(decimal_nat(n)) == decimal_nat(n),
        decimal_nat(n).len() >= 1,
    decreases n,
{
    let e = Seq::<char>::empty();
    assert(without_commas(e) == e);
    if n >= 10 {
        lemma_decimal_no_commas(n / 10);
        let d = digit_char((n % 10) as int);
        assert(decimal_nat(n).drop_last() == decimal_nat(n / 10));
        assert(decimal_nat(n).last() == d);
    } else {
        let d = digit_char(n as int);
        assert(seq![d].drop_last() == e);
        assert(seq![d].last() == d);
        assert(without_commas(seq![d]) == e.push(d));
        assert(e.push(d) == seq![d]);
    }
}

proof fn lemma_decimal_split_thousands(n: nat)
    requires
        n >= 1000,
    ensures
        decimal_nat(n) == decimal_nat(n / 1000) + three_digits((n % 1000) as int),
{
    let a = n / 10;
    let b = a / 10;
    assert(n / 1000 == b / 10);
    assert((n % 1000) / 100 == b % 10);
    assert(((n % 1000) / 10) % 10 == a % 10);
    assert((n % 1000) % 10 == n % 10);
    assert(decimal_nat(n) == decimal_nat(a).push(digit_char((n % 10) as int)));
    assert(decimal_nat(a) == decimal_nat(b).push(digit_char((a % 10) as int)));
    assert(decimal_nat(b) == decimal_nat(b / 10).push(digit_char((b % 10) as int)));
}

/// Removing the thousands separators from a formatted count gives back its
/// plain decimal representation.
pub proof fn lemma_grouping_only_inserts_commas(n: nat)
    ensures
        without_commas(grouped_decimal(n)) == decimal_nat(n),
    decreases n,
{
    if n < 1000 {
        lemma_decimal_no_commas(n);
    } else {
        lemma_grouping_only_inserts_commas(n / 1000);
        let t = three_digits((n % 1000) as int);
        lemma_without_commas_append(grouped_decimal(n / 1000) + seq![','], t);
        lemma_without_commas_append(grouped_decimal(n / 1000), seq![',']);
        let e = Seq::<char>::empty();
        assert(without_commas(e) == e);
        assert(without_commas(seq![',']) == e) by {
            assert(seq![','].drop_last() == e);
        }
        assert(without_commas(t) == t) by {
            let t1 = t.drop_last();
            let t2 = t1.drop_last();
            assert(t2.drop_last() == e);
            assert(without_commas(t2) == e.push(t2.last()));
            assert(e.push(t2.last()) == t2);
            assert(without_commas(t1) == t2.push(t1.last()));
            assert(t2.push(t1.last()) == t1);
            assert(t1.push(t.last()) == t);
        }
        lemma_decimal_split_thousands(n);
    }
}

// ---------------------------------------------------------------------------
// UTC clock times
// ---------------------------------------------------------------------------

/// Seconds per day.
pub const SECS_PER_DAY: i64 = 86_400;

/// Earliest Unix timestamp that `chrono` represents (`-262143-01-01T00:00:00Z`).
pub const MIN_UTC_TIMESTAMP: i64 = -8_334_601_228_800;

/// Latest Unix timestamp that `chrono` represents (`+262142-12-31T23:59:59Z`).
pub const MAX_UTC_TIMESTAMP: i64 = 8_210_266_876_799;

/// Calendar month (1-12) and day of month of the day `days` after
/// 1970-01-01 in the proleptic Gregorian calendar.  Years are counted from
/// March, so that the leap day is the last day of its year: `era` is the
/// 400-year cycle, `doe` the day within it, `yoe` the year within the cycle,
/// `doy` the day within that March-based year and `mp` its month counted
/// from March.
pub open spec fn civil_month_day(days: int) -> (int, int) {
    let z = days + 719_468;
    let era = z / 146_097;
    let doe = z - era * 146_097;
    let yoe = (doe - doe / 1_460 + doe / 36_524 - doe / 146_096) / 365;
    let doy = doe - (365 * yoe + yoe / 4 - yoe / 100);
    let mp = (5 * doy + 2) / 153;
    let day = doy - (153 * mp + 2) / 5 + 1;
    let month = if mp < 10 {
        mp + 3
    } else {
        mp - 9
    };
    (month, day)
}

/// Calendar month and day (UTC, proleptic Gregorian) of a Unix timestamp.
pub open spec fn utc_month_day(ts: i64) -> (int, int) {
    civil_month_day((ts as int) / 86_400)
}

/// Hour, minute, month and day of a UTC timestamp.
#[derive(Debug, Clone, Copy, PartialEq, Eq, Structural)]
pub struct UtcFields {
    pub hour: u32,
    pub minute: u32,
    pub month: u32,
    pub day: u32,
}

/// Hour (0-23) of the UTC day of a Unix timestamp.
pub open spec fn utc_hour(ts: int) -> int {
    (ts % 86_400) / 3600
}

/// Minute (0-59) of the UTC hour of a Unix timestamp.
pub open spec fn utc_minute(ts: int) -> int {
    ((ts % 86_400) / 60) % 60
}

/// `chrono::DateTime::<Utc>::from_timestamp(ts, 0)` with its hour, minute,
/// month and day read off: `None` outside chrono's range of years
/// -262143..=262142; the hour and minute are those of `ts` mod one day; the
/// month (1-12) and day (1-31) are the calendar date of [`utc_month_day`].
#[verifier::external_body]
fn utc_fields(ts: i64) -> (r: Option<UtcFields>)
    ensures
        r is Some <==> MIN_UTC_TIMESTAMP <= ts <= MAX_UTC_TIMESTAMP,
        r matches Some(f) ==> {
            &&& f.hour == utc_hour(ts as int)
            &&& f.minute == utc_minute(ts as int)
            &&& f.month == utc_month_day(ts).0
            &&& f.day == utc_month_day(ts).1
            &&& 1 <= f.month <= 12
            &&& 1 <= f.day <= 31
        },
{
    chrono::DateTime::<chrono::Utc>::from_timestamp(ts, 0).map(
        |dt| UtcFields { hour: dt.hour(), minute: dt.minute(), month: dt.month(), day: dt.day() },
    )
}

/// Two decimal digits of `m < 100`, with a leading zero.
pub open spec fn two_digits(m: int) -> Seq<char> {
    seq![digit_char(m / 10), digit_char(m % 10)]
}

fn push_two_digits(s: &mut String, m: u32)
    requires
        m < 100,
    ensures
        final(s)@ == old(s)@ + two_digits(m as int),
{
    push_char(s, ((m / 10) as u8 + 48u8) as char);
    push_char(s, ((m % 10) as u8 + 48u8) as char);
    proof {
        assert(old(s)@.push(digit_char(m as int / 10)).push(digit_char(m as int % 10)) == old(s)@
            + two_digits(m as int));
    }
}

/// `"HHMM"` of a timestamp in chrono's range, `"----"` outside it.
pub open spec fn hhmm_spec(ts: i64) -> Seq<char> {
    if MIN_UTC_TIMESTAMP <= ts <= MAX_UTC_TIMESTAMP {
        two_digits(utc_hour(ts as int)) + two_digits(utc_minute(ts as int))
    } else {
        "----"@
    }
}

/// Format a Unix timestamp as `"HHMM"` UTC, e.g. `"1430"`; `"----"` when
/// the timestamp is outside the representable range.
pub fn format_unix_hhmm(unix: i64) -> (s: String)
    ensures
        s@ == hhmm_spec(unix),
{
    match utc_fields(unix) {
        Some(f) => {
            let mut s = String::new();
            push_two_digits(&mut s, f.hour);
            push_two_digits(&mut s, f.minute);
            s
        },
        None => String::from_str("----"),
    }
}

/// True when two timestamps fall on the same UTC day.
pub open spec fn same_utc_day(a: i64, b: i64) -> bool {
    (a as int) / 86_400 == (b as int) / 86_400
}

/// One end of a time range: `"HH:MM"` (same day) or `"MM-DD HH:MM"`
/// (across days), `"?"` outside the representable range.
pub open spec fn range_end_spec(ts: i64, with_date: bool) -> Seq<char> {
    if MIN_UTC_TIMESTAMP <= ts <= MAX_UTC_TIMESTAMP {
        let (month, day) = utc_month_day(ts);
        let clock = two_digits(utc_hour(ts as int)) + seq![':'] + two_digits(utc_minute(ts as int));
        if with_date {
            two_digits(month as int) + seq!['-'] + two_digits(day as int) + seq![' '] + clock
        } else {
            clock
        }
    } else {
        "?"@
    }
}

/// The statistics window text: `"—"` when there are no spots (both ends
/// zero), otherwise `"HH:MM–HH:MM UTC"` within one UTC day and
/// `"MM-DD HH:MM–MM-DD HH:MM UTC"` across days.
pub open spec fn time_range_spec(oldest: i64, newest: i64) -> Seq<char> {
    if oldest == 0 && newest == 0 {
        "\u{2014}"@
    } else {
        let with_date = !same_utc_day(oldest, newest);
        range_end_spec(oldest, with_date) + "\u{2013}"@ + range_end_spec(newest, with_date)
            + " UTC"@
    }
}

/// Index of the UTC day of a timestamp (days since 1970-01-01, rounded down).
fn utc_day(ts: i64) -> (d: i64)
    ensures
        d == (ts as int) / 86_400,
{
    let q = ts / SECS_PER_DAY;
    let r = ts % SECS_PER_DAY;
    if r < 0 {
        q - 1
    } else {
        q
    }
}

fn push_range_end(s: &mut String, ts: i64, with_date: bool)
    ensures
        final(s)@ == old(s)@ + range_end_spec(ts, with_date),
{
    match utc_fields(ts) {
        Some(f) => {
            let ghost start = s@;
            if with_date {
                push_two_digits(s, f.month);
                push_char(s, '-');
                push_two_digits(s, f.day);
                push_char(s, ' ');
            }
            let ghost mid = s@;
            push_two_digits(s, f.hour);
            push_char(s, ':');
            push_two_digits(s, f.minute);
            proof {
                let clock = two_digits(utc_hour(ts as int)) + seq![':'] + two_digits(
                    utc_minute(ts as int),
                );
                assert(s@ == mid + clock);
                if with_date {
                    assert(mid == start + (two_digits(f.month as int) + seq!['-'] + two_digits(
                        f.day as int,
                    ) + seq![' ']));
                }
            }
        },
        None => {
            s.append("?");
        },
    }
}

/// Format a Unix-timestamp range as `HH:MM–HH:MM UTC` (same UTC day) or
/// `MM-DD HH:MM–MM-DD HH:MM UTC` (across days); `"—"` when both ends are
/// zero (no spots).
pub fn format_time_range(oldest: i64, newest: i64) -> (s: String)
    ensures
        s@ == time_range_spec(oldest, newest),
{
    if oldest == 0 && newest == 0 {
        return String::from_str("\u{2014}");
    }
    let with_date = utc_day(oldest) != utc_day(newest);
    let mut s = String::new();
    push_range_end(&mut s, oldest, with_date);
    s.append("\u{2013}");
    push_range_end(&mut s, newest, with_date);
    s.append(" UTC");
    s
}

// ---------------------------------------------------------------------------
// Spot table
// ---------------------------------------------------------------------------

/// CSS class of an SNR cell: weak up to -15 dB, moderate from -14 to -5 dB,
/// strong above.
pub fn snr_class(snr: i32) -> (r: &'static str)
    ensures
        r@ == (if snr <= -15 {
            "mono snr-weak"@
        } else if snr <= -5 {
            "mono snr-moderate"@
        } else {
            "mono snr-strong"@
        }),
{
    if snr <= -15 {
        "mono snr-weak"
    } else if snr <= -5 {
        "mono snr-moderate"
    } else {
        "mono snr-strong"
    }
}

/// What clicking a table row selects on the map: `(grid, callsign)`, or
/// nothing when the spot has no grid.
pub fn row_selection(grid: &str, callsign: &str) -> (r: Option<(String, String)>)
    ensures
        grid@.len() == 0 ==> r is None,
        grid@.len() > 0 ==> (r matches Some((g, c)) && g@ == grid@ && c@ == callsign@),
{
    if grid.unicode_len() == 0 {
        None
    } else {
        Some((String::from_str(grid), String::from_str(callsign)))
    }
}

} // verus!
