//! Elapsed time as years, days, hours, minutes and seconds, with fixed
//! 60 / 60 / 24 / 365 divisors and no calendar correction.
use crate::format_utils::{is_digit, lemma_padded_decimal_reads_back, padded_decimal, pow10, value_of, push_char, with_at_least_2_digits, with_at_least_3_digits, with_at_least_4_digits};
use crate::moment::Moment;
use vstd::arithmetic::div_mod::lemma_fundamental_div_mod;
use vstd::prelude::*;

verus! {

pub const SECONDS_PER_MINUTE: u64 = 60;

pub const MINUTES_PER_HOUR: u64 = 60;

pub const HOURS_PER_DAY: u64 = 24;

pub const DAYS_PER_YEAR: u64 = 365;

/// A span of time broken down into years of 365 days, days, hours, minutes and seconds.
#[derive(Clone, Copy, Debug, PartialEq, Eq, Structural)]
pub struct DateDifference {
    pub seconds: u64,
    pub minutes: u64,
    pub hours: u64,
    pub days: u64,
    pub years: u64,
}

/// The breakdown of `total` seconds by successive division: seconds below 60,
/// minutes below 60, hours below 24, days below 365, the rest as years.
pub open spec fn breakdown(total: nat) -> DateDifference {
    DateDifference {
        seconds: (total % 60) as u64,
        minutes: (total / 60 % 60) as u64,
        hours: (total / 3600 % 24) as u64,
        days: (total / 86400 % 365) as u64,
        years: (total / 31_536_000) as u64,
    }
}

/// The text `YYYY:DDD HH:MM:SS` of a breakdown, each field zero-padded.
pub open spec fn rendered(d: DateDifference) -> Seq<char> {
    padded_decimal(d.years as nat, 4) + seq![':'] + padded_decimal(d.days as nat, 3) + seq![' ']
        + padded_decimal(d.hours as nat, 2) + seq![':'] + padded_decimal(d.minutes as nat, 2) + seq![':']
        + padded_decimal(d.seconds as nat, 2)
}

impl DateDifference {
    /// Number of seconds that the breakdown stands for.
    pub open spec fn total_seconds(self) -> int {
        self.years * 31_536_000 + self.days * 86400 + self.hours * 3600 + self.minutes * 60
            + self.seconds
    }

    /// Every field but the years lies below its divisor.
    pub open spec fn is_canonical(self) -> bool {
        self.seconds < 60 && self.minutes < 60 && self.hours < 24 && self.days < 365
    }

    /// Breaks `total_secs` down into seconds, minutes, hours, days and years.
    /// Division stops once nothing is left, so the coarser fields of a short
    /// span stay zero.
    pub fn new(total_secs: u64) -> (r: DateDifference)
        ensures
            r == breakdown(total_secs as nat),
    {
        let mut result = DateDifference { seconds: 0, minutes: 0, hours: 0, days: 0, years: 0 };
        let mut left_total_secs = total_secs;
        assert(total_secs / 3600 == total_secs / 60 / 60);
        assert(total_secs / 86400 == total_secs / 60 / 60 / 24);
        assert(total_secs / 31_536_000 == total_secs / 60 / 60 / 24 / 365);

        extract_advance_time_unit(&mut result.seconds, &mut left_total_secs, SECONDS_PER_MINUTE);
        if left_total_secs == 0 {
            return result;
        }
        extract_advance_time_unit(&mut result.minutes, &mut left_total_secs, MINUTES_PER_HOUR);
        if left_total_secs == 0 {
            return result;
        }
        extract_advance_time_unit(&mut result.hours, &mut left_total_secs, HOURS_PER_DAY);
        if left_total_secs == 0 {
            return result;
        }
        extract_advance_time_unit(&mut result.days, &mut left_total_secs, DAYS_PER_YEAR);
        result.years = left_total_secs;
        result
    }

    /// The span as `YYYY:DDD HH:MM:SS`: years zero-padded to four digits, days
    /// to three, hours, minutes and seconds to two.
    pub fn to_string(&self) -> (r: String)
        ensures
            r@ == rendered(*self),
    {
        let seconds = with_at_least_2_digits(self.seconds);
        let minutes = with_at_least_2_digits(self.minutes);
        let hours = with_at_least_2_digits(self.hours);
        let days = with_at_least_3_digits(self.days);
        let mut text = with_at_least_4_digits(self.years);
        push_char(&mut text, ':');
        text.append(days.as_str());
        push_char(&mut text, ' ');
        text.append(hours.as_str());
        push_char(&mut text, ':');
        text.append(minutes.as_str());
        push_char(&mut text, ':');
        text.append(seconds.as_str());
        assert(text@ =~= rendered(*self));
        text
    }
}

impl Default for DateDifference {
    fn default() -> (r: DateDifference)
        ensures
            r == (DateDifference { seconds: 0, minutes: 0, hours: 0, days: 0, years: 0 }),
    {
        DateDifference { seconds: 0, minutes: 0, hours: 0, days: 0, years: 0 }
    }
}

/// Moves the remainder of `*t_secs` by `unit` into `*dest` and keeps the quotient.
fn extract_advance_time_unit(dest: &mut u64, t_secs: &mut u64, unit: u64)
    requires
        unit > 0,
    ensures
        *final(dest) == *old(t_secs) % unit,
        *final(t_secs) == *old(t_secs) / unit,
{
    *dest = *t_secs % unit;
    *t_secs = *t_secs / unit;
}

/// Seconds in `hours` hours, `minutes` minutes and `secs` seconds.
pub fn duration_with_hms(hours: i64, minutes: i64, secs: i64) -> (r: i64)
    requires
        i64::MIN <= hours * 3600 + minutes * 60 + secs <= i64::MAX,
    ensures
        r == hours * 3600 + minutes * 60 + secs,
{
    let total: i128 = hours as i128 * 3600 + minutes as i128 * 60 + secs as i128;
    total as i64
}

/// The time from `earlier` to `later`, broken down.
pub fn calc_date_moment_difference(later: &Moment, earlier: &Moment) -> (r: DateDifference)
    requires
        later.is_valid(),
        earlier.is_valid(),
        earlier.secs <= later.secs,
    ensures
        r == breakdown((later.secs - earlier.secs) as nat),
{
    DateDifference::new(later.seconds_since(earlier))
}

/// The breakdown of the time between two moments `a <= b` is canonical and adds
/// back up to exactly `b - a` seconds; breaking that sum down again gives the
/// same fields, so the rendering depends on the span alone. A span under a
/// minute has only its seconds set.
pub proof fn lemma_elapsed_breakdown_exact(a: Moment, b: Moment)
    requires
        a.is_valid(),
        b.is_valid(),
        a.secs <= b.secs,
    ensures
        breakdown((b.secs - a.secs) as nat).is_canonical(),
        breakdown((b.secs - a.secs) as nat).total_seconds() == b.secs - a.secs,
        breakdown(breakdown((b.secs - a.secs) as nat).total_seconds() as nat) == breakdown(
            (b.secs - a.secs) as nat,
        ),
        b.secs - a.secs < 60 ==> breakdown((b.secs - a.secs) as nat) == (DateDifference {
            seconds: (b.secs - a.secs) as u64,
            minutes: 0,
            hours: 0,
            days: 0,
            years: 0,
        }),
{
    let total = (b.secs - a.secs) as nat;
    lemma_breakdown_sums_to(total);
}

/// Successive division loses nothing: the fields add back up to the total.
pub proof fn lemma_breakdown_sums_to(total: nat)
    requires
        total <= u64::MAX,
    ensures
        breakdown(total).is_canonical(),
        breakdown(total).total_seconds() == total,
{
    let m = total / 60;
    let h = m / 60;
    let d = h / 24;
    let y = d / 365;
    lemma_fundamental_div_mod(total as int, 60);
    lemma_fundamental_div_mod(m as int, 60);
    lemma_fundamental_div_mod(h as int, 24);
    lemma_fundamental_div_mod(d as int, 365);
    assert(total / 3600 == h) by (nonlinear_arith)
        requires
            m == total / 60,
            h == m / 60,
    ;
    assert(total / 86400 == d) by (nonlinear_arith)
        requires
            m == total / 60,
            h == m / 60,
            d == h / 24,
    ;
    assert(total / 31_536_000 == y) by (nonlinear_arith)
        requires
            m == total / 60,
            h == m / 60,
            d == h / 24,
            y == d / 365,
    ;
    assert(total == y * 31_536_000 + (d % 365) * 86400 + (h % 24) * 3600 + (m % 60) * 60 + total
        % 60) by (nonlinear_arith)
        requires
            total == m * 60 + total % 60,
            m == h * 60 + m % 60,
            h == d * 24 + h % 24,
            d == y * 365 + d % 365,
    ;
}

/// For a span under ten thousand years of 365 days, the text of its breakdown
/// is `YYYY:DDD HH:MM:SS`: seventeen characters, digits but for the four
/// separators, and its fields read back give exactly the span in seconds.
pub proof fn lemma_rendering_recovers_span(n: nat)
    requires
        n < 10000 * 31_536_000,
    ensures
        ({
            let t = rendered(breakdown(n));
            &&& t.len() == 17
            &&& t[4] == ':' && t[8] == ' ' && t[11] == ':' && t[14] == ':'
            &&& forall|i: int|
                0 <= i < 17 && i != 4 && i != 8 && i != 11 && i != 14 ==> is_digit(#[trigger] t[i])
            &&& value_of(t.subrange(0, 4)) * 31_536_000 + value_of(t.subrange(5, 8)) * 86400
                + value_of(t.subrange(9, 11)) * 3600 + value_of(t.subrange(12, 14)) * 60 + value_of(
                t.subrange(15, 17),
            ) == n
        }),
{
    let d = breakdown(n);
    lemma_breakdown_sums_to(n);
    assert(n / 31_536_000 < 10000);
    reveal_with_fuel(pow10, 5);
    assert(pow10(4) == 10000 && pow10(3) == 1000 && pow10(2) == 100);
    lemma_padded_decimal_reads_back(d.years as nat, 4);
    lemma_padded_decimal_reads_back(d.days as nat, 3);
    lemma_padded_decimal_reads_back(d.hours as nat, 2);
    lemma_padded_decimal_reads_back(d.minutes as nat, 2);
    lemma_padded_decimal_reads_back(d.seconds as nat, 2);
    let y = padded_decimal(d.years as nat, 4);
    let dd = padded_decimal(d.days as nat, 3);
    let h = padded_decimal(d.hours as nat, 2);
    let m = padded_decimal(d.minutes as nat, 2);
    let sec = padded_decimal(d.seconds as nat, 2);
    let t = rendered(d);
    assert(t =~= y + seq![':'] + dd + seq![' '] + h + seq![':'] + m + seq![':'] + sec);
    assert(t.subrange(0, 4) =~= y);
    assert(t.subrange(5, 8) =~= dd);
    assert(t.subrange(9, 11) =~= h);
    assert(t.subrange(12, 14) =~= m);
    assert(t.subrange(15, 17) =~= sec);
    assert forall|i: int| 0 <= i < 17 && i != 4 && i != 8 && i != 11 && i != 14 implies is_digit(
        #[trigger] t[i],
    ) by {
        if i < 4 {
            assert(t[i] == y[i]);
        } else if i < 8 {
            assert(t[i] == dd[i - 5]);
        } else if i < 11 {
            assert(t[i] == h[i - 9]);
        } else if i < 14 {
            assert(t[i] == m[i - 12]);
        } else {
            assert(t[i] == sec[i - 15]);
        }
    }
}

} // verus!
