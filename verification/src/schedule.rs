//! Next run time of a cron schedule, in a named timezone that falls back to
//! UTC, rendered as a UTC timestamp with milliseconds.
use vstd::prelude::*;

verus! {

/// Whether `cron::Schedule::from_str` accepts the expression.
pub uninterp spec fn cron_expression_valid(expr: Seq<char>) -> bool;

/// Whether `chrono_tz::Tz::from_str` knows the timezone name.
pub uninterp spec fn timezone_known(name: Seq<char>) -> bool;

/// Whether the instant `t` (milliseconds since the Unix epoch) is an
/// occurrence of the cron schedule `expr` read in the timezone named `zone`.
pub uninterp spec fn occurs_in_zone(expr: Seq<char>, zone: Seq<char>, t: int) -> bool;

/// Whether the schedule `expr`, read in the timezone named `zone`, has an
/// occurrence later than the instant `t` (milliseconds since the epoch).
pub open spec fn occurs_after(expr: Seq<char>, zone: Seq<char>, t: int) -> bool {
    exists|u: int| t < u && #[trigger] occurs_in_zone(expr, zone, u)
}

/// The first occurrence of a schedule after the current time.
pub enum NextOccurrence {
    /// The cron expression does not parse.
    BadExpression,
    /// The expression parses but the timezone name is unknown.
    UnknownZone,
    /// The schedule has no further occurrence.
    NoneLeft,
    /// The occurrence, in milliseconds since the Unix epoch.
    At(i64),
}

/// cron years lie in `1970..=2100` and a timezone offset is less than a
/// day, so every occurrence falls in `[1969-12-31T00:00Z, 2102-01-01T00:00Z)`.
pub open spec fn occurrence_in_range(t: int) -> bool {
    -86_400_000 <= t && t < 4_165_516_800_000
}

/// `expr.parse::<cron::Schedule>()`, then `zone.parse::<chrono_tz::Tz>()`,
/// then `upcoming(tz).next()` of the schedule, as milliseconds since the
/// epoch (`DateTime::timestamp_millis`). Which occurrence comes back depends
/// on the clock; what is stated holds of every outcome: it is an occurrence
/// of the schedule in that zone, and it lies in the years cron allows
/// (1970..=2100, read in a zone whose offset is under a day). The search
/// walks every later candidate time, so it finds none only when the schedule
/// has no occurrence after the current instant. chrono-tz knows `UTC`.
#[verifier::external_body]
fn next_occurrence_millis(expr: &str, zone: &str) -> (r: NextOccurrence)
    ensures
        (r is BadExpression) == !cron_expression_valid(expr@),
        (r is UnknownZone) == (cron_expression_valid(expr@) && !timezone_known(zone@)),
        zone@ == "UTC"@ ==> !(r is UnknownZone),
        r matches NextOccurrence::At(t) ==> occurs_in_zone(expr@, zone@, t as int) && occurrence_in_range(t as int),
        r is NoneLeft ==> exists|now: int| !#[trigger] occurs_after(expr@, zone@, now),
{
    let schedule = match expr.parse::<cron::Schedule>() {
        Ok(s) => s,
        Err(_) => return NextOccurrence::BadExpression,
    };
    let tz = match zone.parse::<chrono_tz::Tz>() {
        Ok(tz) => tz,
        Err(_) => return NextOccurrence::UnknownZone,
    };
    match schedule.upcoming(tz).next() {
        Some(dt) => NextOccurrence::At(dt.timestamp_millis()),
        None => NextOccurrence::NoneLeft,
    }
}

/// `chrono_tz::Tz::from_str(name).is_ok()`: whether chrono-tz knows the
/// zone name; the empty string is no zone name (the lookup is in a table of
/// non-empty names).
#[verifier::external_body]
fn is_known_timezone(name: &str) -> (b: bool)
    ensures
        b == timezone_known(name@),
        name@.len() == 0 ==> !b,
{
    name.parse::<chrono_tz::Tz>().is_ok()
}

/// The zone a schedule is read in: the given name when it is a known zone,
/// `UTC` otherwise (no name, an unknown name, or the empty string).
pub open spec fn effective_zone(timezone: Option<&str>) -> Seq<char> {
    match timezone {
        Some(t) => if timezone_known(t@) {
            t@
        } else {
            "UTC"@
        },
        None => "UTC"@,
    }
}

/// Whether `y` is a Gregorian leap year.
pub open spec fn is_leap_year(y: int) -> bool {
    y % 4 == 0 && (y % 100 != 0 || y % 400 == 0)
}

/// The number of days of year `y`.
pub open spec fn year_len(y: int) -> nat {
    if is_leap_year(y) {
        366
    } else {
        365
    }
}

/// The number of days of month `m` (1..=12) of year `y`.
pub open spec fn month_len(y: int, m: int) -> nat {
    if m == 2 {
        if is_leap_year(y) {
            29
        } else {
            28
        }
    } else if m == 4 || m == 6 || m == 9 || m == 11 {
        30
    } else {
        31
    }
}

/// The (month, day) of the day `days` after the first day of month `m` of
/// year `y`, walking forward through the months of that year.
pub open spec fn month_day(y: int, m: int, days: nat) -> (int, int)
    decreases 12 - m,
{
    if m < 12 && days >= month_len(y, m) {
        month_day(y, m + 1, (days - month_len(y, m)) as nat)
    } else {
        (m, days as int + 1)
    }
}

/// The (year, month, day) of the day `days` after January 1st of year `y`.
pub open spec fn date_after(y: int, days: nat) -> (int, int, int)
    decreases days,
{
    if days >= year_len(y) {
        date_after(y + 1, (days - year_len(y)) as nat)
    } else {
        let (m, d) = month_day(y, 1, days);
        (y, m, d)
    }
}

/// The digit of `n` at the given power of ten.
pub open spec fn digit_at(n: int, unit: int) -> char {
    crate::text::digit_char(((n / unit) % 10) as nat)
}

/// The last two decimal digits of `n`.
pub open spec fn digits2(n: int) -> Seq<char> {
    seq![digit_at(n, 10), digit_at(n, 1)]
}

/// The last three decimal digits of `n`.
pub open spec fn digits3(n: int) -> Seq<char> {
    seq![digit_at(n, 100), digit_at(n, 10), digit_at(n, 1)]
}

/// The last four decimal digits of `n`.
pub open spec fn digits4(n: int) -> Seq<char> {
    seq![digit_at(n, 1000), digit_at(n, 100), digit_at(n, 10), digit_at(n, 1)]
}

/// The text `YYYY-MM-DDTHH:MM:SS.mmmZ` of the given date and time fields
/// (each rendered by its last decimal digits).
pub open spec fn timestamp_text(y: int, m: int, d: int, hh: int, mi: int, se: int, ms: int) -> Seq<char> {
    digits4(y) + seq!['-'] + digits2(m) + seq!['-'] + digits2(d) + seq!['T'] + digits2(hh)
        + seq![':'] + digits2(mi) + seq![':'] + digits2(se) + seq!['.'] + digits3(ms) + seq!['Z']
}

/// The instant `t` (milliseconds since the Unix epoch, at least a day
/// before it) as the UTC text `YYYY-MM-DDTHH:MM:SS.mmmZ`: the date counted
/// from 1969-01-01 in the Gregorian calendar, then the time of day.
pub open spec fn utc_millis_text_spec(t: int) -> Seq<char> {
    let u = t + 86_400_000;
    let (y, m, d) = date_after(1969, (u / 86_400_000 + 364) as nat);
    let ms = u % 86_400_000;
    timestamp_text(y, m, d, ms / 3_600_000, (ms / 60_000) % 60, (ms / 1000) % 60, ms)
}

/// `s` has the shape `YYYY-MM-DDTHH:MM:SS.mmmZ`: a digit wherever a letter
/// stands in that pattern, and the separators as written.
pub open spec fn utc_millis_timestamp_shape(s: Seq<char>) -> bool {
    &&& s.len() == 24
    &&& s[4] == '-' && s[7] == '-' && s[10] == 'T' && s[13] == ':' && s[16] == ':'
    &&& s[19] == '.' && s[23] == 'Z'
    &&& forall|i: int|
        0 <= i < 24 && i != 4 && i != 7 && i != 10 && i != 13 && i != 16 && i != 19 && i != 23
            ==> '0' <= #[trigger] s[i] && s[i] <= '9'
}

proof fn lemma_digit_at(n: int, unit: int)
    requires
        unit > 0,
    ensures
        '0' <= digit_at(n, unit) && digit_at(n, unit) <= '9',
{
    let k = (n / unit) % 10;
    assert(0 <= k < 10);
    let c = ((48 + (k as nat)) as u8) as char;
    assert(48 <= (48 + (k as nat)) as u8 <= 57);
    assert('0' <= c && c <= '9');
}

proof fn lemma_timestamp_text_shape(y: int, m: int, d: int, hh: int, mi: int, se: int, ms: int)
    ensures
        utc_millis_timestamp_shape(timestamp_text(y, m, d, hh, mi, se, ms)),
{
    lemma_digit_at(y, 1000);
    lemma_digit_at(y, 100);
    lemma_digit_at(y, 10);
    lemma_digit_at(y, 1);
    lemma_digit_at(m, 10);
    lemma_digit_at(m, 1);
    lemma_digit_at(d, 10);
    lemma_digit_at(d, 1);
    lemma_digit_at(hh, 10);
    lemma_digit_at(hh, 1);
    lemma_digit_at(mi, 10);
    lemma_digit_at(mi, 1);
    lemma_digit_at(se, 10);
    lemma_digit_at(se, 1);
    lemma_digit_at(ms, 100);
    lemma_digit_at(ms, 10);
    lemma_digit_at(ms, 1);
    let s = timestamp_text(y, m, d, hh, mi, se, ms);
    assert(s =~= seq![
        digit_at(y, 1000), digit_at(y, 100), digit_at(y, 10), digit_at(y, 1), '-',
        digit_at(m, 10), digit_at(m, 1), '-', digit_at(d, 10), digit_at(d, 1), 'T',
        digit_at(hh, 10), digit_at(hh, 1), ':', digit_at(mi, 10), digit_at(mi, 1), ':',
        digit_at(se, 10), digit_at(se, 1), '.', digit_at(ms, 100), digit_at(ms, 10),
        digit_at(ms, 1), 'Z',
    ]);
}

/// Every rendered instant has the timestamp shape.
pub proof fn rendered_instants_have_the_timestamp_shape(t: int)
    ensures
        utc_millis_timestamp_shape(utc_millis_text_spec(t)),
{
    let u = t + 86_400_000;
    let (y, m, d) = date_after(1969, (u / 86_400_000 + 364) as nat);
    let ms = u % 86_400_000;
    lemma_timestamp_text_shape(y, m, d, ms / 3_600_000, (ms / 60_000) % 60, (ms / 1000) % 60, ms);
}

/// The pattern of the stored next-run text: UTC date and time with
/// milliseconds.
pub const UTC_MILLIS_PATTERN: &'static str = "%Y-%m-%dT%H:%M:%S%.3fZ";

/// `chrono::DateTime::from_timestamp_millis(t)` formatted with chrono's
/// `format(pattern)`. For the next-run pattern and an instant from a day
/// before the epoch to the end of the year 9999, chrono gives the date in
/// the proleptic Gregorian calendar (the year with four digits) and the UTC
/// time of day with three fractional digits; that text is what is stated.
#[verifier::external_body]
fn format_utc_millis(t: i64, pattern: &str) -> (r: Option<String>)
    requires
        pattern@ == UTC_MILLIS_PATTERN@,
        -86_400_000 <= t < 253_402_300_800_000,
    ensures
        r is Some,
        r.unwrap()@ == utc_millis_text_spec(t as int),
{
    match chrono::DateTime::<chrono::Utc>::from_timestamp_millis(t) {
        Some(dt) => Some(dt.format(pattern).to_string()),
        None => None,
    }
}

/// The instant `t` (milliseconds since the Unix epoch) as the UTC text
/// `YYYY-MM-DDTHH:MM:SS.mmmZ`, the storage format of next-run times. The
/// instant is at most a day before the epoch and before the year 10000, so
/// that the year has four digits.
pub fn utc_millis_text(t: i64) -> (s: String)
    requires
        -86_400_000 <= t < 253_402_300_800_000,
    ensures
        s@ == utc_millis_text_spec(t as int),
{
    match format_utc_millis(t, UTC_MILLIS_PATTERN) {
        Some(s) => s,
        None => String::new(),
    }
}

/// The next-run text of the occurrence that the schedule lookup found:
/// the occurrence's UTC text, or none when the expression did not parse,
/// the zone was unknown, or no occurrence is left.
pub fn next_run_text(outcome: NextOccurrence) -> (r: Option<String>)
    requires
        outcome matches NextOccurrence::At(t) ==> occurrence_in_range(t as int),
    ensures
        match outcome {
            NextOccurrence::At(t) => r matches Some(s) && s@ == utc_millis_text_spec(t as int),
            _ => r is None,
        },
{
    match outcome {
        NextOccurrence::At(t) => Some(utc_millis_text(t)),
        _ => None,
    }
}

/// The zone name a schedule is read in: the given name when it is a known
/// zone, `UTC` otherwise (no name, an unknown name, or the empty string).
/// The flag tells whether the given name was used.
pub fn resolve_timezone(timezone: Option<&str>) -> (r: (String, bool))
    ensures
        r.0@ == effective_zone(timezone),
        r.1 == (timezone matches Some(t) && timezone_known(t@)),
        timezone matches Some(t) && t@.len() == 0 ==> !r.1,
{
    match timezone {
        Some(t) => {
            if is_known_timezone(t) {
                (String::from_str(t), true)
            } else {
                (String::from_str("UTC"), false)
            }
        },
        None => (String::from_str("UTC"), false),
    }
}

/// The next run of a cron schedule as a UTC timestamp with milliseconds
/// (`2024-01-01T00:00:00.000Z`), evaluated in the given timezone (UTC when
/// it is missing or unknown); `None` when the expression does not parse or
/// the schedule has no further occurrence.
pub fn compute_next_run(cron_expr: &str, timezone: Option<&str>) -> (r: Option<String>)
    ensures
        !cron_expression_valid(cron_expr@) ==> r is None,
        r is Some ==> cron_expression_valid(cron_expr@),
        r matches Some(s) ==> exists|t: int|
            occurs_in_zone(cron_expr@, effective_zone(timezone), t) && occurrence_in_range(t)
                && s@ == #[trigger] utc_millis_text_spec(t),
        r matches Some(s) ==> utc_millis_timestamp_shape(s@),
        r is None ==> !cron_expression_valid(cron_expr@) || exists|now: int|
            !#[trigger] occurs_after(cron_expr@, effective_zone(timezone), now),
{
    let (zone, _named) = resolve_timezone(timezone);
    let outcome = next_occurrence_millis(cron_expr, zone.as_str());
    proof {
        if let NextOccurrence::At(t) = outcome {
            rendered_instants_have_the_timestamp_shape(t as int);
        }
    }
    next_run_text(outcome)
}

} // verus!
