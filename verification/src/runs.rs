//! Names of the weekly files that count application launches.
//!
//! Launches are counted per week, in a file named after the calendar year
//! and the ISO week number of the week (`2025_07.json`); ranking reads the
//! files of the last weeks.
use vstd::prelude::*;
use chrono::Datelike;
use crate::text::{owned, push_char};
use crate::transfer::{decimal, push_decimal};

verus! {

/// The calendar year and the ISO week number (1 to 53) of the UTC time
/// `timestamp` (seconds since the Unix epoch), or `None` when chrono cannot
/// represent that time.
pub uninterp spec fn year_and_iso_week(timestamp: i64) -> Option<(i32, u32)>;

/// Trusted: `chrono::DateTime::from_timestamp(timestamp, 0)`, and of the
/// date it gives, `Datelike::year` and `Datelike::iso_week().week()`.
/// chrono documents that it returns `None` only for an out-of-range
/// timestamp (when that happens is not stated here), and that the ISO week
/// number ranges from 1 to 53.
#[verifier::external_body]
fn utc_year_and_week(timestamp: i64) -> (r: Option<(i32, u32)>)
    ensures
        r == year_and_iso_week(timestamp),
        r matches Some(p) ==> 1 <= p.1 <= 53,
{
    match chrono::DateTime::from_timestamp(timestamp, 0) {
        Some(d) => Some((d.year(), d.iso_week().week())),
        None => None,
    }
}

/// Seconds in a week.
pub const WEEK_SECONDS: i64 = 604800;

/// The decimal text of a year, with a minus sign before the year zero.
pub open spec fn year_text(year: i32) -> Seq<char> {
    if year < 0 {
        seq!['-'] + decimal((-(year as int)) as nat)
    } else {
        decimal(year as nat)
    }
}

/// `week` with at least two digits.
pub open spec fn two_digits(week: u32) -> Seq<char> {
    if week < 10 {
        seq!['0'] + decimal(week as nat)
    } else {
        decimal(week as nat)
    }
}

/// The file name of a week: year, underscore, two-digit week, `.json`.
pub open spec fn week_file(year: i32, week: u32) -> Seq<char> {
    year_text(year) + seq!['_'] + two_digits(week) + ".json"@
}

/// The file name of the week of `year` numbered `week`.
pub fn week_file_name(year: i32, week: u32) -> (r: String)
    ensures
        r@ == week_file(year, week),
{
    let mut s = String::new();
    if year < 0 {
        push_char(&mut s, '-');
        let magnitude: u64 = if year == i32::MIN {
            2147483648
        } else {
            (-year) as u64
        };
        push_decimal(&mut s, magnitude);
    } else {
        push_decimal(&mut s, year as u64);
    }
    push_char(&mut s, '_');
    if week < 10 {
        push_char(&mut s, '0');
    }
    push_decimal(&mut s, week as u64);
    s.append(".json");
    proof {
        reveal_strlit(".json");
        assert(s@ =~= week_file(year, week));
    }
    s
}

/// The time `weeks_back` weeks before `now`.
pub open spec fn weeks_before(now: i64, weeks_back: u8) -> int {
    now - weeks_back * WEEK_SECONDS
}

/// The file of the week `weeks_back` weeks before `now`, or `None` when that
/// time has no date.
pub open spec fn file_of_week(now: i64, weeks_back: u8) -> Option<Seq<char>> {
    match year_and_iso_week(weeks_before(now, weeks_back) as i64) {
        Some(p) => Some(week_file(p.0, p.1)),
        None => None,
    }
}

/// The file name of the week `weeks_back` weeks before `now`.
pub fn get_name_from_timestamp(now: i64, weeks_back: u8) -> (r: Option<String>)
    requires
        weeks_before(now, weeks_back) >= i64::MIN,
    ensures
        r matches Some(n) ==> file_of_week(now, weeks_back) == Some(n@),
        r is None ==> file_of_week(now, weeks_back) is None,
{
    let back: i64 = (weeks_back as i64) * WEEK_SECONDS;
    match utc_year_and_week(now - back) {
        Some((year, week)) => Some(week_file_name(year, week)),
        None => None,
    }
}

/// The file names of the current week and the `weeks - 1` weeks before it,
/// newest first; `None` when one of those times has no date.
pub fn get_all_weeks(now: i64, weeks: u8) -> (r: Option<Vec<String>>)
    requires
        weeks == 0 || now - (weeks - 1) * WEEK_SECONDS >= i64::MIN,
    ensures
        r matches Some(v) ==> v.len() == weeks && forall|i: int|
            0 <= i < weeks ==> file_of_week(now, i as u8) == Some(#[trigger] v[i]@),
        r is None ==> exists|i: int| 0 <= i < weeks && #[trigger] file_of_week(now, i as u8) is None,
{
    let mut names: Vec<String> = Vec::new();
    let mut w: u8 = 0;
    while w < weeks
        invariant
            w <= weeks,
            names.len() == w,
            weeks == 0 || now - (weeks - 1) * WEEK_SECONDS >= i64::MIN,
            forall|i: int| 0 <= i < w ==> file_of_week(now, i as u8) == Some(#[trigger] names[i]@),
        decreases weeks - w,
    {
        assert(w * WEEK_SECONDS <= (weeks - 1) * WEEK_SECONDS) by (nonlinear_arith)
            requires
                w < weeks,
        ;
        match get_name_from_timestamp(now, w) {
            Some(n) => names.push(n),
            None => {
                assert(file_of_week(now, w as int as u8) is None);
                return None;
            },
        }
        w += 1;
    }
    Some(names)
}

/// The file that counts this week's launches.
pub fn get_current_week(now: i64) -> (r: Option<String>)
    ensures
        r matches Some(n) ==> file_of_week(now, 0) == Some(n@),
        r is None ==> file_of_week(now, 0) is None,
{
    get_name_from_timestamp(now, 0)
}

} // verus!
