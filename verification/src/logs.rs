//! Retention of the daily log files `nmts-YYYY-MM-DD.log`.
use vstd::prelude::*;
use vstd::string::*;

use crate::text::{chars_of, matches_at, starts_with, str_starts_with, string_of};

verus! {

broadcast use vstd::seq_lib::group_seq_properties;

/// Whether `s` ends with `p`.
pub open spec fn ends_with(s: Seq<char>, p: Seq<char>) -> bool {
    p.len() <= s.len() && s.skip(s.len() - p.len()) == p
}

/// The date written in a daily log's name: what lies between `nmts-` and
/// `.log`; none for other names.
pub open spec fn log_date_text(name: Seq<char>) -> Option<Seq<char>> {
    if starts_with(name, "nmts-"@) && ends_with(name, ".log"@) && name.len() >= 9 {
        Some(name.subrange(5, name.len() - 4))
    } else {
        None
    }
}

/// The date part of a daily log's name.
pub fn log_date_part(name: &str) -> (r: Option<String>)
    ensures
        match r {
            Some(d) => log_date_text(name@) == Some(d@),
            None => log_date_text(name@) is None,
        },
{
    let prefix = "nmts-";
    let suffix = ".log";
    proof {
        reveal_strlit("nmts-");
        reveal_strlit(".log");
    }
    if !str_starts_with(name, prefix) {
        return None;
    }
    let h = chars_of(name);
    let n = chars_of(suffix);
    if h.len() < 9 {
        return None;
    }
    let at = h.len() - 4;
    if !matches_at(&h, &n, at) {
        proof {
            assert(h@.subrange(at as int, at + 4) =~= h@.skip(h@.len() - 4));
        }
        return None;
    }
    proof {
        assert(h@.subrange(at as int, at + 4) =~= h@.skip(h@.len() - 4));
    }
    let mut d: Vec<char> = Vec::new();
    let mut i: usize = 5;
    while i < at
        invariant
            5 <= i <= at,
            at == h@.len() - 4,
            d@ == h@.subrange(5, i as int),
        decreases at - i,
    {
        d.push(h[i]);
        assert(h@.subrange(5, i + 1) =~= h@.subrange(5, i as int).push(h@[i as int]));
        i = i + 1;
    }
    Some(string_of(&d))
}

/// The day number that chrono's `NaiveDate::parse_from_str(s, fmt)` followed
/// by `Datelike::num_days_from_ce` gives: days counted from 0001-01-01 (day
/// 1); none when `s` does not parse as `fmt` describes.
pub uninterp spec fn date_day_number(s: Seq<char>, fmt: Seq<char>) -> Option<int>;

/// chrono's `NaiveDate::parse_from_str`, the date then taken by its day
/// number (`Datelike::num_days_from_ce`). The contract only names the result.
#[verifier::external_body]
fn parse_day_number(s: &str, fmt: &str) -> (r: Option<i32>)
    ensures
        date_day_number(s@, fmt@) == match r {
            Some(n) => Some(n as int),
            None => None::<int>,
        },
{
    chrono::NaiveDate::parse_from_str(s, fmt).ok().map(|d| chrono::Datelike::num_days_from_ce(&d))
}

/// The format of the date in a daily log's name.
pub const LOG_DATE_FORMAT: &'static str = "%Y-%m-%d";

/// Whether a file is a daily log older than `keep_days` on day `today`
/// (a day number as `date_day_number` counts them): its name carries a
/// date that parses and lies more than `keep_days` days back.
pub open spec fn log_expired_spec(name: Seq<char>, today: int, keep_days: nat) -> bool {
    match log_date_text(name) {
        Some(d) => match date_day_number(d, LOG_DATE_FORMAT@) {
            Some(n) => today - n > keep_days,
            None => false,
        },
        None => false,
    }
}

/// Whether the file named `name` is a daily log to remove.
pub fn log_expired(name: &str, today: i32, keep_days: u32) -> (r: bool)
    ensures
        r == log_expired_spec(name@, today as int, keep_days as nat),
{
    match log_date_part(name) {
        Some(d) => match parse_day_number(d.as_str(), LOG_DATE_FORMAT) {
            Some(n) => (today as i64) - (n as i64) > keep_days as i64,
            None => false,
        },
        None => false,
    }
}

} // verus!
