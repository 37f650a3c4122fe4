//! Retention of the daily diagnostic log files.  A log file is named
//! `spider_YYYY-MM-DD.log`; one older than `LOG_KEEP_DAYS` days is due for
//! deletion.  Walking the directory and deleting files is the caller's
//! business; the naming rule and the age decision live here.

use vstd::prelude::*;
use vstd::string::StrSliceExecFns;

use crate::text::chars_eq;

use chrono::Datelike;

verus! {

/// Log files older than this many days are due for deletion.
pub const LOG_KEEP_DAYS: i64 = 7;

/// The day number that a `YYYY-MM-DD` string names, if it parses as a date;
/// a function of the characters alone.
pub uninterp spec fn date_days_of(s: Seq<char>) -> Option<i64>;

/// Relies on chrono's `NaiveDate::parse_from_str` with the `%Y-%m-%d` format
/// (a fixed format, independent of any locale), and on `num_days_from_ce`
/// for the day count.
#[verifier::external_body]
fn parse_date_days(s: &str) -> (r: Option<i64>)
    ensures
        r == date_days_of(s@),
{
    match chrono::NaiveDate::parse_from_str(s, "%Y-%m-%d") {
        Ok(d) => Some(d.num_days_from_ce() as i64),
        Err(_) => None,
    }
}

/// The day a log file's name carries: names shaped `spider_<date>.log`
/// give the day number of `<date>`, every other name gives nothing.
pub open spec fn log_name_date(name: Seq<char>) -> Option<i64> {
    if name.len() >= 11 && name.subrange(0, 7) == "spider_"@ && name.subrange(
        name.len() - 4,
        name.len() as int,
    ) == ".log"@ {
        date_days_of(name.subrange(7, name.len() - 4))
    } else {
        None
    }
}

/// Whether `name` is a log file due for deletion when today is day number
/// `today_days`.
pub open spec fn log_expired(name: Seq<char>, today_days: i64) -> bool {
    match log_name_date(name) {
        Some(d) => today_days - d >= LOG_KEEP_DAYS,
        None => false,
    }
}

/// Reads the day number out of a log file's name, if it is shaped
/// `spider_<date>.log` with a well-formed date.
pub fn log_date_days(name: &str) -> (r: Option<i64>)
    ensures
        r == log_name_date(name@),
{
    let len = name.unicode_len();
    if len < 11 {
        return None;
    }
    let prefix = name.substring_char(0, 7);
    if !chars_eq(prefix, "spider_") {
        return None;
    }
    let suffix = name.substring_char(len - 4, len);
    if !chars_eq(suffix, ".log") {
        return None;
    }
    let middle = name.substring_char(7, len - 4);
    parse_date_days(middle)
}

/// Decides whether one log file is old enough to delete.
pub fn log_file_expired(name: &str, today_days: i64) -> (r: bool)
    ensures
        r == log_expired(name@, today_days),
{
    match log_date_days(name) {
        None => false,
        Some(d) => (today_days as i128) - (d as i128) >= LOG_KEEP_DAYS as i128,
    }
}

} // verus!
