//! Shared decoding helpers of the wide-field endpoints: turning the
//! upstream's report-date strings into reporting periods.

use vstd::prelude::*;

use super::{quarter_of_month, ReportDate};
use crate::errors::RedCrabError;

verus! {

/// What `chrono::NaiveDateTime::parse_from_str` makes of a string under a
/// format: `Some` of the year and month of the date it names, `None` when
/// the string does not match the format.
pub uninterp spec fn datetime_parse_of(s: Seq<char>, fmt: Seq<char>) -> Option<(int, int)>;

/// Relies on `chrono::NaiveDateTime::parse_from_str`: whether a string
/// matches a format, and which date it names, depend on the two strings
/// alone; a parsed month is between 1 and 12.
#[verifier::external_body]
fn parse_year_month(s: &str, fmt: &str) -> (r: Option<(i32, u32)>)
    ensures
        match r {
            Some(ym) => datetime_parse_of(s@, fmt@) == Some((ym.0 as int, ym.1 as int)) && 1
                <= ym.1 <= 12,
            None => datetime_parse_of(s@, fmt@) is None,
        },
{
    match chrono::NaiveDateTime::parse_from_str(s, fmt) {
        Ok(t) => {
            let date = t.date();
            Some((chrono::Datelike::year(&date), chrono::Datelike::month(&date)))
        },
        Err(_) => None,
    }
}

/// The reporting period a report-date string names: the upstream renders it
/// as a date-time, so that format is tried first, then the bare date
/// format, and the period is the year with the month's quarter bucket. A
/// string matching neither format is not parsable.
pub fn parse_report_date(s: &str) -> (r: Result<ReportDate, RedCrabError>)
    ensures
        ({
            let first = datetime_parse_of(s@, "%Y-%m-%d %H:%M:%S"@);
            let second = datetime_parse_of(s@, "%Y-%m-%d"@);
            match first {
                Some(ym) => r matches Ok(d) && d.year as int == ym.0 && d.quarter
                    == quarter_of_month(ym.1),
                None => match second {
                    Some(ym) => r matches Ok(d) && d.year as int == ym.0 && d.quarter
                        == quarter_of_month(ym.1),
                    None => r matches Err(e) && e matches RedCrabError::NotParsableResponse(m)
                        && m@ == s@,
                },
            }
        }),
{
    match parse_year_month(s, "%Y-%m-%d %H:%M:%S") {
        Some(ym) => Ok(ReportDate::from_parts(ym.0, ym.1)),
        None => match parse_year_month(s, "%Y-%m-%d") {
            Some(ym) => Ok(ReportDate::from_parts(ym.0, ym.1)),
            None => Err(RedCrabError::NotParsableResponse(s.to_owned())),
        },
    }
}

} // verus!
