//! The date-scoped request object: a reporting period rendered as the
//! `YYYYMMDD` date string the upstream expects.

use vstd::prelude::*;

use super::Quarter;

verus! {

/// The `date` query parameter of the date-scoped endpoints.
#[derive(Clone, Debug)]
pub struct DateReq {
    pub date: String,
}

/// The month-day digits that close each quarter.
pub open spec fn quarter_date_digits(q: Quarter) -> Seq<char> {
    match q {
        Quarter::Q1 => "0331"@,
        Quarter::Q2 => "0630"@,
        Quarter::Q3 => "0930"@,
        Quarter::Q4 => "1231"@,
    }
}

impl DateReq {
    /// The request for the period of the given year and quarter: the year
    /// digits followed by the closing month and day of the quarter.
    pub fn from_str(year: &str, q: &Quarter) -> (r: DateReq)
        ensures
            r.date@ == year@ + quarter_date_digits(*q),
    {
        match q {
            Quarter::Q1 => Self::from_q1(year),
            Quarter::Q2 => Self::from_q2(year),
            Quarter::Q3 => Self::from_q3(year),
            Quarter::Q4 => Self::from_q4(year),
        }
    }

    /// The request for the first quarter of the given year.
    pub fn from_q1(year: &str) -> (r: DateReq)
        ensures
            r.date@ == year@ + "0331"@,
    {
        DateReq { date: year.to_owned().concat("0331") }
    }

    /// The request for the second quarter of the given year.
    pub fn from_q2(year: &str) -> (r: DateReq)
        ensures
            r.date@ == year@ + "0630"@,
    {
        DateReq { date: year.to_owned().concat("0630") }
    }

    /// The request for the third quarter of the given year.
    pub fn from_q3(year: &str) -> (r: DateReq)
        ensures
            r.date@ == year@ + "0930"@,
    {
        DateReq { date: year.to_owned().concat("0930") }
    }

    /// The request for the fourth quarter of the given year.
    pub fn from_q4(year: &str) -> (r: DateReq)
        ensures
            r.date@ == year@ + "1231"@,
    {
        DateReq { date: year.to_owned().concat("1231") }
    }

    /// Wrap a ready-made date string.
    pub fn from(s: &str) -> (r: DateReq)
        ensures
            r.date@ == s@,
    {
        DateReq { date: s.to_owned() }
    }

    /// The single `date` key-value pair this request serializes to.
    pub fn to_query_pairs(&self) -> (r: Vec<(String, String)>)
        ensures
            r@.len() == 1,
            r@[0].0@ == "date"@,
            r@[0].1@ == self.date@,
    {
        let mut pairs: Vec<(String, String)> = Vec::new();
        pairs.push(("date".to_owned(), self.date.clone()));
        pairs
    }
}

} // verus!
