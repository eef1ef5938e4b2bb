//! The client for the wide-field statement endpoints: the shared transport
//! handle, exchange stock listings, and the quarter / report-period value
//! types every statement record is keyed by.

use vstd::prelude::*;

use crate::digits::{i32_to_dec_string, signed_dec_str_of};
use crate::errors::RedCrabError;
use crate::transport::Transport;

pub mod balance_sheet;
pub mod cash_flow_statement;
pub mod income_statement;
pub mod model;
pub mod shared;

verus! {

/// A client of the upstream statement API.
pub struct Akshare {
    pub transport: Transport,
}

impl Akshare {
    /// A client against the default local base URL.
    pub fn new() -> (r: Result<Akshare, RedCrabError>)
        ensures
            r matches Ok(a) ==> a.transport.base_url@ == "http://127.0.0.1:8080/api/public/"@,
            r matches Err(e) ==> (e is InvalidHeaderError || e is ReqError),
    {
        let t = match Transport::new() {
            Ok(t) => t,
            Err(e) => {
                return Err(e);
            },
        };
        Ok(Akshare { transport: t })
    }

    /// A client against the given base URL.
    pub fn from(url: &str) -> (r: Result<Akshare, RedCrabError>)
        ensures
            r matches Ok(a) ==> a.transport.base_url@ == url@,
            r matches Err(e) ==> (e is InvalidHeaderError || e is ReqError),
    {
        let t = match Transport::from(url.to_owned()) {
            Ok(t) => t,
            Err(e) => {
                return Err(e);
            },
        };
        Ok(Akshare { transport: t })
    }
}

/// One listed company, as the exchange name-code endpoints report it.
#[derive(Clone, Debug)]
pub struct StockInfo {
    pub code: String,
    pub name: String,
    pub time: String,
}

/// An exchange-prefixed stock symbol, sent as the `symbol` query parameter.
#[derive(Clone, Debug)]
pub struct StockCode {
    symbol: String,
}

impl StockCode {
    /// The characters of the wrapped symbol.
    pub closed spec fn symbol_spec(&self) -> Seq<char> {
        self.symbol@
    }

    /// Wrap a symbol string.
    pub fn from(s: &str) -> (r: StockCode)
        ensures
            r.symbol_spec() == s@,
    {
        StockCode { symbol: s.to_owned() }
    }

    /// The single `symbol` key-value pair this code serializes to.
    pub fn to_query_pairs(&self) -> (r: Vec<(String, String)>)
        ensures
            r@.len() == 1,
            r@[0].0@ == "symbol"@,
            r@[0].1@ == self.symbol_spec(),
    {
        let mut pairs: Vec<(String, String)> = Vec::new();
        pairs.push(("symbol".to_owned(), self.symbol.clone()));
        pairs
    }
}

/// A fiscal quarter.
#[derive(Clone, Copy, Debug, PartialEq, Eq, Structural, Hash)]
pub enum Quarter {
    Q1,
    Q2,
    Q3,
    Q4,
}

/// The quarter a calendar month falls in: months 1-3 are Q1, 4-6 Q2,
/// 7-9 Q3, and everything else Q4.
pub open spec fn quarter_of_month(m: int) -> Quarter {
    if 1 <= m && m <= 3 {
        Quarter::Q1
    } else if 4 <= m && m <= 6 {
        Quarter::Q2
    } else if 7 <= m && m <= 9 {
        Quarter::Q3
    } else {
        Quarter::Q4
    }
}

/// The label of a quarter.
pub open spec fn quarter_label(q: Quarter) -> Seq<char> {
    match q {
        Quarter::Q1 => "Q1"@,
        Quarter::Q2 => "Q2"@,
        Quarter::Q3 => "Q3"@,
        Quarter::Q4 => "Q4"@,
    }
}

/// The position of a quarter within its year.
pub open spec fn quarter_index(q: Quarter) -> int {
    match q {
        Quarter::Q1 => 0,
        Quarter::Q2 => 1,
        Quarter::Q3 => 2,
        Quarter::Q4 => 3,
    }
}

impl Quarter {
    /// The quarter of a calendar month, bucketed by month range.
    pub fn from_month(m: u32) -> (q: Quarter)
        ensures
            q == quarter_of_month(m as int),
    {
        if 1 <= m && m <= 3 {
            Quarter::Q1
        } else if 4 <= m && m <= 6 {
            Quarter::Q2
        } else if 7 <= m && m <= 9 {
            Quarter::Q3
        } else {
            Quarter::Q4
        }
    }

    /// The label of the quarter, as it is displayed.
    pub fn to_string(&self) -> (r: String)
        ensures
            r@ == quarter_label(*self),
    {
        match self {
            Quarter::Q1 => "Q1".to_owned(),
            Quarter::Q2 => "Q2".to_owned(),
            Quarter::Q3 => "Q3".to_owned(),
            Quarter::Q4 => "Q4".to_owned(),
        }
    }
}

/// A reporting period: a year and the quarter within it. Records of the
/// symbol-scoped statement endpoints are keyed by this.
#[derive(Clone, Copy, Debug, PartialEq, Eq, Structural, Hash)]
pub struct ReportDate {
    pub year: i32,
    pub quarter: Quarter,
}

/// The month-day suffix of the calendar date a reporting period ends on.
pub open spec fn quarter_end_suffix(q: Quarter) -> Seq<char> {
    match q {
        Quarter::Q1 => "-03-31"@,
        Quarter::Q2 => "-06-30"@,
        Quarter::Q3 => "-09-30"@,
        Quarter::Q4 => "-12-31"@,
    }
}

impl ReportDate {
    /// The period of the given year and quarter.
    pub fn new(y: i32, q: Quarter) -> (r: ReportDate)
        ensures
            r.year == y,
            r.quarter == q,
    {
        ReportDate { year: y, quarter: q }
    }

    /// The period a calendar date falls in: its year, and the quarter its
    /// month is bucketed into.
    pub fn from_parts(year: i32, month: u32) -> (r: ReportDate)
        ensures
            r.year == year,
            r.quarter == quarter_of_month(month as int),
    {
        ReportDate { year, quarter: Quarter::from_month(month) }
    }

    /// The lookup key of the period: distinct periods have distinct keys.
    pub open spec fn key_spec(self) -> i64 {
        (self.year * 4 + quarter_index(self.quarter)) as i64
    }

    /// The lookup key, computed.
    pub fn key(&self) -> (k: i64)
        ensures
            k == self.key_spec(),
    {
        let idx: i64 = match self.quarter {
            Quarter::Q1 => 0,
            Quarter::Q2 => 1,
            Quarter::Q3 => 2,
            Quarter::Q4 => 3,
        };
        (self.year as i64) * 4 + idx
    }

    /// The date the period ends on, rendered for display:
    /// the year, then the closing month and day of the quarter.
    pub fn to_string(&self) -> (r: String)
        ensures
            r@ == signed_dec_str_of(self.year as int) + quarter_end_suffix(self.quarter),
    {
        let year_str = i32_to_dec_string(self.year);
        match self.quarter {
            Quarter::Q1 => year_str.concat("-03-31"),
            Quarter::Q2 => year_str.concat("-06-30"),
            Quarter::Q3 => year_str.concat("-09-30"),
            Quarter::Q4 => year_str.concat("-12-31"),
        }
    }
}

/// The period key determines the period: re-keying statement records by it
/// loses no report date.
pub proof fn lemma_report_date_key_injective(a: ReportDate, b: ReportDate)
    ensures
        a.key_spec() == b.key_spec() ==> a == b,
{
}

} // verus!
