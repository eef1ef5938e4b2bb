//! The date-scoped request object of the narrow-field endpoints.

use vstd::prelude::*;

verus! {

/// The `date` query parameter of the date-scoped endpoints.
#[derive(Clone, Debug)]
pub struct DateReq {
    pub date: String,
}

impl DateReq {
    /// Wrap a ready-made date string.
    pub fn from(s: &str) -> (r: DateReq)
        ensures
            r.date@ == s@,
    {
        DateReq { date: s.to_owned() }
    }

    /// The single `date` key-value pair this request serializes to.
    pub fn to_query_pairs(&self) -> (r: Vec<(String, String)>)
        ensures
            r@.len() == 1,
            r@[0].0@ == "date"@,
            r@[0].1@ == self.date@,
    {
        let mut pairs: Vec<(String, String)> = Vec::new();
        pairs.push(("date".to_owned(), self.date.clone()));
        pairs
    }
}

} // verus!
