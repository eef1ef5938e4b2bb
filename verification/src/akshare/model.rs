//! Request models of the wide-field endpoints.

use vstd::prelude::*;

pub mod date_request;

verus! {

/// A fiscal quarter, as the request models name it.
#[derive(Clone, Copy, Debug, PartialEq, Eq, Structural, Hash)]
pub enum Quarter {
    Q1,
    Q2,
    Q3,
    Q4,
}

/// The label of a quarter of the request models.
pub open spec fn quarter_label(q: Quarter) -> Seq<char> {
    match q {
        Quarter::Q1 => "Q1"@,
        Quarter::Q2 => "Q2"@,
        Quarter::Q3 => "Q3"@,
        Quarter::Q4 => "Q4"@,
    }
}

impl Quarter {
    /// The label of the quarter, as it is displayed.
    pub fn to_string(&self) -> (r: String)
        ensures
            r@ == quarter_label(*self),
    {
        match self {
            Quarter::Q1 => "Q1".to_owned(),
            Quarter::Q2 => "Q2".to_owned(),
            Quarter::Q3 => "Q3".to_owned(),
            Quarter::Q4 => "Q4".to_owned(),
        }
    }
}

} // verus!
