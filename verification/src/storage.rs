//! The narrow-field statement client: request models, records of the
//! date-scoped endpoints, and the indicator symbol they are looked up by.

use vstd::prelude::*;

pub mod akshare_storage;
pub mod balance_sheet;
pub mod cash_flow_statement;
pub mod model;

verus! {

/// What `str::to_uppercase` returns: the result depends on the characters
/// alone.
pub uninterp spec fn upper_of(s: Seq<char>) -> Seq<char>;

/// Relies on `str::to_uppercase`: the uppercase rendering of the string.
#[verifier::external_body]
fn to_uppercase_string(s: &str) -> (r: String)
    ensures
        r@ == upper_of(s@),
{
    s.to_uppercase()
}

/// A fiscal quarter, as the narrow-field client names it.
#[derive(Clone, Copy, Debug, PartialEq, Eq, Structural, Hash)]
pub enum Quarter {
    Q1,
    Q2,
    Q3,
    Q4,
}

/// The label of a quarter of the narrow-field client.
pub open spec fn quarter_label(q: Quarter) -> Seq<char> {
    match q {
        Quarter::Q1 => "Q1"@,
        Quarter::Q2 => "Q2"@,
        Quarter::Q3 => "Q3"@,
        Quarter::Q4 => "Q4"@,
    }
}

impl Quarter {
    /// The label of the quarter, as it is displayed.
    pub fn to_string(&self) -> (r: String)
        ensures
            r@ == quarter_label(*self),
    {
        match self {
            Quarter::Q1 => "Q1".to_owned(),
            Quarter::Q2 => "Q2".to_owned(),
            Quarter::Q3 => "Q3".to_owned(),
            Quarter::Q4 => "Q4".to_owned(),
        }
    }
}

/// A symbol-and-quarter lookup key for indicator values.
#[derive(Clone, Debug, Hash)]
pub struct IndicatorSymbol(pub String, pub Quarter);

impl IndicatorSymbol {
    /// The key rendered for lookup: the symbol, the quarter label in square
    /// brackets, all uppercased.
    pub fn to_string(&self) -> (r: String)
        ensures
            r@ == upper_of(self.0@ + "["@ + quarter_label(self.1) + "]"@),
    {
        let rendered = self.0.clone().concat("[").concat(self.1.to_string().as_str()).concat(
            "]",
        );
        to_uppercase_string(rendered.as_str())
    }
}

} // verus!
