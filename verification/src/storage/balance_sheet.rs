//! Balance-sheet records of the date-scoped narrow endpoint.

use vstd::prelude::*;

verus! {

/// One company's balance-sheet summary for a reporting date.
///
/// Monetary amounts and percentages are carried in ten-thousandths; a field
/// absent upstream is `None`.
#[derive(Debug)]
pub struct Data {
    /// The stock code.
    pub symbol: String,
    /// The company's short name.
    pub name: String,
    /// Assets: cash holdings.
    pub zc_hbzj: Option<i64>,
    /// Assets: accounts receivable.
    pub zc_yszk: Option<i64>,
    /// Assets: inventory.
    pub zc_ch: Option<i64>,
    /// Assets: total assets.
    pub zc_zzc: Option<i64>,
    /// Assets: total assets, year over year.
    pub zc_zzctb: Option<i64>,
    /// Liabilities: accounts payable.
    pub fz_yfzk: Option<i64>,
    /// Liabilities: total liabilities.
    pub fz_zfz: Option<i64>,
    /// Liabilities: advances received.
    pub fz_yszk: Option<i64>,
    /// Liabilities: total liabilities, year over year.
    pub fz_zfztb: Option<i64>,
    /// Debt-to-asset ratio.
    pub zcfzl: Option<i64>,
    /// Total shareholders' equity.
    pub gdqyhj: Option<i64>,
}

} // verus!
