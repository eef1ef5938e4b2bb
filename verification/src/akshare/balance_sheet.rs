//! Balance-sheet records of the symbol-scoped wide endpoint, and their
//! re-keying by reporting period.

use vstd::prelude::*;

use std::collections::HashMap;

use super::ReportDate;
use crate::tables::keyed_last_wins;

verus! {

/// One balance-sheet record of a company for one reporting period.
///
/// Monetary amounts and year-over-year percentages are carried in
/// ten-thousandths, so that the scoring arithmetic is exact; a field absent
/// upstream is `None`. The remaining upstream columns are pure schema and
/// stay with the decoding boundary.
#[derive(Debug)]
pub struct BalanceSheetData {
    /// The exchange-suffixed stock code.
    pub secucode: String,
    /// The bare stock code.
    pub security_code: String,
    /// The company's short name.
    pub security_name_abbr: String,
    /// The reporting period the record belongs to.
    pub report_date: ReportDate,
    /// Total assets, in ten-thousandths.
    pub total_assets: Option<i64>,
    /// Year-over-year growth of total assets, in ten-thousandths of a
    /// percent.
    pub total_assets_yoy: Option<i64>,
}

/// The period key of a balance-sheet record.
pub open spec fn report_date_key_of(r: BalanceSheetData) -> i64 {
    r.report_date.key_spec()
}

/// Re-key a list of balance-sheet records by reporting period, as the
/// balance-sheet fetcher does after decoding: every record is inserted in
/// order, so with a duplicate period the last record wins silently.
pub fn balance_sheet_map(records: Vec<BalanceSheetData>) -> (m: HashMap<i64, BalanceSheetData>)
    ensures
        m@ == keyed_last_wins(records@, |r: BalanceSheetData| report_date_key_of(r)),
{
    broadcast use vstd::std_specs::hash::group_hash_axioms;

    let ghost all = records@;
    let ghost keyfn = |r: BalanceSheetData| report_date_key_of(r);
    let mut rest = records;
    let mut m: HashMap<i64, BalanceSheetData> = HashMap::new();
    proof {
        assert(all.take(0) =~= Seq::<BalanceSheetData>::empty());
    }
    while rest.len() > 0
        invariant
            keyfn == (|r: BalanceSheetData| report_date_key_of(r)),
            rest@.len() <= all.len(),
            rest@ == all.skip(all.len() - rest@.len()),
            m@ == keyed_last_wins(all.take(all.len() - rest@.len()), keyfn),
        decreases rest@.len(),
    {
        let ghost done = all.len() - rest@.len();
        let row = rest.remove(0);
        let key = row.report_date.key();
        proof {
            assert(row == all[done]);
            assert(rest@ =~= all.skip(done + 1));
        }
        m.insert(key, row);
        proof {
            assert(all.take(done + 1).drop_last() =~= all.take(done));
            assert(all.take(done + 1).last() == all[done]);
            assert(keyfn(row) == report_date_key_of(row));
            assert(m@ == keyed_last_wins(all.take(done + 1), keyfn));
        }
    }
    proof {
        assert(all.take(all.len() as int) =~= all);
    }
    m
}

} // verus!
