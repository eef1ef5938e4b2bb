//! Income-statement records of the symbol-scoped wide endpoint, and their
//! re-keying by the report-date string they carry.

use vstd::prelude::*;

use crate::tables::{str_keyed_last_wins, StrMap};

verus! {

/// One income-statement record of a company for one reporting period.
///
/// This endpoint reports the period as a plain date-time string, and the
/// fetcher keys by it verbatim. Amounts are in ten-thousandths; a field
/// absent upstream is `None`. The remaining upstream columns are pure schema
/// and stay with the decoding boundary.
#[derive(Debug)]
pub struct IncomeStatementData {
    /// The exchange-suffixed stock code.
    pub secucode: String,
    /// The bare stock code.
    pub security_code: String,
    /// The company's short name.
    pub security_name_abbr: String,
    /// The reporting date, as the upstream renders it.
    pub report_date: String,
    /// Total operating income, in ten-thousandths.
    pub total_operate_income: Option<i64>,
    /// Year-over-year growth of total operating income, in ten-thousandths
    /// of a percent.
    pub total_operate_income_yoy: Option<i64>,
}

/// The report-date key of an income-statement record.
pub open spec fn report_date_str_of(r: IncomeStatementData) -> Seq<char> {
    r.report_date@
}

/// Re-key a list of income-statement records by their report-date string,
/// as the income-statement fetcher does after decoding; with a duplicate
/// date the last record wins silently.
pub fn income_statement_map(records: Vec<IncomeStatementData>) -> (m: StrMap<IncomeStatementData>)
    ensures
        m.wf(),
        m@ == str_keyed_last_wins(records@, |r: IncomeStatementData| report_date_str_of(r)),
{
    let ghost all = records@;
    let ghost keyfn = |r: IncomeStatementData| report_date_str_of(r);
    let mut rest = records;
    let mut m: StrMap<IncomeStatementData> = StrMap::new();
    proof {
        assert(all.take(0) =~= Seq::<IncomeStatementData>::empty());
    }
    while rest.len() > 0
        invariant
            keyfn == (|r: IncomeStatementData| report_date_str_of(r)),
            m.wf(),
            rest@.len() <= all.len(),
            rest@ == all.skip(all.len() - rest@.len()),
            m@ == str_keyed_last_wins(all.take(all.len() - rest@.len()), keyfn),
        decreases rest@.len(),
    {
        let ghost done = all.len() - rest@.len();
        let row = rest.remove(0);
        let key = row.report_date.clone();
        proof {
            assert(row == all[done]);
            assert(rest@ =~= all.skip(done + 1));
        }
        m.insert(key, row);
        proof {
            assert(all.take(done + 1).drop_last() =~= all.take(done));
            assert(all.take(done + 1).last() == all[done]);
            assert(keyfn(row) == report_date_str_of(row));
            assert(m@ == str_keyed_last_wins(all.take(done + 1), keyfn));
        }
    }
    proof {
        assert(all.take(all.len() as int) =~= all);
    }
    m
}

} // verus!
