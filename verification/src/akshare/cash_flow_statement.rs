//! Cash-flow records of the symbol-scoped wide endpoint, and their
//! re-keying by the report-date string they carry.

use vstd::prelude::*;

use crate::tables::{str_keyed_last_wins, StrMap};

verus! {

/// One cash-flow record of a company for one reporting period.
///
/// This endpoint reports the period as a plain date-time string, and the
/// fetcher keys by it verbatim. Amounts are in ten-thousandths; a field
/// absent upstream is `None`. The remaining upstream columns are pure schema
/// and stay with the decoding boundary.
#[derive(Debug)]
pub struct CashFlowStatementData {
    /// The exchange-suffixed stock code.
    pub secucode: String,
    /// The bare stock code.
    pub security_code: String,
    /// The company's short name.
    pub security_name_abbr: String,
    /// The reporting date, as the upstream renders it.
    pub report_date: String,
    /// Net cash flow from operations, in ten-thousandths.
    pub netcash_operate: Option<i64>,
    /// Year-over-year growth of operating net cash flow, in ten-thousandths
    /// of a percent.
    pub netcash_operate_yoy: Option<i64>,
}

/// The report-date key of a cash-flow record.
pub open spec fn report_date_str_of(r: CashFlowStatementData) -> Seq<char> {
    r.report_date@
}

/// Re-key a list of cash-flow records by their report-date string, as the
/// cash-flow fetcher does after decoding; with a duplicate date the last
/// record wins silently.
pub fn cash_flow_statement_map(records: Vec<CashFlowStatementData>) -> (m: StrMap<
    CashFlowStatementData,
>)
    ensures
        m.wf(),
        m@ == str_keyed_last_wins(records@, |r: CashFlowStatementData| report_date_str_of(r)),
{
    let ghost all = records@;
    let ghost keyfn = |r: CashFlowStatementData| report_date_str_of(r);
    let mut rest = records;
    let mut m: StrMap<CashFlowStatementData> = StrMap::new();
    proof {
        assert(all.take(0) =~= Seq::<CashFlowStatementData>::empty());
    }
    while rest.len() > 0
        invariant
            keyfn == (|r: CashFlowStatementData| report_date_str_of(r)),
            m.wf(),
            rest@.len() <= all.len(),
            rest@ == all.skip(all.len() - rest@.len()),
            m@ == str_keyed_last_wins(all.take(all.len() - rest@.len()), keyfn),
        decreases rest@.len(),
    {
        let ghost done = all.len() - rest@.len();
        let row = rest.remove(0);
        let key = row.report_date.clone();
        proof {
            assert(row == all[done]);
            assert(rest@ =~= all.skip(done + 1));
        }
        m.insert(key, row);
        proof {
            assert(all.take(done + 1).drop_last() =~= all.take(done));
            assert(all.take(done + 1).last() == all[done]);
            assert(keyfn(row) == report_date_str_of(row));
            assert(m@ == str_keyed_last_wins(all.take(done + 1), keyfn));
        }
    }
    proof {
        assert(all.take(all.len() as int) =~= all);
    }
    m
}

} // verus!
