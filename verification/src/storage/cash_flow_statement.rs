//! Cash-flow records of the date-scoped narrow endpoint, and their
//! re-keying by company symbol.

use vstd::prelude::*;

use crate::tables::{str_keyed_last_wins, StrMap};

verus! {

/// One company's cash-flow summary for a reporting date.
///
/// Monetary amounts and percentages are carried in ten-thousandths; a field
/// absent upstream is `None`.
#[derive(Debug)]
pub struct CashFlowStatementData {
    /// The stock code.
    pub symbol: String,
    /// The company's short name.
    pub name: String,
    /// Net cash flow.
    pub jxjl_jxjl: Option<i64>,
    /// Net cash flow, year over year.
    pub jxjl_tbzz: Option<i64>,
    /// Operating cash flow: net amount.
    pub jyxxjl_xjllje: Option<i64>,
    /// Operating cash flow: share of net cash flow.
    pub jyxxjl_jxjlzb: Option<i64>,
    /// Investing cash flow: net amount.
    pub tzxxjl_xjllje: Option<i64>,
    /// Investing cash flow: share of net cash flow.
    pub tzxxjl_jxjlzb: Option<i64>,
    /// Financing cash flow: net amount.
    pub rzxxjl_xjllje: Option<i64>,
    /// Financing cash flow: share of net cash flow.
    pub rzxxjl_jxjlzb: Option<i64>,
}

/// The symbol key of a cash-flow record.
pub open spec fn symbol_of(r: CashFlowStatementData) -> Seq<char> {
    r.symbol@
}

/// Re-key a list of cash-flow records by company symbol, as the cash-flow
/// fetcher does after decoding; with a duplicate symbol the last record
/// wins silently.
pub fn cash_flow_by_symbol(records: Vec<CashFlowStatementData>) -> (m: StrMap<
    CashFlowStatementData,
>)
    ensures
        m.wf(),
        m@ == str_keyed_last_wins(records@, |r: CashFlowStatementData| symbol_of(r)),
{
    let ghost all = records@;
    let ghost keyfn = |r: CashFlowStatementData| symbol_of(r);
    let mut rest = records;
    let mut m: StrMap<CashFlowStatementData> = StrMap::new();
    proof {
        assert(all.take(0) =~= Seq::<CashFlowStatementData>::empty());
    }
    while rest.len() > 0
        invariant
            keyfn == (|r: CashFlowStatementData| symbol_of(r)),
            m.wf(),
            rest@.len() <= all.len(),
            rest@ == all.skip(all.len() - rest@.len()),
            m@ == str_keyed_last_wins(all.take(all.len() - rest@.len()), keyfn),
        decreases rest@.len(),
    {
        let ghost done = all.len() - rest@.len();
        let row = rest.remove(0);
        let key = row.symbol.clone();
        proof {
            assert(row == all[done]);
            assert(rest@ =~= all.skip(done + 1));
        }
        m.insert(key, row);
        proof {
            assert(all.take(done + 1).drop_last() =~= all.take(done));
            assert(all.take(done + 1).last() == all[done]);
            assert(keyfn(row) == symbol_of(row));
            assert(m@ == str_keyed_last_wins(all.take(done + 1), keyfn));
        }
    }
    proof {
        assert(all.take(all.len() as int) =~= all);
    }
    m
}

} // verus!
