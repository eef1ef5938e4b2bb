//! The debt-risk indicator: reads the same balance-sheet figures and scores
//! the year-over-year figure as it stands, without the ratio conversion.

use vstd::prelude::*;

use std::collections::HashMap;

use crate::akshare::balance_sheet::BalanceSheetData;
use crate::akshare::{Akshare, ReportDate};
use crate::indicator::{linear_score, linear_score_spec, scorable, Descriptors};
use crate::indicator::fundamental::fundamental_step1::figure_or_zero;

verus! {

/// The debt-risk indicator over a statement client.
pub struct FundamentalStep1(pub Akshare);

impl FundamentalStep1 {
    /// What this indicator is called and how it reads.
    pub fn get_info(&self) -> (r: Descriptors)
        ensures
            r.name@ == "负债"@,
            r.title@ == "了解公司的偿债风险"@,
    {
        Descriptors {
            name: "负债".to_owned(),
            title: "了解公司的偿债风险".to_owned(),
            desc:
                "大于等于70%，发生债务危机的可能性较大；大于等于40%，小于70%，偿债风险较小，但在特殊情况下依然可能发生偿债危机；小于40%，基本没有偿债风险。".to_owned(),
            exp: "总资产的同比增长率= (本年资产总计-上年资产总计)/上年资产总计".to_owned(),
        }
    }

    /// The figures this indicator reads from a fetched balance sheet: total
    /// assets and their year-over-year growth for the given period, each
    /// zero when the period or the field is absent.
    pub fn get_data(&self, sheet: &HashMap<i64, BalanceSheetData>, date: &ReportDate) -> (r: (
        i64,
        i64,
    ))
        ensures
            sheet@.contains_key(date.key_spec()) ==> r == (
                figure_or_zero(sheet@[date.key_spec()].total_assets),
                figure_or_zero(sheet@[date.key_spec()].total_assets_yoy),
            ),
            !sheet@.contains_key(date.key_spec()) ==> r == (0i64, 0i64),
    {
        broadcast use vstd::std_specs::hash::group_hash_axioms;

        let key = date.key();
        match sheet.get(&key) {
            Some(record) => {
                let assets = match record.total_assets {
                    Some(v) => v,
                    None => 0,
                };
                let yoy = match record.total_assets_yoy {
                    Some(v) => v,
                    None => 0,
                };
                (assets, yoy)
            },
            None => (0, 0),
        }
    }

    /// The score of the period: the shared scoring rule applied to the
    /// year-over-year figure directly, as this indicator does.
    pub fn get_score(&self, sheet: &HashMap<i64, BalanceSheetData>, date: &ReportDate) -> (score:
        i64)
        requires
            scorable(
                figure_or_zero(
                    if sheet@.contains_key(date.key_spec()) {
                        sheet@[date.key_spec()].total_assets_yoy
                    } else {
                        None
                    },
                ) as int,
            ),
        ensures
            sheet@.contains_key(date.key_spec()) ==> score == linear_score_spec(
                figure_or_zero(sheet@[date.key_spec()].total_assets_yoy) as int,
            ),
            !sheet@.contains_key(date.key_spec()) ==> score == 0,
    {
        let data = self.get_data(sheet, date);
        linear_score(data.1)
    }
}

} // verus!
