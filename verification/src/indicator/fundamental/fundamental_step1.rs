//! The total-assets growth indicator: reads a company's total assets and
//! their year-over-year growth from a fetched balance sheet, and scores the
//! growth as a ratio.

use vstd::prelude::*;

use std::collections::HashMap;

use crate::akshare::balance_sheet::BalanceSheetData;
use crate::akshare::{Akshare, ReportDate};
use crate::indicator::Descriptors;

verus! {

/// The value of an optional figure, defaulting to zero when absent.
pub open spec fn figure_or_zero(v: Option<i64>) -> i64 {
    match v {
        Some(x) => x,
        None => 0,
    }
}

/// The score of a year-over-year figure given in ten-thousandths of a
/// percent: the shared scoring rule applied to the figure read as a ratio,
/// that is, divided by one hundred.
pub open spec fn score_of_yoy_percent(pct: int) -> int {
    if pct >= 100000 {
        800000 + (pct - 100000) / 5
    } else if pct > 0 {
        400000 + pct / 5
    } else {
        0
    }
}

/// The total-assets growth indicator over a statement client.
pub struct FundamentalStep1(pub Akshare);

impl FundamentalStep1 {
    /// What this indicator is called and how it reads.
    pub fn get_info(&self) -> (r: Descriptors)
        ensures
            r.name@ == "总资产"@,
            r.title@ == "了解公司的实力和成长性"@,
    {
        Descriptors {
            name: "总资产".to_owned(),
            title: "了解公司的实力和成长性".to_owned(),
            desc:
                "大于等于10%，公司在扩张之中，成长性较好；0-10之间，公司处于成熟期，发展平稳；小于等于0，公司很可能处于收缩或者衰退之中。".to_owned(),
            exp: "总资产的同比增长率= (本年资产总计-上年资产总计)/上年资产总计".to_owned(),
        }
    }

    /// The figures this indicator reads from a fetched balance sheet: total
    /// assets and their year-over-year growth for the given period, each
    /// zero when the period or the field is absent.
    pub fn get_data(&self, sheet: &HashMap<i64, BalanceSheetData>, date: &ReportDate) -> (r: (
        i64,
        i64,
    ))
        ensures
            sheet@.contains_key(date.key_spec()) ==> r == (
                figure_or_zero(sheet@[date.key_spec()].total_assets),
                figure_or_zero(sheet@[date.key_spec()].total_assets_yoy),
            ),
            !sheet@.contains_key(date.key_spec()) ==> r == (0i64, 0i64),
    {
        broadcast use vstd::std_specs::hash::group_hash_axioms;

        let key = date.key();
        match sheet.get(&key) {
            Some(record) => {
                let assets = match record.total_assets {
                    Some(v) => v,
                    None => 0,
                };
                let yoy = match record.total_assets_yoy {
                    Some(v) => v,
                    None => 0,
                };
                (assets, yoy)
            },
            None => (0, 0),
        }
    }

    /// The score of the period: the year-over-year growth of total assets,
    /// read as a ratio, under the shared scoring rule.
    pub fn get_score(&self, sheet: &HashMap<i64, BalanceSheetData>, date: &ReportDate) -> (score:
        i64)
        ensures
            sheet@.contains_key(date.key_spec()) ==> score == score_of_yoy_percent(
                figure_or_zero(sheet@[date.key_spec()].total_assets_yoy) as int,
            ),
            !sheet@.contains_key(date.key_spec()) ==> score == 0,
    {
        let data = self.get_data(sheet, date);
        let pct = data.1;
        if pct >= 100000 {
            800000 + (pct - 100000) / 5
        } else if pct > 0 {
            400000 + pct / 5
        } else {
            0
        }
    }
}

} // verus!
