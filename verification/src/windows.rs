use vstd::prelude::*;
use crate::models::{DailyContextData, clone_opt_string};
use crate::contexts::{Daily3rdOrderContext, DailyTrendContinuationContext, DailyContinuationContext};
use crate::labels::{continues, iss_continuation, short_weekday, short_weekday_name, weekday_index};

verus! {

/// Whether `c` is the 3rd-order context of the day `cur`, whose two preceding
/// records are `pd2` and `pd1`.
pub open spec fn is_3rd_order_window(c: Daily3rdOrderContext, pd2: DailyContextData, pd1: DailyContextData, cur: DailyContextData) -> bool {
    &&& c.trading_date == cur.trading_date
    &&& c.asset_id@ == cur.asset_id@
    &&& c.pd2_bias == pd2.day_type
    &&& c.pd1_bias == pd1.day_type
    &&& c.pd1_dow matches Some(d) && d@ == short_weekday_name(weekday_index(pd1.trading_date as int))
    &&& c.c_day_bias == cur.day_type
}

/// `r` holds one 3rd-order context for every record of `days` from the third on.
pub open spec fn third_order_windows_of(r: Seq<Daily3rdOrderContext>, days: Seq<DailyContextData>) -> bool {
    &&& r.len() == if days.len() >= 2 { days.len() - 2 } else { 0 }
    &&& forall|k: int| 0 <= k < r.len() ==> is_3rd_order_window(#[trigger] r[k], days[k], days[k + 1], days[k + 2])
}

/// One 3rd-order context for every record from the third on: its day type
/// after the day types of the two records before it and the weekday of the
/// record just before.
pub fn prepare_daily_3rd_order_contexts(daily_contexts: &Vec<DailyContextData>) -> (r: Vec<Daily3rdOrderContext>)
    ensures
        third_order_windows_of(r@, daily_contexts@),
{
    let mut r: Vec<Daily3rdOrderContext> = Vec::new();
    let mut i: usize = 2;
    while i < daily_contexts.len()
        invariant
            2 <= i,
            daily_contexts.len() >= 2 ==> i <= daily_contexts.len(),
            daily_contexts.len() < 2 ==> r@.len() == 0,
            r@.len() == i - 2,
            forall|k: int| 0 <= k < r@.len() ==> is_3rd_order_window(#[trigger] r@[k], daily_contexts@[k], daily_contexts@[k + 1], daily_contexts@[k + 2]),
        decreases daily_contexts.len() - i,
    {
        let current_day = &daily_contexts[i];
        let pd1 = &daily_contexts[i - 1];
        let pd2 = &daily_contexts[i - 2];
        let pd1_dow = Some(short_weekday(pd1.trading_date));
        r.push(Daily3rdOrderContext {
            trading_date: current_day.trading_date,
            asset_id: current_day.asset_id.clone(),
            pd2_bias: clone_opt_string(&pd2.day_type),
            pd1_bias: clone_opt_string(&pd1.day_type),
            pd1_dow,
            c_day_bias: clone_opt_string(&current_day.day_type),
        });
        i = i + 1;
    }
    r
}

/// Whether `c` is the trend-continuation context of the day `cur`, whose two
/// preceding records are `pd2` and `pd1`.
pub open spec fn is_trend_window(c: DailyTrendContinuationContext, pd2: DailyContextData, pd1: DailyContextData, cur: DailyContextData) -> bool {
    &&& c.trading_date == cur.trading_date
    &&& c.asset_id@ == cur.asset_id@
    &&& c.pd2_bias == pd2.day_type
    &&& c.pd1_bias == pd1.day_type
    &&& c.pd1_dow matches Some(d) && d@ == short_weekday_name(weekday_index(pd1.trading_date as int))
    &&& cur.day_type matches Some(x) && c.c_day_bias@ == x@
    &&& c.continuation_outcome@ == if continues(pd1.day_type->0@, c.c_day_bias@) { "Continuation"@ } else { "Reversal"@ }
}

pub open spec fn window_complete(pd2: DailyContextData, pd1: DailyContextData, cur: DailyContextData) -> bool {
    pd2.day_type is Some && pd1.day_type is Some && cur.day_type is Some
}

/// `r` holds, in order, one trend context for each record from the third on
/// whose window has all three day types.
pub open spec fn trend_windows_of(r: Seq<DailyTrendContinuationContext>, days: Seq<DailyContextData>) -> bool
    decreases days.len(),
{
    if days.len() < 3 {
        r.len() == 0
    } else {
        let n = days.len();
        if window_complete(days[n - 3], days[n - 2], days[n - 1]) {
            &&& r.len() >= 1
            &&& trend_windows_of(r.drop_last(), days.drop_last())
            &&& is_trend_window(r.last(), days[n - 3], days[n - 2], days[n - 1])
        } else {
            trend_windows_of(r, days.drop_last())
        }
    }
}

/// For every record from the third on whose window has all three day types,
/// a context labelling the day "Continuation" when it continues the previous
/// day's direction and "Reversal" otherwise.
pub fn prepare_dtcr_contexts(daily_contexts: &Vec<DailyContextData>) -> (r: Vec<DailyTrendContinuationContext>)
    ensures
        trend_windows_of(r@, daily_contexts@),
{
    let mut r: Vec<DailyTrendContinuationContext> = Vec::new();
    let mut i: usize = 2;
    assert(daily_contexts.len() >= 2 ==> daily_contexts@.take(2).len() == 2);
    while i < daily_contexts.len()
        invariant
            2 <= i,
            daily_contexts.len() >= 2 ==> i <= daily_contexts.len(),
            daily_contexts.len() < 2 ==> r@.len() == 0,
            daily_contexts.len() >= 2 ==> trend_windows_of(r@, daily_contexts@.take(i as int)),
        decreases daily_contexts.len() - i,
    {
        let ghost pre = daily_contexts@.take(i + 1);
        let ghost r0 = r@;
        assert(pre.drop_last() =~= daily_contexts@.take(i as int));
        assert(pre[i - 2] == daily_contexts@[i - 2]);
        assert(pre[i - 1] == daily_contexts@[i - 1]);
        assert(pre[i as int] == daily_contexts@[i as int]);
        let current_day = &daily_contexts[i];
        let pd1 = &daily_contexts[i - 1];
        let pd2 = &daily_contexts[i - 2];
        if let (Some(_pd2_b), Some(pd1_b), Some(c_day_b)) = (&pd2.day_type, &pd1.day_type, &current_day.day_type) {
            let continuation_outcome = if iss_continuation(pd1_b.as_str(), c_day_b.as_str()) {
                "Continuation".to_owned()
            } else {
                "Reversal".to_owned()
            };
            let pd1_dow = Some(short_weekday(pd1.trading_date));
            r.push(DailyTrendContinuationContext {
                trading_date: current_day.trading_date,
                asset_id: current_day.asset_id.clone(),
                pd2_bias: clone_opt_string(&pd2.day_type),
                pd1_bias: clone_opt_string(&pd1.day_type),
                pd1_dow,
                c_day_bias: c_day_b.clone(),
                continuation_outcome,
            });
            assert(r@.drop_last() =~= r0);
        }
        i = i + 1;
    }
    proof {
        if daily_contexts.len() >= 2 {
            assert(daily_contexts@.take(daily_contexts.len() as int) =~= daily_contexts@);
        } else {
            assert(daily_contexts@.len() < 3);
        }
    }
    r
}

/// `r` holds, for every record of `days` from the third on, that record and
/// the two before it.
pub open spec fn continuation_windows_of(r: Seq<DailyContinuationContext>, days: Seq<DailyContextData>) -> bool {
    &&& r.len() == if days.len() >= 2 { days.len() - 2 } else { 0 }
    &&& forall|k: int| #![trigger r[k]] 0 <= k < r.len() ==> r[k].pd2 == days[k] && r[k].pd1 == days[k + 1] && r[k].cd == days[k + 2]
}

/// One continuation context for every record from the third on, holding it
/// and the two records before it.
pub fn daily_continuation_windows(daily_raw: &Vec<DailyContextData>) -> (r: Vec<DailyContinuationContext>)
    ensures
        continuation_windows_of(r@, daily_raw@),
{
    let mut r: Vec<DailyContinuationContext> = Vec::new();
    let mut i: usize = 2;
    while i < daily_raw.len()
        invariant
            2 <= i,
            daily_raw.len() >= 2 ==> i <= daily_raw.len(),
            daily_raw.len() < 2 ==> r@.len() == 0,
            r@.len() == i - 2,
            forall|k: int| #![trigger r@[k]] 0 <= k < r@.len() ==> r@[k].pd2 == daily_raw@[k] && r@[k].pd1 == daily_raw@[k + 1] && r@[k].cd == daily_raw@[k + 2],
        decreases daily_raw.len() - i,
    {
        r.push(DailyContinuationContext {
            pd2: daily_raw[i - 2].copy(),
            pd1: daily_raw[i - 1].copy(),
            cd: daily_raw[i].copy(),
        });
        i = i + 1;
    }
    r
}

} // verus!
