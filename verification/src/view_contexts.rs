use vstd::prelude::*;
use crate::models::{DayNumber, valid_day};
use crate::labels::{outcome_7, opt_view, daily_outcome_7, weekday_index, weekday_of, dow_name, date_to_dow};

verus! {

/// A classified day as read from the daily views.
#[derive(Debug)]
pub struct DailyViewContext {
    pub asset_id: String,
    pub trading_date: DayNumber,
    pub day_type: String,
    pub consolidation_subtype: Option<String>,
    pub high_session: Option<String>,
    pub low_session: Option<String>,
}

/// A classified week as read from the weekly views.
#[derive(Debug)]
pub struct WeeklyViewContext {
    pub asset_id: String,
    pub week_start: DayNumber,
    pub weekly_type: String,
    pub consolidation_subtype: Option<String>,
}

/// A classified session with the two sessions before it (seven-state biases).
#[derive(Debug)]
pub struct SessionContext {
    pub asset_id: String,
    pub trading_date: DayNumber,
    pub ps2_name: Option<String>,
    pub ps2_bias_7: Option<String>,
    pub ps1_name: Option<String>,
    pub ps1_bias_7: Option<String>,
    pub cs_name: Option<String>,
    pub cs_bias_7: Option<String>,
}

/// A weekday with the outcomes of the two days before it (same asset).
#[derive(Debug)]
pub struct DayContext {
    pub asset_id: String,
    pub trading_date: DayNumber,
    pub day0_outcome_7: String,
    pub day0_direction: String,
    pub pd1_outcome_7: Option<String>,
    pub pd1_direction: Option<String>,
    pub pd1_dow: Option<String>,
    pub pd2_outcome_7: Option<String>,
    pub pd2_direction: Option<String>,
}

/// A week with its week of the month and the outcomes of the two weeks
/// before it (same asset).
#[derive(Debug)]
pub struct WeeklyContext {
    pub asset_id: String,
    pub week_start: DayNumber,
    pub week0_outcome_7: String,
    pub week0_week_of_month: i32,
    pub pw1_outcome_7: Option<String>,
    pub pw2_outcome_7: Option<String>,
}

pub struct DayContextView {
    pub asset: Seq<char>,
    pub date: int,
    pub day0: Seq<char>,
    pub day0_dir: Seq<char>,
    pub pd1: Option<Seq<char>>,
    pub pd1_dir: Option<Seq<char>>,
    pub pd1_dow: Option<Seq<char>>,
    pub pd2: Option<Seq<char>>,
    pub pd2_dir: Option<Seq<char>>,
}

impl View for DayContext {
    type V = DayContextView;

    open spec fn view(&self) -> DayContextView {
        DayContextView {
            asset: self.asset_id@,
            date: self.trading_date as int,
            day0: self.day0_outcome_7@,
            day0_dir: self.day0_direction@,
            pd1: opt_view(self.pd1_outcome_7),
            pd1_dir: opt_view(self.pd1_direction),
            pd1_dow: opt_view(self.pd1_dow),
            pd2: opt_view(self.pd2_outcome_7),
            pd2_dir: opt_view(self.pd2_direction),
        }
    }
}

pub struct WeeklyContextView {
    pub asset: Seq<char>,
    pub week_start: int,
    pub week0: Seq<char>,
    pub week_of_month: int,
    pub pw1: Option<Seq<char>>,
    pub pw2: Option<Seq<char>>,
}

impl View for WeeklyContext {
    type V = WeeklyContextView;

    open spec fn view(&self) -> WeeklyContextView {
        WeeklyContextView {
            asset: self.asset_id@,
            week_start: self.week_start as int,
            week0: self.week0_outcome_7@,
            week_of_month: self.week0_week_of_month as int,
            pw1: opt_view(self.pw1_outcome_7),
            pw2: opt_view(self.pw2_outcome_7),
        }
    }
}

pub open spec fn day_context_views(s: Seq<DayContext>) -> Seq<DayContextView> {
    s.map_values(|c: DayContext| c@)
}

pub open spec fn weekly_context_views(s: Seq<WeeklyContext>) -> Seq<WeeklyContextView> {
    s.map_values(|c: WeeklyContext| c@)
}

/// The seven-state outcome of a classified day.
pub open spec fn day_outcome_of(v: DailyViewContext) -> Seq<char> {
    outcome_7(v.day_type@, opt_view(v.consolidation_subtype))
}

/// The seven-state outcome of a classified week.
pub open spec fn week_outcome_of(v: WeeklyViewContext) -> Seq<char> {
    outcome_7(v.weekly_type@, opt_view(v.consolidation_subtype))
}

/// The seven-state outcome of a classified day.
pub fn get_daily_outcome_7(view: &DailyViewContext) -> (r: String)
    ensures
        r@ == day_outcome_of(*view),
{
    daily_outcome_7(&view.day_type, &view.consolidation_subtype)
}

/// The seven-state outcome of a classified week.
pub fn get_weekly_outcome_7(view: &WeeklyViewContext) -> (r: String)
    ensures
        r@ == week_outcome_of(*view),
{
    daily_outcome_7(&view.weekly_type, &view.consolidation_subtype)
}

pub open spec fn is_weekend(day: int) -> bool {
    weekday_index(day) >= 5
}

/// The day context of the entry at position `t` of the order `p`: the
/// previous position gives PD1 when it has the same asset, and the one before
/// gives PD2 when PD1 exists and it has the same asset too.
pub open spec fn day_context_at(views: Seq<DailyViewContext>, p: Seq<usize>, t: int) -> DayContextView {
    let d0 = views[p[t] as int];
    let d1 = views[p[t - 1] as int];
    let d2 = views[p[t - 2] as int];
    let has1 = t > 0 && d1.asset_id@ == d0.asset_id@;
    let has2 = has1 && t > 1 && d2.asset_id@ == d0.asset_id@;
    DayContextView {
        asset: d0.asset_id@,
        date: d0.trading_date as int,
        day0: day_outcome_of(d0),
        day0_dir: day_outcome_of(d0),
        pd1: if has1 { Some(day_outcome_of(d1)) } else { None },
        pd1_dir: if has1 { Some(day_outcome_of(d1)) } else { None },
        pd1_dow: if has1 { Some(dow_name(weekday_index(d1.trading_date as int))) } else { None },
        pd2: if has2 { Some(day_outcome_of(d2)) } else { None },
        pd2_dir: if has2 { Some(day_outcome_of(d2)) } else { None },
    }
}

/// The day contexts of the first `n` positions of `p`, weekends left out.
pub open spec fn day_contexts_upto(views: Seq<DailyViewContext>, p: Seq<usize>, n: int) -> Seq<DayContextView>
    decreases n,
{
    if n <= 0 {
        seq![]
    } else if is_weekend(views[p[n - 1] as int].trading_date as int) {
        day_contexts_upto(views, p, n - 1)
    } else {
        day_contexts_upto(views, p, n - 1).push(day_context_at(views, p, n - 1))
    }
}

pub open spec fn valid_positions(p: Seq<usize>, n: int) -> bool {
    forall|k: int| 0 <= k < p.len() ==> #[trigger] p[k] < n
}

/// The day contexts of the days taken in the order `order`.
pub fn day_contexts_in_order(views: &Vec<DailyViewContext>, order: &Vec<usize>) -> (r: Vec<DayContext>)
    requires
        valid_positions(order@, views.len() as int),
    ensures
        day_context_views(r@) == day_contexts_upto(views@, order@, order.len() as int),
        r.len() <= order.len(),
        (forall|i: int| 0 <= i < views.len() ==> valid_day(#[trigger] views@[i].trading_date as int)) ==> forall|k: int|
            0 <= k < r.len() ==> valid_day(#[trigger] r@[k].trading_date as int),
{
    let mut r: Vec<DayContext> = Vec::new();
    let mut t: usize = 0;
    while t < order.len()
        invariant
            t <= order.len(),
            valid_positions(order@, views.len() as int),
            day_context_views(r@) == day_contexts_upto(views@, order@, t as int),
            r.len() <= t,
            forall|k: int| 0 <= k < r.len() ==> exists|i: int| 0 <= i < views.len() && #[trigger] r@[k].trading_date == views@[i].trading_date,
        decreases order.len() - t,
    {
        let ghost r0 = r@;
        let day0 = &views[order[t]];
        if weekday_of(day0.trading_date) >= 5 {
            t = t + 1;
            continue;
        }
        let day0_outcome_7 = get_daily_outcome_7(day0);
        let day0_direction = day0_outcome_7.clone();
        let mut pd1_outcome_7: Option<String> = None;
        let mut pd1_direction: Option<String> = None;
        let mut pd1_dow: Option<String> = None;
        let mut pd2_outcome_7: Option<String> = None;
        let mut pd2_direction: Option<String> = None;
        if t > 0 && views[order[t - 1]].asset_id == day0.asset_id {
            let pd1 = &views[order[t - 1]];
            let o1 = get_daily_outcome_7(pd1);
            pd1_direction = Some(o1.clone());
            pd1_outcome_7 = Some(o1);
            pd1_dow = Some(date_to_dow(pd1.trading_date));
            if t > 1 && views[order[t - 2]].asset_id == day0.asset_id {
                let o2 = get_daily_outcome_7(&views[order[t - 2]]);
                pd2_direction = Some(o2.clone());
                pd2_outcome_7 = Some(o2);
            }
        }
        let c = DayContext {
            asset_id: day0.asset_id.clone(),
            trading_date: day0.trading_date,
            day0_outcome_7,
            day0_direction,
            pd1_outcome_7,
            pd1_direction,
            pd1_dow,
            pd2_outcome_7,
            pd2_direction,
        };
        assert(c@ == day_context_at(views@, order@, t as int));
        r.push(c);
        assert(day_context_views(r@) =~= day_context_views(r0).push(c@));
        assert(r@[r@.len() - 1].trading_date == views@[order@[t as int] as int].trading_date);
        t = t + 1;
    }
    proof {
        if forall|i: int| 0 <= i < views.len() ==> valid_day(#[trigger] views@[i].trading_date as int) {
            assert forall|k: int| 0 <= k < r.len() implies valid_day(#[trigger] r@[k].trading_date as int) by {
                let i = choose|i: int| 0 <= i < views.len() && #[trigger] r@[k].trading_date == views@[i].trading_date;
                assert(valid_day(views@[i].trading_date as int));
            }
        }
    }
    r
}

/// The week of the month of a day of the month: `ceil(day / 7)`.
pub open spec fn week_of_month(dom: int) -> int {
    (dom + 6) / 7
}

/// The weekly context of the entry at position `t` of the order `p`; `doms`
/// holds the day of the month of each week start.
pub open spec fn weekly_context_at(views: Seq<WeeklyViewContext>, doms: Seq<int>, p: Seq<usize>, t: int) -> WeeklyContextView {
    let w0 = views[p[t] as int];
    let w1 = views[p[t - 1] as int];
    let w2 = views[p[t - 2] as int];
    let has1 = t > 0 && w1.asset_id@ == w0.asset_id@;
    let has2 = has1 && t > 1 && w2.asset_id@ == w0.asset_id@;
    WeeklyContextView {
        asset: w0.asset_id@,
        week_start: w0.week_start as int,
        week0: week_outcome_of(w0),
        week_of_month: week_of_month(doms[p[t] as int]),
        pw1: if has1 { Some(week_outcome_of(w1)) } else { None },
        pw2: if has2 { Some(week_outcome_of(w2)) } else { None },
    }
}

pub open spec fn weekly_contexts_upto(views: Seq<WeeklyViewContext>, doms: Seq<int>, p: Seq<usize>, n: int) -> Seq<WeeklyContextView>
    decreases n,
{
    if n <= 0 {
        seq![]
    } else {
        weekly_contexts_upto(views, doms, p, n - 1).push(weekly_context_at(views, doms, p, n - 1))
    }
}

pub open spec fn doms_view(doms: Seq<u32>) -> Seq<int> {
    doms.map_values(|d: u32| d as int)
}

/// The weekly contexts of the weeks taken in the order `order`; `doms` holds
/// the day of the month (1 to 31) of each week's start.
pub fn weekly_contexts_in_order(views: &Vec<WeeklyViewContext>, doms: &Vec<u32>, order: &Vec<usize>) -> (r: Vec<WeeklyContext>)
    requires
        valid_positions(order@, views.len() as int),
        doms.len() == views.len(),
        forall|i: int| 0 <= i < doms.len() ==> 1 <= #[trigger] doms@[i] <= 31,
    ensures
        weekly_context_views(r@) == weekly_contexts_upto(views@, doms_view(doms@), order@, order.len() as int),
        r.len() == order.len(),
        forall|k: int| 0 <= k < r.len() ==> 1 <= #[trigger] r@[k].week0_week_of_month <= 5,
        (forall|i: int| 0 <= i < views.len() ==> valid_day(#[trigger] views@[i].week_start as int)) ==> forall|k: int|
            0 <= k < r.len() ==> valid_day(#[trigger] r@[k].week_start as int),
{
    let ghost dv = doms_view(doms@);
    let mut r: Vec<WeeklyContext> = Vec::new();
    let mut t: usize = 0;
    while t < order.len()
        invariant
            t <= order.len(),
            valid_positions(order@, views.len() as int),
            doms.len() == views.len(),
            forall|i: int| 0 <= i < doms.len() ==> 1 <= #[trigger] doms@[i] <= 31,
            dv == doms_view(doms@),
            weekly_context_views(r@) == weekly_contexts_upto(views@, dv, order@, t as int),
            r.len() == t,
            forall|k: int| 0 <= k < r.len() ==> 1 <= #[trigger] r@[k].week0_week_of_month <= 5,
            forall|k: int| 0 <= k < r.len() ==> exists|i: int| 0 <= i < views.len() && #[trigger] r@[k].week_start == views@[i].week_start,
        decreases order.len() - t,
    {
        let ghost r0 = r@;
        let w0 = &views[order[t]];
        let week0_outcome_7 = get_weekly_outcome_7(w0);
        let dom = doms[order[t]];
        let week0_week_of_month = ((dom + 6) / 7) as i32;
        let mut pw1_outcome_7: Option<String> = None;
        let mut pw2_outcome_7: Option<String> = None;
        if t > 0 && views[order[t - 1]].asset_id == w0.asset_id {
            pw1_outcome_7 = Some(get_weekly_outcome_7(&views[order[t - 1]]));
            if t > 1 && views[order[t - 2]].asset_id == w0.asset_id {
                pw2_outcome_7 = Some(get_weekly_outcome_7(&views[order[t - 2]]));
            }
        }
        let c = WeeklyContext {
            asset_id: w0.asset_id.clone(),
            week_start: w0.week_start,
            week0_outcome_7,
            week0_week_of_month,
            pw1_outcome_7,
            pw2_outcome_7,
        };
        assert(c@ == weekly_context_at(views@, dv, order@, t as int));
        r.push(c);
        assert(weekly_context_views(r@) =~= weekly_context_views(r0).push(c@));
        assert(r@[r@.len() - 1].week_start == views@[order@[t as int] as int].week_start);
        t = t + 1;
    }
    proof {
        if forall|i: int| 0 <= i < views.len() ==> valid_day(#[trigger] views@[i].week_start as int) {
            assert forall|k: int| 0 <= k < r.len() implies valid_day(#[trigger] r@[k].week_start as int) by {
                let i = choose|i: int| 0 <= i < views.len() && #[trigger] r@[k].week_start == views@[i].week_start;
                assert(valid_day(views@[i].week_start as int));
            }
        }
    }
    r
}

} // verus!
