use vstd::prelude::*;
use chrono::Datelike;
use crate::keys::{KeyPart, KeyVal, copy_key};
use crate::tally::{TallyItem, TallyView, opt_key, tally_views, tally_weighted, is_weighted_table, WeightedRate};
use crate::models::{DayNumber, valid_day};
use crate::ordering::{stable_order, stable_order_of, strings_view, dates_view};
use crate::view_contexts::{DailyViewContext, WeeklyViewContext, DayContext, WeeklyContext, day_context_views, weekly_context_views, day_contexts_upto, weekly_contexts_upto, day_contexts_in_order, weekly_contexts_in_order, doms_view};

verus! {

/// The month (1 to 12) of a day number, as chrono's calendar gives it.
pub uninterp spec fn month_of_day(day: int) -> int;

/// The day of the month (1 to 31) of a day number, as chrono's calendar
/// gives it.
pub uninterp spec fn day_of_month_of(day: int) -> int;

/// The month of a day number: chrono's `NaiveDate::from_num_days_from_ce_opt`
/// followed by `Datelike::month`. The date exists for every valid day, and
/// chrono documents the month as a number from 1 to 12.
#[verifier::external_body]
fn calendar_month(day: DayNumber) -> (m: u32)
    requires
        valid_day(day as int),
    ensures
        m as int == month_of_day(day as int),
        1 <= m <= 12,
{
    chrono::NaiveDate::from_num_days_from_ce_opt(day).unwrap().month()
}

/// The day of the month of a day number: chrono's
/// `NaiveDate::from_num_days_from_ce_opt` followed by `Datelike::day`. The
/// date exists for every valid day, and chrono documents the day as a number
/// from 1 to 31.
#[verifier::external_body]
fn calendar_day_of_month(day: DayNumber) -> (d: u32)
    requires
        valid_day(day as int),
    ensures
        d as int == day_of_month_of(day as int),
        1 <= d <= 31,
{
    chrono::NaiveDate::from_num_days_from_ce_opt(day).unwrap().day()
}

/// One item to be tallied under a key: whether it is a success, and the day
/// it happened on.
#[derive(Debug)]
pub struct RateInput {
    pub key: Option<Vec<KeyPart>>,
    pub is_event: bool,
    pub date: DayNumber,
}

/// An item counts toward the "6M" lookback when its own month is June or
/// later: the window start is taken six months back from the item's own
/// date, wrapping to December of the same year before June, and falling back
/// to the item's date where that month does not exist.
pub open spec fn in_six_month_lookback(day: int) -> bool {
    month_of_day(day) >= 6
}

pub struct InputView {
    pub key: Option<Seq<KeyVal>>,
    pub event: bool,
    pub date: int,
}

impl View for RateInput {
    type V = InputView;

    open spec fn view(&self) -> InputView {
        InputView { key: opt_key(self.key), event: self.is_event, date: self.date as int }
    }
}

pub open spec fn input_views(s: Seq<RateInput>) -> Seq<InputView> {
    s.map_values(|r: RateInput| r@)
}

/// An input with its lookback membership read from the calendar.
pub open spec fn tallied_view(v: InputView) -> TallyView {
    TallyView { key: v.key, event: v.event, six: in_six_month_lookback(v.date) }
}

pub open spec fn tallied(s: Seq<InputView>) -> Seq<TallyView> {
    s.map_values(|v: InputView| tallied_view(v))
}

/// Whether every input falls on a valid day.
pub open spec fn dates_valid(data: Seq<RateInput>) -> bool {
    forall|i: int| 0 <= i < data.len() ==> valid_day(#[trigger] data[i].date as int)
}

/// The items with their "6M" membership read from the calendar.
fn resolve_lookbacks(data: &Vec<RateInput>) -> (r: Vec<TallyItem>)
    requires
        dates_valid(data@),
    ensures
        tally_views(r@) == tallied(input_views(data@)),
{
    let mut r: Vec<TallyItem> = Vec::new();
    let mut i: usize = 0;
    while i < data.len()
        invariant
            i <= data.len(),
            forall|q: int| 0 <= q < data.len() ==> valid_day(#[trigger] data@[q].date as int),
            r@.len() == i,
            forall|q: int| 0 <= q < i ==> #[trigger] r@[q]@ == tallied_view(data@[q]@),
        decreases data.len() - i,
    {
        let d = &data[i];
        let month = calendar_month(d.date);
        let key = match &d.key {
            Some(k) => Some(copy_key(k)),
            None => None,
        };
        r.push(TallyItem { key, is_event: d.is_event, in_six_months: month >= 6 });
        i = i + 1;
    }
    assert(tally_views(r@) =~= tallied(input_views(data@)));
    r
}

/// Tallies successes and attempts by key over the "ALL", "1Y" and "6M"
/// lookbacks, weighs them 0.6, 0.3 and 0.1 (the "ALL" lookback only for keys
/// with at least 10 attempts) and keeps the keys whose weighted attempts
/// reach `min_attempts`. Weighted values are returned in tenths.
pub fn calculate_weighted_rate(data: &Vec<RateInput>, min_attempts: u32) -> (r: Vec<WeightedRate>)
    requires
        dates_valid(data@),
    ensures
        is_weighted_table(r@, tallied(input_views(data@)), 10 * min_attempts),
{
    let items = resolve_lookbacks(data);
    tally_weighted(&items, min_attempts)
}

/// The statistics engine for the daily, weekly and session confidence
/// metrics; `pool` is the database the results go to.
pub struct MetricsCalculator<P> {
    pub pool: P,
}

pub open spec fn daily_assets(v: Seq<DailyViewContext>) -> Seq<Seq<char>> {
    v.map_values(|x: DailyViewContext| x.asset_id@)
}

pub open spec fn daily_dates(v: Seq<DailyViewContext>) -> Seq<int> {
    v.map_values(|x: DailyViewContext| x.trading_date as int)
}

pub open spec fn weekly_assets(v: Seq<WeeklyViewContext>) -> Seq<Seq<char>> {
    v.map_values(|x: WeeklyViewContext| x.asset_id@)
}

pub open spec fn weekly_dates(v: Seq<WeeklyViewContext>) -> Seq<int> {
    v.map_values(|x: WeeklyViewContext| x.week_start as int)
}

pub open spec fn week_doms(v: Seq<WeeklyViewContext>) -> Seq<int> {
    v.map_values(|x: WeeklyViewContext| day_of_month_of(x.week_start as int))
}

/// The day contexts of the classified days: the days sorted by asset and date
/// (stable), weekends left out, each with the two days before it of the same
/// asset.
pub open spec fn day_contexts_of(v: Seq<DailyViewContext>) -> Seq<crate::view_contexts::DayContextView> {
    day_contexts_upto(v, stable_order_of(daily_assets(v), daily_dates(v)), v.len() as int)
}

/// The weekly contexts of the classified weeks: the weeks sorted by asset and
/// week start (stable), each with the two weeks before it of the same asset.
pub open spec fn weekly_contexts_of(v: Seq<WeeklyViewContext>) -> Seq<crate::view_contexts::WeeklyContextView> {
    weekly_contexts_upto(v, week_doms(v), stable_order_of(weekly_assets(v), weekly_dates(v)), v.len() as int)
}

pub(crate) fn daily_sort_keys(views: &Vec<DailyViewContext>) -> (r: (Vec<String>, Vec<DayNumber>))
    ensures
        strings_view(r.0@) == daily_assets(views@),
        dates_view(r.1@) == daily_dates(views@),
        r.0.len() == views.len(),
        r.1.len() == views.len(),
{
    let mut assets: Vec<String> = Vec::new();
    let mut dates: Vec<DayNumber> = Vec::new();
    let mut i: usize = 0;
    while i < views.len()
        invariant
            i <= views.len(),
            assets@.len() == i,
            dates@.len() == i,
            forall|q: int| 0 <= q < i ==> #[trigger] assets@[q]@ == views@[q].asset_id@,
            forall|q: int| 0 <= q < i ==> #[trigger] dates@[q] == views@[q].trading_date,
        decreases views.len() - i,
    {
        assets.push(views[i].asset_id.clone());
        dates.push(views[i].trading_date);
        i = i + 1;
    }
    assert(strings_view(assets@) =~= daily_assets(views@));
    assert(dates_view(dates@) =~= daily_dates(views@));
    (assets, dates)
}

fn weekly_sort_keys(views: &Vec<WeeklyViewContext>) -> (r: (Vec<String>, Vec<DayNumber>))
    ensures
        strings_view(r.0@) == weekly_assets(views@),
        dates_view(r.1@) == weekly_dates(views@),
        r.0.len() == views.len(),
        r.1.len() == views.len(),
{
    let mut assets: Vec<String> = Vec::new();
    let mut dates: Vec<DayNumber> = Vec::new();
    let mut i: usize = 0;
    while i < views.len()
        invariant
            i <= views.len(),
            assets@.len() == i,
            dates@.len() == i,
            forall|q: int| 0 <= q < i ==> #[trigger] assets@[q]@ == views@[q].asset_id@,
            forall|q: int| 0 <= q < i ==> #[trigger] dates@[q] == views@[q].week_start,
        decreases views.len() - i,
    {
        assets.push(views[i].asset_id.clone());
        dates.push(views[i].week_start);
        i = i + 1;
    }
    assert(strings_view(assets@) =~= weekly_assets(views@));
    assert(dates_view(dates@) =~= weekly_dates(views@));
    (assets, dates)
}

/// The day of the month of each week start, read from the calendar.
fn week_start_doms(views: &Vec<WeeklyViewContext>) -> (r: Vec<u32>)
    requires
        forall|i: int| 0 <= i < views.len() ==> valid_day(#[trigger] views@[i].week_start as int),
    ensures
        doms_view(r@) == week_doms(views@),
        r.len() == views.len(),
        forall|i: int| 0 <= i < r.len() ==> 1 <= #[trigger] r@[i] <= 31,
{
    let mut r: Vec<u32> = Vec::new();
    let mut i: usize = 0;
    while i < views.len()
        invariant
            i <= views.len(),
            forall|q: int| 0 <= q < views.len() ==> valid_day(#[trigger] views@[q].week_start as int),
            r@.len() == i,
            forall|q: int| 0 <= q < i ==> #[trigger] r@[q] as int == day_of_month_of(views@[q].week_start as int),
            forall|q: int| 0 <= q < i ==> 1 <= #[trigger] r@[q] <= 31,
        decreases views.len() - i,
    {
        r.push(calendar_day_of_month(views[i].week_start));
        i = i + 1;
    }
    assert(doms_view(r@) =~= week_doms(views@));
    r
}

impl<P> MetricsCalculator<P> {
    pub fn new(pool: P) -> (r: Self)
        ensures
            r.pool == pool,
    {
        MetricsCalculator { pool }
    }

    /// The day contexts: days sorted by asset and date, weekends skipped, each
    /// weekday with the outcome, direction and weekday of the day before and
    /// the outcome and direction of the day before that, where they belong to
    /// the same asset.
    pub fn generate_day_context(&self, daily_views: &Vec<DailyViewContext>) -> (r: Vec<DayContext>)
        ensures
            day_context_views(r@) == day_contexts_of(daily_views@),
            r.len() <= daily_views.len(),
            (forall|i: int| 0 <= i < daily_views.len() ==> valid_day(#[trigger] daily_views@[i].trading_date as int))
                ==> forall|k: int| 0 <= k < r.len() ==> valid_day(#[trigger] r@[k].trading_date as int),
    {
        let (assets, dates) = daily_sort_keys(daily_views);
        let order = stable_order(&assets, &dates);
        day_contexts_in_order(daily_views, &order)
    }

    /// The weekly contexts: weeks sorted by asset and week start, each with
    /// its outcome, its week of the month (`ceil(day / 7)` of its start) and
    /// the outcomes of the two weeks before it of the same asset.
    pub fn generate_weekly_context(&self, weekly_views: &Vec<WeeklyViewContext>) -> (r: Vec<WeeklyContext>)
        requires
            forall|i: int| 0 <= i < weekly_views.len() ==> valid_day(#[trigger] weekly_views@[i].week_start as int),
        ensures
            weekly_context_views(r@) == weekly_contexts_of(weekly_views@),
            r.len() == weekly_views.len(),
            forall|k: int| 0 <= k < r.len() ==> 1 <= #[trigger] r@[k].week0_week_of_month <= 5,
            forall|k: int| 0 <= k < r.len() ==> valid_day(#[trigger] r@[k].week_start as int),
    {
        let (assets, dates) = weekly_sort_keys(weekly_views);
        let order = stable_order(&assets, &dates);
        let doms = week_start_doms(weekly_views);
        weekly_contexts_in_order(weekly_views, &doms, &order)
    }
}

} // verus!
