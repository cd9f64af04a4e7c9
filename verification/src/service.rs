use vstd::prelude::*;
use crate::models::{DayNumber, LookbackInterval, SessionContextData, EightContextData, DailyContextData};
use crate::rates::{RateRow, is_rate_table, intervals_view, rate_table, aggregate_ml_features, continuation_rows, extract_continuation_results, LiftRow, BaseLookup, lifts_of, lift_rows, lift_views, row_views};
use crate::windows::{daily_continuation_windows, prepare_daily_3rd_order_contexts, third_order_windows_of, continuation_windows_of};
use crate::joins::{bar_day_joins, join_bars_to_days, session_day_joins, join_sessions_to_days, session_bar_joins, join_sessions_to_bars, session_extreme_bases_of, session_extreme_base_contexts, bar_extreme_base_contexts, bar_extreme_bases_of};
use crate::prepare::{session_extremes_of, prepare_session_extreme_contexts, bar_extremes_of, prepare_bar_extreme_contexts};
use crate::aggregate::{CountEntry, TotalEntry, is_count_table, is_total_table};
use crate::rates::{interval_starts_view, IntervalView};
use crate::contexts::{MetricsContext, observations, observations_of, BaseRateSessionContext, BarBaseRateContext, DailyBaseRateContext, Transition2ndOrderContext, Transition2ndOrderBarContext, SessionContinuationContext, BarContinuationContext, DailyContinuationContext, Daily3rdOrderContext, SessionExtremeBaseContext, SessionExtremeContext, BarExtremeBaseContext, BarExtremeContext};

verus! {

#[verifier::external_type_specification]
#[verifier::external_body]
pub struct ExSystemTime(std::time::SystemTime);

/// std's `SystemTime::now`: the current reading of the system clock. Which
/// time it is depends on the clock and is not stated.
#[verifier::external_body]
fn system_now() -> (r: std::time::SystemTime) {
    std::time::SystemTime::now()
}

/// std's `SystemTime::duration_since(UNIX_EPOCH)`, in whole seconds; `None`
/// when the time lies before 1970-01-01. The value depends on the time read
/// and is not stated.
#[verifier::external_body]
fn seconds_since_epoch(t: &std::time::SystemTime) -> (r: Option<u64>) {
    match t.duration_since(std::time::UNIX_EPOCH) {
        Ok(d) => Some(d.as_secs()),
        Err(_) => None,
    }
}

/// The day number (January 1 of year 1 is day 1) of a Unix timestamp:
/// chrono's `DateTime::from_timestamp(secs, 0)`, then `date_naive` and
/// `num_days_from_ce`. chrono takes the day as `secs.div_euclid(86_400)`
/// plus 719 163 (the day of 1970-01-01) and gives `None` only where that day
/// lies outside its calendar, which spans about 96 million days either side
/// of day 1.
#[verifier::external_body]
fn day_of_timestamp(secs: i64) -> (r: Option<DayNumber>)
    ensures
        r matches Some(d) ==> d == secs / 86_400 + 719_163 && -100_000_000 <= d <= 100_000_000,
{
    match chrono::DateTime::from_timestamp(secs, 0) {
        Some(t) => Some(chrono::Datelike::num_days_from_ce(&t.date_naive())),
        None => None,
    }
}

/// Today's day number from the system clock; `None` when the clock reads
/// before 1970 or beyond the calendar.
fn today() -> (r: Option<DayNumber>)
    ensures
        r matches Some(d) ==> -100_000_000 <= d <= 100_000_000,
{
    let now = system_now();
    match seconds_since_epoch(&now) {
        Some(secs) => if secs <= i64::MAX as u64 {
            day_of_timestamp(secs as i64)
        } else {
            None
        },
        None => None,
    }
}

/// Day number of 1900-01-01, the start of the whole-history window.
pub const ALL_HISTORY_START: DayNumber = 693596;

/// The three lookback windows ending `today`: "6M" (the last 180 days,
/// weight 60%), "1Y" (the last 365 days, weight 30%) and "ALL" (since
/// 1900-01-01, weight 10%).
pub open spec fn lookback_windows(today: int, r: Seq<IntervalView>) -> bool {
    &&& r.len() == 3
    &&& r[0] == (IntervalView { name: "6M"@, weight_pct: 60, start: today - 180 })
    &&& r[1] == (IntervalView { name: "1Y"@, weight_pct: 30, start: today - 365 })
    &&& r[2] == (IntervalView { name: "ALL"@, weight_pct: 10, start: ALL_HISTORY_START as int })
}


/// The metrics engine; `pool` is the database it reads from and writes to.
pub struct MetricsService<P> {
    pub pool: P,
}

/// The lookback windows ending on day `today`.
pub fn lookback_intervals_from(today: DayNumber) -> (r: Vec<LookbackInterval>)
    requires
        today >= i32::MIN + 365,
    ensures
        lookback_windows(today as int, intervals_view(r@)),
{
    let r = vec![
        LookbackInterval { name: "6M".to_owned(), weight_pct: 60, start_date: today - 180 },
        LookbackInterval { name: "1Y".to_owned(), weight_pct: 30, start_date: today - 365 },
        LookbackInterval { name: "ALL".to_owned(), weight_pct: 10, start_date: ALL_HISTORY_START },
    ];
    assert(intervals_view(r@)[0] == r@[0]@);
    assert(intervals_view(r@)[1] == r@[1]@);
    assert(intervals_view(r@)[2] == r@[2]@);
    r
}

/// The rate table of any kind of context.
pub fn rates_of<T: MetricsContext>(data: &Vec<T>, intervals: &Vec<LookbackInterval>) -> (r: Vec<RateRow>)
    ensures
        is_rate_table(r@, observations_of(data@), intervals_view(intervals@)),
{
    let obs = observations(data);
    rate_table(&obs, intervals)
}

impl<P> MetricsService<P> {
    /// A metrics service over the given connection pool.
    pub fn new(pool: P) -> (r: MetricsService<P>)
        ensures
            r.pool == pool,
    {
        MetricsService { pool }
    }

    /// The lookback windows ending today; `None` when the system clock cannot
    /// be read as a calendar day.
    pub fn get_lookback_intervals(&self) -> (r: Option<Vec<LookbackInterval>>)
        ensures
            r is Some ==> exists|t: int| #[trigger] lookback_windows(t, intervals_view(r->0@)),
    {
        match today() {
            Some(t) => {
                let r = lookback_intervals_from(t);
                let res = Some(r);
                assert(lookback_windows(t as int, intervals_view(res->0@)));
                res
            },
            None => None,
        }
    }

    /// Counts per (asset, pattern, outcome) and per (asset, pattern) in each
    /// lookback interval.
    pub fn aggregate_ml_features<T: MetricsContext>(&self, data: &Vec<T>, intervals: &Vec<LookbackInterval>) -> (r: (Vec<CountEntry>, Vec<TotalEntry>))
        ensures
            is_count_table(r.0@, observations_of(data@), interval_starts_view(intervals_view(intervals@))),
            is_total_table(r.1@, observations_of(data@), interval_starts_view(intervals_view(intervals@))),
    {
        let obs = observations(data);
        aggregate_ml_features(&obs, intervals)
    }

    /// Base rates of each session bias, per session name.
    pub fn calculate_cs_base_rates_ml(&self, session_contexts: &Vec<SessionContextData>, intervals: &Vec<LookbackInterval>) -> (r: Vec<RateRow>)
        ensures
            is_rate_table(r@, observations_of(session_contexts@.map_values(|s: SessionContextData| (BaseRateSessionContext { inner: s }))), intervals_view(intervals@)),
    {
        let mut ctxs: Vec<BaseRateSessionContext> = Vec::new();
        let mut i: usize = 0;
        while i < session_contexts.len()
            invariant
                i <= session_contexts.len(),
                ctxs@ == session_contexts@.take(i as int).map_values(|s: SessionContextData| (BaseRateSessionContext { inner: s })),
            decreases session_contexts.len() - i,
        {
            ctxs.push(BaseRateSessionContext { inner: session_contexts[i].copy() });
            assert(session_contexts@.take(i + 1).map_values(|s: SessionContextData| (BaseRateSessionContext { inner: s })) =~= ctxs@);
            i = i + 1;
        }
        assert(session_contexts@.take(session_contexts.len() as int) =~= session_contexts@);
        rates_of(&ctxs, intervals)
    }

    /// Base rates of each bar bias, per bar number.
    pub fn calculate_bar_base_rates_ml(&self, eight_contexts: &Vec<EightContextData>, intervals: &Vec<LookbackInterval>) -> (r: Vec<RateRow>)
        ensures
            is_rate_table(r@, observations_of(eight_contexts@.map_values(|s: EightContextData| (BarBaseRateContext { inner: s }))), intervals_view(intervals@)),
    {
        let mut ctxs: Vec<BarBaseRateContext> = Vec::new();
        let mut i: usize = 0;
        while i < eight_contexts.len()
            invariant
                i <= eight_contexts.len(),
                ctxs@ == eight_contexts@.take(i as int).map_values(|s: EightContextData| (BarBaseRateContext { inner: s })),
            decreases eight_contexts.len() - i,
        {
            ctxs.push(BarBaseRateContext { inner: eight_contexts[i].copy() });
            assert(eight_contexts@.take(i + 1).map_values(|s: EightContextData| (BarBaseRateContext { inner: s })) =~= ctxs@);
            i = i + 1;
        }
        assert(eight_contexts@.take(eight_contexts.len() as int) =~= eight_contexts@);
        rates_of(&ctxs, intervals)
    }

    /// Base rates of each day type, per asset.
    pub fn calculate_daily_base_rates_ml(&self, daily_data: &Vec<DailyContextData>, intervals: &Vec<LookbackInterval>) -> (r: Vec<RateRow>)
        ensures
            is_rate_table(r@, observations_of(daily_data@.map_values(|s: DailyContextData| (DailyBaseRateContext { inner: s }))), intervals_view(intervals@)),
    {
        let mut ctxs: Vec<DailyBaseRateContext> = Vec::new();
        let mut i: usize = 0;
        while i < daily_data.len()
            invariant
                i <= daily_data.len(),
                ctxs@ == daily_data@.take(i as int).map_values(|s: DailyContextData| (DailyBaseRateContext { inner: s })),
            decreases daily_data.len() - i,
        {
            ctxs.push(DailyBaseRateContext { inner: daily_data[i].copy() });
            assert(daily_data@.take(i + 1).map_values(|s: DailyContextData| (DailyBaseRateContext { inner: s })) =~= ctxs@);
            i = i + 1;
        }
        assert(daily_data@.take(daily_data.len() as int) =~= daily_data@);
        rates_of(&ctxs, intervals)
    }

    /// Rates of each (CS name, CS bias) after each session pattern.
    pub fn calculate_transition_2nd_order_ml(&self, session_contexts: &Vec<SessionContextData>, intervals: &Vec<LookbackInterval>) -> (r: Vec<RateRow>)
        ensures
            is_rate_table(r@, observations_of(session_contexts@.map_values(|s: SessionContextData| (Transition2ndOrderContext { inner: s }))), intervals_view(intervals@)),
    {
        let mut ctxs: Vec<Transition2ndOrderContext> = Vec::new();
        let mut i: usize = 0;
        while i < session_contexts.len()
            invariant
                i <= session_contexts.len(),
                ctxs@ == session_contexts@.take(i as int).map_values(|s: SessionContextData| (Transition2ndOrderContext { inner: s })),
            decreases session_contexts.len() - i,
        {
            ctxs.push(Transition2ndOrderContext { inner: session_contexts[i].copy() });
            assert(session_contexts@.take(i + 1).map_values(|s: SessionContextData| (Transition2ndOrderContext { inner: s })) =~= ctxs@);
            i = i + 1;
        }
        assert(session_contexts@.take(session_contexts.len() as int) =~= session_contexts@);
        rates_of(&ctxs, intervals)
    }

    /// Rates of each (CB number, CB bias) after each bar pattern.
    pub fn calculate_bar_transition_2nd_order_ml(&self, eight_contexts: &Vec<EightContextData>, intervals: &Vec<LookbackInterval>) -> (r: Vec<RateRow>)
        ensures
            is_rate_table(r@, observations_of(eight_contexts@.map_values(|s: EightContextData| (Transition2ndOrderBarContext { inner: s }))), intervals_view(intervals@)),
    {
        let mut ctxs: Vec<Transition2ndOrderBarContext> = Vec::new();
        let mut i: usize = 0;
        while i < eight_contexts.len()
            invariant
                i <= eight_contexts.len(),
                ctxs@ == eight_contexts@.take(i as int).map_values(|s: EightContextData| (Transition2ndOrderBarContext { inner: s })),
            decreases eight_contexts.len() - i,
        {
            ctxs.push(Transition2ndOrderBarContext { inner: eight_contexts[i].copy() });
            assert(eight_contexts@.take(i + 1).map_values(|s: EightContextData| (Transition2ndOrderBarContext { inner: s })) =~= ctxs@);
            i = i + 1;
        }
        assert(eight_contexts@.take(eight_contexts.len() as int) =~= eight_contexts@);
        rates_of(&ctxs, intervals)
    }

    /// Rates of continuation and of its absence after each session pattern and CS name.
    fn session_continuation_rates_all(&self, session_data: &Vec<SessionContextData>, intervals: &Vec<LookbackInterval>) -> (r: Vec<RateRow>)
        ensures
            is_rate_table(r@, observations_of(session_data@.map_values(|s: SessionContextData| (SessionContinuationContext { inner: s }))), intervals_view(intervals@)),
    {
        let mut ctxs: Vec<SessionContinuationContext> = Vec::new();
        let mut i: usize = 0;
        while i < session_data.len()
            invariant
                i <= session_data.len(),
                ctxs@ == session_data@.take(i as int).map_values(|s: SessionContextData| (SessionContinuationContext { inner: s })),
            decreases session_data.len() - i,
        {
            ctxs.push(SessionContinuationContext { inner: session_data[i].copy() });
            assert(session_data@.take(i + 1).map_values(|s: SessionContextData| (SessionContinuationContext { inner: s })) =~= ctxs@);
            i = i + 1;
        }
        assert(session_data@.take(session_data.len() as int) =~= session_data@);
        rates_of(&ctxs, intervals)
    }

    /// Rates of continuation and of its absence after each bar pattern and CB number.
    fn bar_continuation_rates_all(&self, bar_data: &Vec<EightContextData>, intervals: &Vec<LookbackInterval>) -> (r: Vec<RateRow>)
        ensures
            is_rate_table(r@, observations_of(bar_data@.map_values(|s: EightContextData| (BarContinuationContext { inner: s }))), intervals_view(intervals@)),
    {
        let mut ctxs: Vec<BarContinuationContext> = Vec::new();
        let mut i: usize = 0;
        while i < bar_data.len()
            invariant
                i <= bar_data.len(),
                ctxs@ == bar_data@.take(i as int).map_values(|s: EightContextData| (BarContinuationContext { inner: s })),
            decreases bar_data.len() - i,
        {
            ctxs.push(BarContinuationContext { inner: bar_data[i].copy() });
            assert(bar_data@.take(i + 1).map_values(|s: EightContextData| (BarContinuationContext { inner: s })) =~= ctxs@);
            i = i + 1;
        }
        assert(bar_data@.take(bar_data.len() as int) =~= bar_data@);
        rates_of(&ctxs, intervals)
    }

    /// Continuation rates after each session pattern and CS name: how often
    /// the current session continued the previous session's direction.
    pub fn calculate_session_continuation_ml(&self, session_data: &Vec<SessionContextData>, intervals: &Vec<LookbackInterval>) -> (r: Vec<RateRow>)
        ensures
            exists|all: Seq<RateRow>|
                is_rate_table(all, observations_of(session_data@.map_values(|s: SessionContextData| (SessionContinuationContext { inner: s }))), intervals_view(intervals@))
                && r@ == #[trigger] continuation_rows(all),
    {
        let all = self.session_continuation_rates_all(session_data, intervals);
        extract_continuation_results(all)
    }

    /// Continuation rates after each bar pattern and CB number: how often the
    /// current bar continued the previous bar's direction.
    pub fn calculate_bar_continuation_ml(&self, bar_data: &Vec<EightContextData>, intervals: &Vec<LookbackInterval>) -> (r: Vec<RateRow>)
        ensures
            exists|all: Seq<RateRow>|
                is_rate_table(all, observations_of(bar_data@.map_values(|s: EightContextData| (BarContinuationContext { inner: s }))), intervals_view(intervals@))
                && r@ == #[trigger] continuation_rows(all),
    {
        let all = self.bar_continuation_rates_all(bar_data, intervals);
        extract_continuation_results(all)
    }

    /// Continuation rates after each (PD2 type, PD1 type, PD1 weekday): how
    /// often a day continued the previous day's direction.
    pub fn calculate_daily_continuation_ml(&self, daily_raw: &Vec<DailyContextData>, intervals: &Vec<LookbackInterval>) -> (r: Vec<RateRow>)
        ensures
            exists|ctxs: Seq<DailyContinuationContext>, all: Seq<RateRow>| continuation_windows_of(ctxs, daily_raw@) && #[trigger] is_rate_table(all, observations_of(ctxs), intervals_view(intervals@))
                && r@ == continuation_rows(all),
    {
        let ctxs = daily_continuation_windows(daily_raw);
        let all = rates_of(&ctxs, intervals);
        extract_continuation_results(all)
    }

    /// Each session transition beside the base rates of its CS bias in its CS session (the TCS scores).
    pub fn calculate_tcs_scores_ml(&self, transitions: Vec<RateRow>, base_rates: Vec<RateRow>) -> (r: Vec<LiftRow>)
        ensures
            lift_views(r@) == lifts_of(BaseLookup::OutcomePair, row_views(transitions@), row_views(base_rates@)),
    {
        lift_rows(BaseLookup::OutcomePair, transitions, &base_rates)
    }

    /// Each bar transition beside the base rates of its CB bias in its bar number (the STCS scores).
    pub fn calculate_stcs_scores_ml(&self, transitions: Vec<RateRow>, bar_base_rates: Vec<RateRow>) -> (r: Vec<LiftRow>)
        ensures
            lift_views(r@) == lifts_of(BaseLookup::OutcomePair, row_views(transitions@), row_views(bar_base_rates@)),
    {
        lift_rows(BaseLookup::OutcomePair, transitions, &bar_base_rates)
    }

    /// Each bar-to-day outcome beside the base rate of its day type.
    pub fn calculate_bar_to_daily_lift_ml(&self, transitions: Vec<RateRow>, daily_base_rates: Vec<RateRow>) -> (r: Vec<LiftRow>)
        ensures
            lift_views(r@) == lifts_of(BaseLookup::SameOutcome, row_views(transitions@), row_views(daily_base_rates@)),
    {
        lift_rows(BaseLookup::SameOutcome, transitions, &daily_base_rates)
    }

    /// Each session-to-day outcome beside the base rate of its day type.
    pub fn calculate_session_to_daily_lift_ml(&self, transitions: Vec<RateRow>, daily_base_rates: Vec<RateRow>) -> (r: Vec<LiftRow>)
        ensures
            lift_views(r@) == lifts_of(BaseLookup::SameOutcome, row_views(transitions@), row_views(daily_base_rates@)),
    {
        lift_rows(BaseLookup::SameOutcome, transitions, &daily_base_rates)
    }

    /// Each session-to-bar outcome beside the base rates of its bar bias in its bar number.
    pub fn calculate_session_to_bar_lift_ml(&self, outcomes: Vec<RateRow>, bar_base_rates: Vec<RateRow>) -> (r: Vec<LiftRow>)
        ensures
            lift_views(r@) == lifts_of(BaseLookup::OutcomePair, row_views(outcomes@), row_views(bar_base_rates@)),
    {
        lift_rows(BaseLookup::OutcomePair, outcomes, &bar_base_rates)
    }

    /// Each 3rd-order day outcome beside the base rate of its day type.
    pub fn calculate_daily_3rd_order_lift_ml(&self, outcomes: Vec<RateRow>, daily_base_rates: Vec<RateRow>) -> (r: Vec<LiftRow>)
        ensures
            lift_views(r@) == lifts_of(BaseLookup::SameOutcome, row_views(outcomes@), row_views(daily_base_rates@)),
    {
        lift_rows(BaseLookup::SameOutcome, outcomes, &daily_base_rates)
    }

    /// Each session-extreme outcome beside the base rate of that session making that extreme.
    pub fn calculate_session_extreme_lift_ml(&self, outcomes: Vec<RateRow>, base_rates: Vec<RateRow>) -> (r: Vec<LiftRow>)
        ensures
            lift_views(r@) == lifts_of(BaseLookup::ExtremeType, row_views(outcomes@), row_views(base_rates@)),
    {
        lift_rows(BaseLookup::ExtremeType, outcomes, &base_rates)
    }

    /// Each bar-extreme outcome beside the base rate of that bar making that extreme.
    pub fn calculate_bar_extreme_lift_ml(&self, outcomes: Vec<RateRow>, base_rates: Vec<RateRow>) -> (r: Vec<LiftRow>)
        ensures
            lift_views(r@) == lifts_of(BaseLookup::ExtremeType, row_views(outcomes@), row_views(base_rates@)),
    {
        lift_rows(BaseLookup::ExtremeType, outcomes, &base_rates)
    }

    /// Rates of each day type after each bar pattern, joining every bar with
    /// the last day record of its date.
    pub fn calculate_bar_to_daily_ml(&self, eight_data: &Vec<EightContextData>, daily_outcomes: &Vec<DailyContextData>, intervals: &Vec<LookbackInterval>) -> (r: Vec<RateRow>)
        ensures
            is_rate_table(r@, observations_of(bar_day_joins(eight_data@, daily_outcomes@)), intervals_view(intervals@)),
    {
        let ctxs = join_bars_to_days(eight_data, daily_outcomes);
        rates_of(&ctxs, intervals)
    }

    /// Rates of each day type after each session pattern, joining every
    /// session with the last day record of its date.
    pub fn calculate_session_to_daily_ml(&self, session_data: &Vec<SessionContextData>, daily_outcomes: &Vec<DailyContextData>, intervals: &Vec<LookbackInterval>) -> (r: Vec<RateRow>)
        ensures
            is_rate_table(r@, observations_of(session_day_joins(session_data@, daily_outcomes@)), intervals_view(intervals@)),
    {
        let ctxs = join_sessions_to_days(session_data, daily_outcomes);
        rates_of(&ctxs, intervals)
    }

    /// Rates of each (bar number, bar bias) after each session pattern,
    /// joining every session with the bar that follows it.
    pub fn calculate_session_to_bar_ml(&self, session_contexts: &Vec<SessionContextData>, eight_hour_contexts: &Vec<EightContextData>, intervals: &Vec<LookbackInterval>) -> (r: Vec<RateRow>)
        ensures
            is_rate_table(r@, observations_of(session_bar_joins(session_contexts@, eight_hour_contexts@)), intervals_view(intervals@)),
    {
        let ctxs = join_sessions_to_bars(session_contexts, eight_hour_contexts);
        rates_of(&ctxs, intervals)
    }

    /// Rates of each day type after (PD2 type, PD1 type, PD1 weekday), over
    /// the sliding windows of three consecutive records.
    pub fn calculate_daily_3rd_order_ml(&self, daily_raw: &Vec<DailyContextData>, intervals: &Vec<LookbackInterval>) -> (r: Vec<RateRow>)
        ensures
            exists|ctxs: Seq<Daily3rdOrderContext>| third_order_windows_of(ctxs, daily_raw@) && #[trigger] is_rate_table(r@, observations_of(ctxs), intervals_view(intervals@)),
    {
        let ctxs = prepare_daily_3rd_order_contexts(daily_raw);
        rates_of(&ctxs, intervals)
    }

    /// Base rates of each session making the day's high and low, over the
    /// days whose extreme session is named.
    pub fn calculate_session_extreme_base_rates_ml(&self, daily_raw: &Vec<DailyContextData>, intervals: &Vec<LookbackInterval>) -> (r: Vec<RateRow>)
        ensures
            exists|ctxs: Seq<SessionExtremeBaseContext>|
                session_extreme_bases_of(ctxs, daily_raw@) && #[trigger] is_rate_table(r@, observations_of(ctxs), intervals_view(intervals@)),
    {
        let ctxs = session_extreme_base_contexts(daily_raw);
        rates_of(&ctxs, intervals)
    }

    /// Rates of each session making the day's high and low after each session
    /// pattern.
    pub fn calculate_session_extreme_outcome_ml(&self, session_data: &Vec<SessionContextData>, daily_extremes: &Vec<DailyContextData>, intervals: &Vec<LookbackInterval>) -> (r: Vec<RateRow>)
        ensures
            exists|ctxs: Seq<SessionExtremeContext>|
                session_extremes_of(ctxs, session_data@, daily_extremes@) && #[trigger] is_rate_table(r@, observations_of(ctxs), intervals_view(intervals@)),
    {
        let ctxs = prepare_session_extreme_contexts(session_data, daily_extremes);
        rates_of(&ctxs, intervals)
    }

    /// Base rates of each bar number making the day's high and low.
    pub fn calculate_bar_extreme_base_rates_ml(&self, daily_raw: &Vec<DailyContextData>, intervals: &Vec<LookbackInterval>) -> (r: Vec<RateRow>)
        ensures
            exists|ctxs: Seq<BarExtremeBaseContext>| bar_extreme_bases_of(ctxs, daily_raw@) && #[trigger] is_rate_table(r@, observations_of(ctxs), intervals_view(intervals@)),
    {
        let ctxs = bar_extreme_base_contexts(daily_raw);
        rates_of(&ctxs, intervals)
    }

    /// Rates of each bar number making the day's high and low after each bar
    /// pattern.
    pub fn calculate_bar_extreme_outcome_ml(&self, bar_data: &Vec<EightContextData>, daily_extremes: &Vec<DailyContextData>, intervals: &Vec<LookbackInterval>) -> (r: Vec<RateRow>)
        ensures
            exists|ctxs: Seq<BarExtremeContext>|
                bar_extremes_of(ctxs, bar_data@, daily_extremes@) && #[trigger] is_rate_table(r@, observations_of(ctxs), intervals_view(intervals@)),
    {
        let ctxs = prepare_bar_extreme_contexts(bar_data, daily_extremes);
        rates_of(&ctxs, intervals)
    }
}

} // verus!
