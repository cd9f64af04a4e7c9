use vstd::prelude::*;
use crate::models::{LookbackInterval, SessionContextData, EightContextData, DailyContextData};
use crate::rates::{RateRow, LiftRow, BaseLookup, is_rate_table, intervals_view, lifts_of, lift_views, row_views, continuation_rows, copy_rows};
use crate::contexts::{
    observations_of, BaseRateSessionContext, BarBaseRateContext, DailyBaseRateContext, Transition2ndOrderContext,
    Transition2ndOrderBarContext, SessionContinuationContext, BarContinuationContext, DailyContinuationContext,
    Daily3rdOrderContext, SessionExtremeBaseContext, SessionExtremeContext, BarExtremeBaseContext, BarExtremeContext,
};
use crate::service::MetricsService;
use crate::windows::{third_order_windows_of, continuation_windows_of};
use crate::joins::{bar_day_joins, session_day_joins, session_bar_joins, session_extreme_bases_of, bar_extreme_bases_of};
use crate::prepare::{session_extremes_of, bar_extremes_of};

verus! {

/// Every metric table of one asset's pipeline run.
pub struct AssetMetrics {
    pub session_base_rates: Vec<RateRow>,
    pub bar_base_rates: Vec<RateRow>,
    pub daily_base_rates: Vec<RateRow>,
    pub extreme_base: Vec<RateRow>,
    pub transition_2nd_order: Vec<RateRow>,
    pub tcs_2nd_order: Vec<LiftRow>,
    pub bar_transition_2nd_order: Vec<RateRow>,
    pub stcs_2nd_order: Vec<LiftRow>,
    pub bar_to_daily_outcome: Vec<RateRow>,
    pub bar_to_daily_lift: Vec<LiftRow>,
    pub session_to_daily_outcome: Vec<RateRow>,
    pub session_to_daily_lift: Vec<LiftRow>,
    pub session_to_bar_outcome: Vec<RateRow>,
    pub session_to_bar_lift: Vec<LiftRow>,
    pub daily_3rd_outcome: Vec<RateRow>,
    pub daily_3rd_lift: Vec<LiftRow>,
    pub session_continuation: Vec<RateRow>,
    pub bar_continuation: Vec<RateRow>,
    pub daily_continuation: Vec<RateRow>,
    pub extreme_outcome: Vec<RateRow>,
    pub extreme_lift: Vec<LiftRow>,
    pub bar_extreme_base: Vec<RateRow>,
    pub bar_extreme_outcome: Vec<RateRow>,
    pub bar_extreme_lift: Vec<LiftRow>,
}

/// What every table of a pipeline run holds, each as its metric defines it.
pub open spec fn is_asset_metrics(
    m: AssetMetrics,
    sessions: Seq<SessionContextData>,
    bars: Seq<EightContextData>,
    days: Seq<DailyContextData>,
    intervals: Seq<LookbackInterval>,
) -> bool {
    let iv = intervals_view(intervals);
    &&& is_rate_table(m.session_base_rates@, observations_of(sessions.map_values(|s: SessionContextData| (BaseRateSessionContext { inner: s }))), iv)
    &&& is_rate_table(m.bar_base_rates@, observations_of(bars.map_values(|s: EightContextData| (BarBaseRateContext { inner: s }))), iv)
    &&& is_rate_table(m.daily_base_rates@, observations_of(days.map_values(|s: DailyContextData| (DailyBaseRateContext { inner: s }))), iv)
    &&& exists|c: Seq<SessionExtremeBaseContext>| session_extreme_bases_of(c, days) && #[trigger] is_rate_table(m.extreme_base@, observations_of(c), iv)
    &&& is_rate_table(m.transition_2nd_order@, observations_of(sessions.map_values(|s: SessionContextData| (Transition2ndOrderContext { inner: s }))), iv)
    &&& lift_views(m.tcs_2nd_order@) == lifts_of(BaseLookup::OutcomePair, row_views(m.transition_2nd_order@), row_views(m.session_base_rates@))
    &&& is_rate_table(m.bar_transition_2nd_order@, observations_of(bars.map_values(|s: EightContextData| (Transition2ndOrderBarContext { inner: s }))), iv)
    &&& lift_views(m.stcs_2nd_order@) == lifts_of(BaseLookup::OutcomePair, row_views(m.bar_transition_2nd_order@), row_views(m.bar_base_rates@))
    &&& is_rate_table(m.bar_to_daily_outcome@, observations_of(bar_day_joins(bars, days)), iv)
    &&& lift_views(m.bar_to_daily_lift@) == lifts_of(BaseLookup::SameOutcome, row_views(m.bar_to_daily_outcome@), row_views(m.daily_base_rates@))
    &&& is_rate_table(m.session_to_daily_outcome@, observations_of(session_day_joins(sessions, days)), iv)
    &&& lift_views(m.session_to_daily_lift@) == lifts_of(BaseLookup::SameOutcome, row_views(m.session_to_daily_outcome@), row_views(m.daily_base_rates@))
    &&& is_rate_table(m.session_to_bar_outcome@, observations_of(session_bar_joins(sessions, bars)), iv)
    &&& lift_views(m.session_to_bar_lift@) == lifts_of(BaseLookup::OutcomePair, row_views(m.session_to_bar_outcome@), row_views(m.bar_base_rates@))
    &&& exists|c: Seq<Daily3rdOrderContext>| third_order_windows_of(c, days) && #[trigger] is_rate_table(m.daily_3rd_outcome@, observations_of(c), iv)
    &&& lift_views(m.daily_3rd_lift@) == lifts_of(BaseLookup::SameOutcome, row_views(m.daily_3rd_outcome@), row_views(m.daily_base_rates@))
    &&& exists|all: Seq<RateRow>|
        is_rate_table(all, observations_of(sessions.map_values(|s: SessionContextData| (SessionContinuationContext { inner: s }))), iv)
        && m.session_continuation@ == #[trigger] continuation_rows(all)
    &&& exists|all: Seq<RateRow>|
        is_rate_table(all, observations_of(bars.map_values(|s: EightContextData| (BarContinuationContext { inner: s }))), iv)
        && m.bar_continuation@ == #[trigger] continuation_rows(all)
    &&& exists|c: Seq<DailyContinuationContext>, all: Seq<RateRow>| continuation_windows_of(c, days) && #[trigger] is_rate_table(all, observations_of(c), iv)
        && m.daily_continuation@ == continuation_rows(all)
    &&& exists|c: Seq<SessionExtremeContext>| session_extremes_of(c, sessions, days) && #[trigger] is_rate_table(m.extreme_outcome@, observations_of(c), iv)
    &&& lift_views(m.extreme_lift@) == lifts_of(BaseLookup::ExtremeType, row_views(m.extreme_outcome@), row_views(m.extreme_base@))
    &&& exists|c: Seq<BarExtremeBaseContext>| bar_extreme_bases_of(c, days) && #[trigger] is_rate_table(m.bar_extreme_base@, observations_of(c), iv)
    &&& exists|c: Seq<BarExtremeContext>| bar_extremes_of(c, bars, days) && #[trigger] is_rate_table(m.bar_extreme_outcome@, observations_of(c), iv)
    &&& lift_views(m.bar_extreme_lift@) == lifts_of(BaseLookup::ExtremeType, row_views(m.bar_extreme_outcome@), row_views(m.bar_extreme_base@))
}

impl<P> MetricsService<P> {
    /// Computes every metric table of one asset from its session, bar and day
    /// records; nothing when any of the three is empty.
    pub fn compute_asset_metrics(
        &self,
        session_contexts: &Vec<SessionContextData>,
        bar_contexts: &Vec<EightContextData>,
        daily_contexts: &Vec<DailyContextData>,
        intervals: &Vec<LookbackInterval>,
    ) -> (r: Option<AssetMetrics>)
        ensures
            r is None <==> (session_contexts@.len() == 0 || bar_contexts@.len() == 0 || daily_contexts@.len() == 0),
            r matches Some(m) ==> is_asset_metrics(m, session_contexts@, bar_contexts@, daily_contexts@, intervals@),
    {
        if session_contexts.len() == 0 || bar_contexts.len() == 0 || daily_contexts.len() == 0 {
            return None;
        }
        let session_base_rates = self.calculate_cs_base_rates_ml(session_contexts, intervals);
        let bar_base_rates = self.calculate_bar_base_rates_ml(bar_contexts, intervals);
        let daily_base_rates = self.calculate_daily_base_rates_ml(daily_contexts, intervals);
        let extreme_base = self.calculate_session_extreme_base_rates_ml(daily_contexts, intervals);
        let transition_2nd_order = self.calculate_transition_2nd_order_ml(session_contexts, intervals);
        let tcs_2nd_order = self.calculate_tcs_scores_ml(copy_rows(&transition_2nd_order), copy_rows(&session_base_rates));
        let bar_transition_2nd_order = self.calculate_bar_transition_2nd_order_ml(bar_contexts, intervals);
        let stcs_2nd_order = self.calculate_stcs_scores_ml(copy_rows(&bar_transition_2nd_order), copy_rows(&bar_base_rates));
        let bar_to_daily_outcome = self.calculate_bar_to_daily_ml(bar_contexts, daily_contexts, intervals);
        let bar_to_daily_lift = self.calculate_bar_to_daily_lift_ml(copy_rows(&bar_to_daily_outcome), copy_rows(&daily_base_rates));
        let session_to_daily_outcome = self.calculate_session_to_daily_ml(session_contexts, daily_contexts, intervals);
        let session_to_daily_lift = self.calculate_session_to_daily_lift_ml(copy_rows(&session_to_daily_outcome), copy_rows(&daily_base_rates));
        let session_to_bar_outcome = self.calculate_session_to_bar_ml(session_contexts, bar_contexts, intervals);
        let session_to_bar_lift = self.calculate_session_to_bar_lift_ml(copy_rows(&session_to_bar_outcome), copy_rows(&bar_base_rates));
        let daily_3rd_outcome = self.calculate_daily_3rd_order_ml(daily_contexts, intervals);
        let daily_3rd_lift = self.calculate_daily_3rd_order_lift_ml(copy_rows(&daily_3rd_outcome), copy_rows(&daily_base_rates));
        let session_continuation = self.calculate_session_continuation_ml(session_contexts, intervals);
        let bar_continuation = self.calculate_bar_continuation_ml(bar_contexts, intervals);
        let daily_continuation = self.calculate_daily_continuation_ml(daily_contexts, intervals);
        let extreme_outcome = self.calculate_session_extreme_outcome_ml(session_contexts, daily_contexts, intervals);
        let extreme_lift = self.calculate_session_extreme_lift_ml(copy_rows(&extreme_outcome), copy_rows(&extreme_base));
        let bar_extreme_base = self.calculate_bar_extreme_base_rates_ml(daily_contexts, intervals);
        let bar_extreme_outcome = self.calculate_bar_extreme_outcome_ml(bar_contexts, daily_contexts, intervals);
        let bar_extreme_lift = self.calculate_bar_extreme_lift_ml(copy_rows(&bar_extreme_outcome), copy_rows(&bar_extreme_base));
        let ghost iv = intervals_view(intervals@);
        let ghost c1 = choose|c: Seq<SessionExtremeBaseContext>| session_extreme_bases_of(c, daily_contexts@) && #[trigger] is_rate_table(extreme_base@, observations_of(c), iv);
        let ghost c2 = choose|c: Seq<SessionExtremeContext>| session_extremes_of(c, session_contexts@, daily_contexts@) && #[trigger] is_rate_table(extreme_outcome@, observations_of(c), iv);
        let ghost c3 = choose|c: Seq<BarExtremeBaseContext>| bar_extreme_bases_of(c, daily_contexts@) && #[trigger] is_rate_table(bar_extreme_base@, observations_of(c), iv);
        let ghost c4 = choose|c: Seq<Daily3rdOrderContext>| third_order_windows_of(c, daily_contexts@) && #[trigger] is_rate_table(daily_3rd_outcome@, observations_of(c), iv);
        let ghost c5 = choose|c: Seq<BarExtremeContext>| bar_extremes_of(c, bar_contexts@, daily_contexts@) && #[trigger] is_rate_table(bar_extreme_outcome@, observations_of(c), iv);
        let ghost a6 = choose|all: Seq<RateRow>|
            is_rate_table(all, observations_of(session_contexts@.map_values(|s: SessionContextData| (SessionContinuationContext { inner: s }))), iv)
            && session_continuation@ == #[trigger] continuation_rows(all);
        let ghost a7 = choose|all: Seq<RateRow>|
            is_rate_table(all, observations_of(bar_contexts@.map_values(|s: EightContextData| (BarContinuationContext { inner: s }))), iv)
            && bar_continuation@ == #[trigger] continuation_rows(all);
        let ghost (c8, a8) = choose|c: Seq<DailyContinuationContext>, all: Seq<RateRow>| continuation_windows_of(c, daily_contexts@) && #[trigger] is_rate_table(all, observations_of(c), iv) && daily_continuation@ == continuation_rows(all);
        let m = AssetMetrics {
            session_base_rates,
            bar_base_rates,
            daily_base_rates,
            extreme_base,
            transition_2nd_order,
            tcs_2nd_order,
            bar_transition_2nd_order,
            stcs_2nd_order,
            bar_to_daily_outcome,
            bar_to_daily_lift,
            session_to_daily_outcome,
            session_to_daily_lift,
            session_to_bar_outcome,
            session_to_bar_lift,
            daily_3rd_outcome,
            daily_3rd_lift,
            session_continuation,
            bar_continuation,
            daily_continuation,
            extreme_outcome,
            extreme_lift,
            bar_extreme_base,
            bar_extreme_outcome,
            bar_extreme_lift,
        };
        assert(session_extreme_bases_of(c1, daily_contexts@) && is_rate_table(m.extreme_base@, observations_of(c1), iv));
        assert(session_extremes_of(c2, session_contexts@, daily_contexts@) && is_rate_table(m.extreme_outcome@, observations_of(c2), iv));
        assert(bar_extreme_bases_of(c3, daily_contexts@) && is_rate_table(m.bar_extreme_base@, observations_of(c3), iv));
        assert(third_order_windows_of(c4, daily_contexts@) && is_rate_table(m.daily_3rd_outcome@, observations_of(c4), iv));
        assert(bar_extremes_of(c5, bar_contexts@, daily_contexts@) && is_rate_table(m.bar_extreme_outcome@, observations_of(c5), iv));
        assert(m.session_continuation@ == continuation_rows(a6));
        assert(m.bar_continuation@ == continuation_rows(a7));
        assert(continuation_windows_of(c8, daily_contexts@) && is_rate_table(a8, observations_of(c8), iv) && m.daily_continuation@ == continuation_rows(a8));
        Some(m)
    }
}

} // verus!
