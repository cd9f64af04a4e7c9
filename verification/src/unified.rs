use vstd::prelude::*;
use crate::keys::{KeyPart, KeyVal, key_view, same_key};
use crate::models::valid_day;
use crate::tally::{WeightedRate, rate_key, is_weighted_table, lemma_weighted_bounds};
use crate::calculator::{MetricsCalculator, calculate_weighted_rate, tallied, input_views, day_contexts_of, weekly_contexts_of};
use crate::view_contexts::{DailyViewContext, WeeklyViewContext, SessionContext};
use crate::rate_inputs::{
    daily_base_inputs, daily_base_items, cs_base_inputs, cs_base_items, weekly_inputs, weekly_base_items,
    wcs_items, wms_items, day_inputs, dci_items, dtcr_items, wocs_inputs, wocs_items, session_inputs,
    pcs_items, tcs_items, tcs_continuation_items, high_low_inputs, high_low_items,
};

verus! {

/// Minimum weighted attempts of the daily and session rates.
pub const MIN_PATTERN_ATTEMPTS: u32 = 10;

/// Minimum weighted attempts of the weekly rates.
pub const MIN_WEEKLY_ATTEMPTS: u32 = 3;

/// The Predictive Daily Confidence Score of one 3rd-order pattern: the
/// conditional and base weighted counts (in tenths), the score in hundredths
/// and its reading.
#[derive(Debug)]
pub struct PdcsScore {
    pub asset_id: String,
    pub pd2_outcome_7: String,
    pub pd1_outcome_7: String,
    pub pd1_dow: String,
    pub day0_outcome_7: String,
    pub conditional_event_tenths: u128,
    pub conditional_total_tenths: u128,
    pub base_event_tenths: u128,
    pub base_total_tenths: u128,
    pub pdcs_hundredths: u128,
    pub insight_label: String,
}

pub struct PdcsView {
    pub asset: Seq<char>,
    pub pd2: Seq<char>,
    pub pd1: Seq<char>,
    pub dow: Seq<char>,
    pub day0: Seq<char>,
    pub cond_events: int,
    pub cond_total: int,
    pub base_events: int,
    pub base_total: int,
    pub score: int,
    pub label: Seq<char>,
}

impl View for PdcsScore {
    type V = PdcsView;

    open spec fn view(&self) -> PdcsView {
        PdcsView {
            asset: self.asset_id@,
            pd2: self.pd2_outcome_7@,
            pd1: self.pd1_outcome_7@,
            dow: self.pd1_dow@,
            day0: self.day0_outcome_7@,
            cond_events: self.conditional_event_tenths as int,
            cond_total: self.conditional_total_tenths as int,
            base_events: self.base_event_tenths as int,
            base_total: self.base_total_tenths as int,
            score: self.pdcs_hundredths as int,
            label: self.insight_label@,
        }
    }
}

pub open spec fn pdcs_views(s: Seq<PdcsScore>) -> Seq<PdcsView> {
    s.map_values(|x: PdcsScore| x@)
}

/// The text of a key component (empty for a number or a flag).
pub open spec fn text_of(k: KeyVal) -> Seq<char> {
    match k {
        KeyVal::Text(s) => s,
        _ => seq![],
    }
}

fn key_text(k: &KeyPart) -> (r: String)
    ensures
        r@ == text_of(k@),
{
    match k {
        KeyPart::Text(s) => s.clone(),
        _ => String::new(),
    }
}

/// The position of the first rate of key `key`, if any.
pub open spec fn base_position(bases: Seq<WeightedRate>, key: Seq<KeyVal>) -> Option<int>
    decreases bases.len(),
{
    if bases.len() == 0 {
        None
    } else {
        match base_position(bases.drop_last(), key) {
            Some(b) => Some(b),
            None => if rate_key(bases.last()) == key {
                Some(bases.len() - 1)
            } else {
                None
            },
        }
    }
}

proof fn lemma_base_position_prefix(bases: Seq<WeightedRate>, key: Seq<KeyVal>, n: int)
    requires
        0 <= n <= bases.len(),
        base_position(bases.take(n), key) is Some,
    ensures
        base_position(bases, key) == base_position(bases.take(n), key),
    decreases bases.len() - n,
{
    if n < bases.len() {
        assert(bases.take(n + 1).drop_last() =~= bases.take(n));
        lemma_base_position_prefix(bases, key, n + 1);
    } else {
        assert(bases.take(n) =~= bases);
    }
}

proof fn lemma_base_position_in_range(bases: Seq<WeightedRate>, key: Seq<KeyVal>)
    ensures
        base_position(bases, key) matches Some(b) ==> 0 <= b < bases.len() && rate_key(bases[b]) == key,
    decreases bases.len(),
{
    if bases.len() > 0 {
        lemma_base_position_in_range(bases.drop_last(), key);
    }
}

fn find_base(bases: &Vec<WeightedRate>, key: &Vec<KeyPart>) -> (r: Option<usize>)
    ensures
        match r {
            Some(b) => base_position(bases@, key_view(key@)) == Some(b as int) && b < bases.len(),
            None => base_position(bases@, key_view(key@)) is None,
        },
{
    let mut i: usize = 0;
    while i < bases.len()
        invariant
            i <= bases.len(),
            base_position(bases@.take(i as int), key_view(key@)) is None,
        decreases bases.len() - i,
    {
        assert(bases@.take(i + 1).drop_last() =~= bases@.take(i as int));
        if same_key(&bases[i].key, key) {
            proof { lemma_base_position_prefix(bases@, key_view(key@), i + 1); }
            return Some(i);
        }
        i = i + 1;
    }
    assert(bases@.take(bases.len() as int) =~= bases@);
    None
}

/// `(p_cond / p_base)` in hundredths, rounded half up, where `p_cond` is
/// `ce / ct` and `p_base` is `be / bt`.
pub open spec fn pdcs_hundredths_of(ce: int, ct: int, be: int, bt: int) -> int {
    (200 * ce * bt + ct * be) / (2 * ct * be)
}

/// The reading of a PDCS score in hundredths.
pub open spec fn pdcs_label(score: int) -> Seq<char> {
    if score >= 225 {
        "Extreme Confidence Signal (PDCS >= 2.25)"@
    } else if score >= 175 {
        "High-Confidence Signal (PDCS >= 1.75)"@
    } else if score < 75 {
        "Contradictory Signal/Failure Risk (PDCS < 0.75)"@
    } else {
        "Confirmatory/Expected Range"@
    }
}

fn pdcs_label_text(score: u128) -> (r: String)
    ensures
        r@ == pdcs_label(score as int),
{
    if score >= 225 {
        "Extreme Confidence Signal (PDCS >= 2.25)".to_owned()
    } else if score >= 175 {
        "High-Confidence Signal (PDCS >= 1.75)".to_owned()
    } else if score < 75 {
        "Contradictory Signal/Failure Risk (PDCS < 0.75)".to_owned()
    } else {
        "Confirmatory/Expected Range".to_owned()
    }
}

/// The score of one 3rd-order rate (asset, PD2, PD1, PD1 weekday, outcome):
/// present when the base rate of (asset, outcome) exists and has successes.
pub open spec fn pdcs_row(c: WeightedRate, bases: Seq<WeightedRate>) -> Seq<PdcsView> {
    let k = rate_key(c);
    if k.len() == 5 {
        match base_position(bases, seq![k[0], k[4]]) {
            Some(b) => if bases[b].event_tenths > 0 {
                let score = pdcs_hundredths_of(
                    c.event_tenths as int,
                    c.total_tenths as int,
                    bases[b].event_tenths as int,
                    bases[b].total_tenths as int,
                );
                seq![
                    PdcsView {
                        asset: text_of(k[0]),
                        pd2: text_of(k[1]),
                        pd1: text_of(k[2]),
                        dow: text_of(k[3]),
                        day0: text_of(k[4]),
                        cond_events: c.event_tenths as int,
                        cond_total: c.total_tenths as int,
                        base_events: bases[b].event_tenths as int,
                        base_total: bases[b].total_tenths as int,
                        score,
                        label: pdcs_label(score),
                    },
                ]
            } else {
                seq![]
            },
            None => seq![],
        }
    } else {
        seq![]
    }
}

pub open spec fn pdcs_rows(conds: Seq<WeightedRate>, bases: Seq<WeightedRate>) -> Seq<PdcsView>
    decreases conds.len(),
{
    if conds.len() == 0 {
        seq![]
    } else {
        pdcs_rows(conds.drop_last(), bases) + pdcs_row(conds.last(), bases)
    }
}

/// Largest weighted count (in tenths) the scores take: far above any table a
/// machine can hold, and small enough for exact 128-bit products.
pub open spec fn count_bound() -> int {
    0x10_0000_0000_0000
}

pub open spec fn counts_bounded(rates: Seq<WeightedRate>) -> bool {
    forall|m: int| #![trigger rates[m]] 0 <= m < rates.len() ==> rates[m].event_tenths <= count_bound()
        && rates[m].total_tenths <= count_bound()
}

/// The PDCS scores of the 3rd-order rates against the daily base rates.
pub fn calculate_pdcs(conds: &Vec<WeightedRate>, bases: &Vec<WeightedRate>) -> (r: Vec<PdcsScore>)
    requires
        counts_bounded(conds@),
        counts_bounded(bases@),
        forall|m: int| 0 <= m < conds.len() ==> #[trigger] conds@[m].total_tenths > 0,
    ensures
        pdcs_views(r@) == pdcs_rows(conds@, bases@),
{
    let mut r: Vec<PdcsScore> = Vec::new();
    let mut i: usize = 0;
    while i < conds.len()
        invariant
            i <= conds.len(),
            counts_bounded(conds@),
            counts_bounded(bases@),
            forall|m: int| 0 <= m < conds.len() ==> #[trigger] conds@[m].total_tenths > 0,
            pdcs_views(r@) == pdcs_rows(conds@.take(i as int), bases@),
        decreases conds.len() - i,
    {
        let ghost r0 = r@;
        assert(conds@.take(i + 1).drop_last() =~= conds@.take(i as int));
        let c = &conds[i];
        let ghost k = rate_key(*c);
        assert(conds@[i as int] == *c);
        if c.key.len() == 5 {
            let base_key = vec![c.key[0].copy(), c.key[4].copy()];
            assert(key_view(base_key@) =~= seq![k[0], k[4]]);
            if let Some(b) = find_base(bases, &base_key) {
                proof { lemma_base_position_in_range(bases@, seq![k[0], k[4]]); }
                let base = &bases[b];
                if base.event_tenths > 0 {
                    let ce = c.event_tenths;
                    let ct = c.total_tenths;
                    let be = base.event_tenths;
                    let bt = base.total_tenths;
                    assert(ce * bt <= 0x100_0000_0000_0000_0000_0000_0000) by (nonlinear_arith)
                        requires ce <= 0x10_0000_0000_0000, bt <= 0x10_0000_0000_0000;
                    assert(ct * be <= 0x100_0000_0000_0000_0000_0000_0000) by (nonlinear_arith)
                        requires ct <= 0x10_0000_0000_0000, be <= 0x10_0000_0000_0000;
                    assert(ct * be > 0) by (nonlinear_arith)
                        requires ct > 0, be > 0;
                    let num: u128 = 200 * (ce * bt) + ct * be;
                    let den: u128 = 2 * (ct * be);
                    let score: u128 = num / den;
                    assert(200 * (ce * bt) == 200 * ce * bt) by (nonlinear_arith);
                    assert(2 * (ct * be) == 2 * ct * be) by (nonlinear_arith);
                    let row = PdcsScore {
                        asset_id: key_text(&c.key[0]),
                        pd2_outcome_7: key_text(&c.key[1]),
                        pd1_outcome_7: key_text(&c.key[2]),
                        pd1_dow: key_text(&c.key[3]),
                        day0_outcome_7: key_text(&c.key[4]),
                        conditional_event_tenths: ce,
                        conditional_total_tenths: ct,
                        base_event_tenths: be,
                        base_total_tenths: bt,
                        pdcs_hundredths: score,
                        insight_label: pdcs_label_text(score),
                    };
                    r.push(row);
                }
            }
        }
        assert(pdcs_views(r@) =~= pdcs_views(r0) + pdcs_row(*c, bases@));
        i = i + 1;
    }
    assert(conds@.take(conds.len() as int) =~= conds@);
    r
}

/// Every weighted rate table of the unified metrics pipeline, and the PDCS
/// scores computed from two of them.
#[derive(Debug)]
pub struct PipelineRates {
    pub daily_base_rates: Vec<WeightedRate>,
    pub cs_base_rates: Vec<WeightedRate>,
    pub weekly_base_rates: Vec<WeightedRate>,
    pub wocs_d_rates: Vec<WeightedRate>,
    pub wcs_rates: Vec<WeightedRate>,
    pub wms_rates: Vec<WeightedRate>,
    pub dci_3rd_order_rates: Vec<WeightedRate>,
    pub dtcr_rates: Vec<WeightedRate>,
    pub pcs_2nd_order_rates: Vec<WeightedRate>,
    pub tcs_2nd_order_rates: Vec<WeightedRate>,
    pub high_low_session_rates: Vec<WeightedRate>,
    pub tcs_continuation_rates: Vec<WeightedRate>,
    pub pdcs_scores: Vec<PdcsScore>,
}

proof fn lemma_table_bounded(r: Seq<WeightedRate>, items: Seq<crate::tally::TallyView>, min: int)
    requires
        is_weighted_table(r, items, min),
        10 * items.len() <= count_bound(),
    ensures
        counts_bounded(r),
{
    assert forall|m: int| #![trigger r[m]] 0 <= m < r.len() implies r[m].event_tenths <= count_bound()
        && r[m].total_tenths <= count_bound() by {
        lemma_weighted_bounds(items, rate_key(r[m]));
    }
}

impl<P> MetricsCalculator<P> {
    /// Computes every weighted rate table of the unified metrics: daily,
    /// session and weekly base rates, the weekly conditional rates (from the
    /// days before a week, from the weeks before it, and by week of month),
    /// the 3rd-order daily and daily trend rates, the session rates (day type
    /// after sessions, transitions, extreme sessions, continuation), and the
    /// PDCS scores of the 3rd-order daily rates against the daily base rates.
    /// Daily and session rates need 10 weighted attempts, weekly rates 3.
    pub fn run_pipeline(
        &self,
        daily_views: &Vec<DailyViewContext>,
        weekly_views: &Vec<WeeklyViewContext>,
        session_contexts: &Vec<SessionContext>,
    ) -> (r: PipelineRates)
        requires
            daily_views.len() < 0x1_0000_0000_0000,
            forall|i: int| 0 <= i < daily_views.len() ==> valid_day(#[trigger] daily_views@[i].trading_date as int),
            forall|i: int| 0 <= i < weekly_views.len() ==> valid_day(#[trigger] weekly_views@[i].week_start as int),
            forall|i: int| 0 <= i < session_contexts.len() ==> valid_day(#[trigger] session_contexts@[i].trading_date as int),
        ensures
            is_weighted_table(r.daily_base_rates@, tallied(daily_base_items(daily_views@)), 100),
            is_weighted_table(r.cs_base_rates@, tallied(cs_base_items(session_contexts@)), 100),
            is_weighted_table(r.weekly_base_rates@, tallied(weekly_base_items(weekly_contexts_of(weekly_views@))), 30),
            is_weighted_table(
                r.wocs_d_rates@,
                tallied(wocs_items(day_contexts_of(daily_views@), weekly_views@, weekly_contexts_of(weekly_views@))),
                30,
            ),
            is_weighted_table(r.wcs_rates@, tallied(wcs_items(weekly_contexts_of(weekly_views@))), 30),
            is_weighted_table(r.wms_rates@, tallied(wms_items(weekly_contexts_of(weekly_views@))), 30),
            is_weighted_table(r.dci_3rd_order_rates@, tallied(dci_items(day_contexts_of(daily_views@))), 100),
            is_weighted_table(r.dtcr_rates@, tallied(dtcr_items(day_contexts_of(daily_views@))), 100),
            is_weighted_table(r.pcs_2nd_order_rates@, tallied(pcs_items(session_contexts@, daily_views@)), 100),
            is_weighted_table(r.tcs_2nd_order_rates@, tallied(tcs_items(session_contexts@)), 100),
            is_weighted_table(r.high_low_session_rates@, tallied(high_low_items(daily_views@, session_contexts@)), 100),
            is_weighted_table(r.tcs_continuation_rates@, tallied(tcs_continuation_items(session_contexts@)), 100),
            pdcs_views(r.pdcs_scores@) == pdcs_rows(r.dci_3rd_order_rates@, r.daily_base_rates@),
    {
        let day_context = self.generate_day_context(daily_views);
        let weekly_context = self.generate_weekly_context(weekly_views);

        let daily_in = daily_base_inputs(daily_views);
        let daily_base_rates = calculate_weighted_rate(&daily_in, MIN_PATTERN_ATTEMPTS);
        let cs_in = cs_base_inputs(session_contexts);
        let cs_base_rates = calculate_weighted_rate(&cs_in, MIN_PATTERN_ATTEMPTS);

        let (weekly_in, wcs_in, wms_in) = weekly_inputs(&weekly_context);
        let weekly_base_rates = calculate_weighted_rate(&weekly_in, MIN_WEEKLY_ATTEMPTS);
        let wocs_in = wocs_inputs(&day_context, weekly_views, &weekly_context);
        let wocs_d_rates = calculate_weighted_rate(&wocs_in, MIN_WEEKLY_ATTEMPTS);
        let wcs_rates = calculate_weighted_rate(&wcs_in, MIN_WEEKLY_ATTEMPTS);
        let wms_rates = calculate_weighted_rate(&wms_in, MIN_WEEKLY_ATTEMPTS);

        let (dci_in, dtcr_in) = day_inputs(&day_context);
        let dci_3rd_order_rates = calculate_weighted_rate(&dci_in, MIN_PATTERN_ATTEMPTS);
        let dtcr_rates = calculate_weighted_rate(&dtcr_in, MIN_PATTERN_ATTEMPTS);

        let (pcs_in, tcs_in, cont_in) = session_inputs(session_contexts, daily_views);
        let pcs_2nd_order_rates = calculate_weighted_rate(&pcs_in, MIN_PATTERN_ATTEMPTS);
        let tcs_2nd_order_rates = calculate_weighted_rate(&tcs_in, MIN_PATTERN_ATTEMPTS);
        let hl_in = high_low_inputs(daily_views, session_contexts);
        let high_low_session_rates = calculate_weighted_rate(&hl_in, MIN_PATTERN_ATTEMPTS);
        let tcs_continuation_rates = calculate_weighted_rate(&cont_in, MIN_PATTERN_ATTEMPTS);

        proof {
            lemma_table_bounded(dci_3rd_order_rates@, tallied(input_views(dci_in@)), 100);
            lemma_table_bounded(daily_base_rates@, tallied(input_views(daily_in@)), 100);
        }
        let pdcs_scores = calculate_pdcs(&dci_3rd_order_rates, &daily_base_rates);
        PipelineRates {
            daily_base_rates,
            cs_base_rates,
            weekly_base_rates,
            wocs_d_rates,
            wcs_rates,
            wms_rates,
            dci_3rd_order_rates,
            dtcr_rates,
            pcs_2nd_order_rates,
            tcs_2nd_order_rates,
            high_low_session_rates,
            tcs_continuation_rates,
            pdcs_scores,
        }
    }
}

} // verus!
