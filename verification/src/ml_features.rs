use vstd::prelude::*;
use crate::keys::{KeyPart, KeyVal, key_view};
use crate::models::LookbackInterval;
use crate::aggregate::{Observation, ObsView, obs_views};
use crate::rates::{RateRow, IntervalView, is_rate_table, intervals_view, rate_table, continuation_rows, extract_continuation_results};
use crate::ordering::stable_order;
use crate::calculator::{daily_sort_keys, day_contexts_of};
use crate::view_contexts::{DailyViewContext, SessionContext, DayContext, DayContextView, day_context_views, day_contexts_in_order};
use crate::rate_inputs::{tx, or_empty, first_session, strong_continuation, find_session, is_strong_continuation};

verus! {

/// Minimum raw attempts of a pattern for its feature rates.
pub const MIN_FEATURE_ATTEMPTS: u32 = 10;

/// The observations of a list of per-entry observation lists, in order.
pub open spec fn joined_obs(s: Seq<Seq<ObsView>>) -> Seq<ObsView>
    decreases s.len(),
{
    if s.len() == 0 {
        seq![]
    } else {
        joined_obs(s.drop_last()) + s.last()
    }
}

proof fn lemma_joined_obs_step(s: Seq<Seq<ObsView>>, i: int)
    requires
        0 <= i < s.len(),
    ensures
        joined_obs(s.take(i + 1)) == joined_obs(s.take(i)) + s[i],
{
    assert(s.take(i + 1).drop_last() =~= s.take(i));
}

/// The single window of the raw feature rates: all history.
pub open spec fn whole_history_view() -> Seq<IntervalView> {
    seq![IntervalView { name: "ALL"@, weight_pct: 100, start: i32::MIN as int }]
}

fn whole_history() -> (r: Vec<LookbackInterval>)
    ensures
        intervals_view(r@) == whole_history_view(),
{
    let r = vec![LookbackInterval { name: "ALL".to_owned(), weight_pct: 100, start_date: i32::MIN }];
    assert(intervals_view(r@) =~= whole_history_view());
    r
}

/// The rows whose pattern was attempted at least `min` times, in order.
pub open spec fn reliable_rows(rows: Seq<RateRow>, min: int) -> Seq<RateRow>
    decreases rows.len(),
{
    if rows.len() == 0 {
        seq![]
    } else {
        let rest = reliable_rows(rows.drop_last(), min);
        if rows.last().all_history.total >= min {
            rest.push(rows.last())
        } else {
            rest
        }
    }
}

fn keep_reliable(rows: Vec<RateRow>, min: u128) -> (r: Vec<RateRow>)
    ensures
        r@ == reliable_rows(rows@, min as int),
{
    let ghost orig = rows@;
    let mut rows = rows;
    let mut out: Vec<RateRow> = Vec::new();
    let ghost mut k: int = 0;
    while rows.len() > 0
        invariant
            0 <= k <= orig.len(),
            rows@ == orig.skip(k),
            out@ == reliable_rows(orig.take(k), min as int),
        decreases rows.len(),
    {
        let row = rows.remove(0);
        proof {
            assert(row == orig[k]);
            assert(orig.take(k + 1).drop_last() =~= orig.take(k));
            assert(orig.take(k + 1).last() == orig[k]);
        }
        if row.all_history.total >= min {
            out.push(row);
        }
        proof {
            assert(rows@ =~= orig.skip(k + 1));
            k = k + 1;
        }
    }
    assert(orig.take(k) =~= orig);
    out
}

/// The raw conditional rates of a set of observations: over all history, each
/// (asset, pattern, outcome) with its count and its pattern's attempts, for
/// the patterns attempted at least `min` times.
pub open spec fn is_raw_rate_table(r: Seq<RateRow>, obs: Seq<ObsView>, min: int) -> bool {
    exists|all: Seq<RateRow>| #[trigger] is_rate_table(all, obs, whole_history_view()) && r == reliable_rows(all, min)
}

/// Counts each (asset, pattern, outcome) and each (asset, pattern) over all
/// history, without time weighting, and keeps the patterns attempted at
/// least `min_attempts` times.
pub fn raw_conditional_rates(obs: &Vec<Observation>, min_attempts: u32) -> (r: Vec<RateRow>)
    ensures
        is_raw_rate_table(r@, obs_views(obs@), min_attempts as int),
{
    let iv = whole_history();
    let all = rate_table(obs, &iv);
    let ghost a = all@;
    let r = keep_reliable(all, min_attempts as u128);
    assert(is_rate_table(a, obs_views(obs@), whole_history_view()) && r@ == reliable_rows(a, min_attempts as int));
    r
}

/// Observation of a day for the daily features: after (PD2, PD1, PD1 weekday),
/// the day's outcome.
pub open spec fn dci_obs(d: DayContextView) -> Seq<ObsView> {
    if d.pd2 is Some && d.pd1 is Some && d.pd1_dow is Some {
        seq![
            ObsView {
                asset: d.asset,
                date: d.date,
                pattern: Some(seq![tx(d.pd2->0), tx(d.pd1->0), tx(d.pd1_dow->0)]),
                outcome: Some(seq![tx(d.day0)]),
            },
        ]
    } else {
        seq![]
    }
}

/// Observation of a session for the transition features: after (PS2 name,
/// PS2 bias, PS1 name, PS1 bias), the (CS name, CS bias), where all six exist.
pub open spec fn tcs_obs(c: SessionContext) -> Seq<ObsView> {
    if c.ps2_name is Some && c.ps2_bias_7 is Some && c.ps1_name is Some && c.ps1_bias_7 is Some && c.cs_name is Some
        && c.cs_bias_7 is Some {
        seq![
            ObsView {
                asset: c.asset_id@,
                date: c.trading_date as int,
                pattern: Some(
                    seq![
                        tx(or_empty(c.ps2_name)),
                        tx(or_empty(c.ps2_bias_7)),
                        tx(or_empty(c.ps1_name)),
                        tx(or_empty(c.ps1_bias_7)),
                    ],
                ),
                outcome: Some(seq![tx(or_empty(c.cs_name)), tx(or_empty(c.cs_bias_7))]),
            },
        ]
    } else {
        seq![]
    }
}

/// Observations of a day for the extreme-session features: where the day has
/// a high and a low session and its first session context has both previous
/// session names, after (PS2 name, PS2 bias, PS1 name, PS1 bias, "High") the
/// high session, and the same with "Low" and the low session.
pub open spec fn high_low_obs(v: DailyViewContext, sessions: Seq<SessionContext>) -> Seq<ObsView> {
    if v.high_session is Some && v.low_session is Some {
        match first_session(sessions, v.asset_id@, v.trading_date as int) {
            Some(j) => {
                let c = sessions[j];
                if c.ps2_name is Some && c.ps1_name is Some {
                    let base = seq![
                        tx(or_empty(c.ps2_name)),
                        tx(or_empty(c.ps2_bias_7)),
                        tx(or_empty(c.ps1_name)),
                        tx(or_empty(c.ps1_bias_7)),
                    ];
                    seq![
                        ObsView {
                            asset: v.asset_id@,
                            date: v.trading_date as int,
                            pattern: Some(base.push(tx("High"@))),
                            outcome: Some(seq![tx(or_empty(v.high_session))]),
                        },
                        ObsView {
                            asset: v.asset_id@,
                            date: v.trading_date as int,
                            pattern: Some(base.push(tx("Low"@))),
                            outcome: Some(seq![tx(or_empty(v.low_session))]),
                        },
                    ]
                } else {
                    seq![]
                }
            },
            None => seq![],
        }
    } else {
        seq![]
    }
}

/// Observation of a session for the continuation features: after (PS2 name,
/// PS2 bias, PS1 name, PS1 bias), whether CS continues PS1.
pub open spec fn continuation_obs(c: SessionContext) -> Seq<ObsView> {
    if c.ps1_bias_7 is Some && c.cs_bias_7 is Some {
        seq![
            ObsView {
                asset: c.asset_id@,
                date: c.trading_date as int,
                pattern: Some(
                    seq![
                        tx(or_empty(c.ps2_name)),
                        tx(or_empty(c.ps2_bias_7)),
                        tx(or_empty(c.ps1_name)),
                        tx(or_empty(c.ps1_bias_7)),
                    ],
                ),
                outcome: Some(seq![KeyVal::Flag(strong_continuation(or_empty(c.ps1_bias_7), or_empty(c.cs_bias_7)))]),
            },
        ]
    } else {
        seq![]
    }
}

pub open spec fn dci_observations(s: Seq<DayContextView>) -> Seq<ObsView> {
    joined_obs(s.map_values(|x: DayContextView| dci_obs(x)))
}

pub open spec fn tcs_observations(s: Seq<SessionContext>) -> Seq<ObsView> {
    joined_obs(s.map_values(|x: SessionContext| tcs_obs(x)))
}

pub open spec fn high_low_observations(days: Seq<DailyViewContext>, sessions: Seq<SessionContext>) -> Seq<ObsView> {
    joined_obs(days.map_values(|x: DailyViewContext| high_low_obs(x, sessions)))
}

pub open spec fn continuation_observations(s: Seq<SessionContext>) -> Seq<ObsView> {
    joined_obs(s.map_values(|x: SessionContext| continuation_obs(x)))
}

fn opt_text(o: &Option<String>) -> (r: String)
    ensures
        r@ == or_empty(*o),
{
    match o {
        Some(x) => x.clone(),
        None => String::new(),
    }
}

fn dci_observations_of(days: &Vec<DayContext>) -> (r: Vec<Observation>)
    ensures
        obs_views(r@) == dci_observations(day_context_views(days@)),
{
    let ghost dv = day_context_views(days@);
    let ghost l = dv.map_values(|x: DayContextView| dci_obs(x));
    let mut r: Vec<Observation> = Vec::new();
    let mut i: usize = 0;
    while i < days.len()
        invariant
            i <= days.len(),
            dv == day_context_views(days@),
            l == dv.map_values(|x: DayContextView| dci_obs(x)),
            obs_views(r@) == joined_obs(l.take(i as int)),
        decreases days.len() - i,
    {
        let ghost r0 = r@;
        proof { lemma_joined_obs_step(l, i as int); }
        let d = &days[i];
        assert(dv[i as int] == d@);
        if let (Some(p2), Some(p1), Some(dow)) = (&d.pd2_outcome_7, &d.pd1_outcome_7, &d.pd1_dow) {
            let pattern = vec![KeyPart::Text(p2.clone()), KeyPart::Text(p1.clone()), KeyPart::Text(dow.clone())];
            let outcome = vec![KeyPart::Text(d.day0_outcome_7.clone())];
            assert(key_view(pattern@) =~= seq![tx(d@.pd2->0), tx(d@.pd1->0), tx(d@.pd1_dow->0)]);
            assert(key_view(outcome@) =~= seq![tx(d@.day0)]);
            r.push(Observation {
                asset_id: d.asset_id.clone(),
                date: d.trading_date,
                pattern: Some(pattern),
                outcome: Some(outcome),
            });
        }
        assert(obs_views(r@) =~= obs_views(r0) + l[i as int]);
        i = i + 1;
    }
    assert(l.take(days.len() as int) =~= l);
    r
}

fn session_observations_of(sessions: &Vec<SessionContext>) -> (r: (Vec<Observation>, Vec<Observation>))
    ensures
        obs_views(r.0@) == tcs_observations(sessions@),
        obs_views(r.1@) == continuation_observations(sessions@),
{
    let ghost l0 = sessions@.map_values(|x: SessionContext| tcs_obs(x));
    let ghost l1 = sessions@.map_values(|x: SessionContext| continuation_obs(x));
    let mut r0: Vec<Observation> = Vec::new();
    let mut r1: Vec<Observation> = Vec::new();
    let mut i: usize = 0;
    while i < sessions.len()
        invariant
            i <= sessions.len(),
            l0 == sessions@.map_values(|x: SessionContext| tcs_obs(x)),
            l1 == sessions@.map_values(|x: SessionContext| continuation_obs(x)),
            obs_views(r0@) == joined_obs(l0.take(i as int)),
            obs_views(r1@) == joined_obs(l1.take(i as int)),
        decreases sessions.len() - i,
    {
        let ghost s0 = r0@;
        let ghost s1 = r1@;
        proof {
            lemma_joined_obs_step(l0, i as int);
            lemma_joined_obs_step(l1, i as int);
        }
        let c = &sessions[i];
        let ps2n = opt_text(&c.ps2_name);
        let ps2b = opt_text(&c.ps2_bias_7);
        let ps1n = opt_text(&c.ps1_name);
        let ps1b = opt_text(&c.ps1_bias_7);
        let csn = opt_text(&c.cs_name);
        let csb = opt_text(&c.cs_bias_7);
        if c.ps2_name.is_some() && c.ps2_bias_7.is_some() && c.ps1_name.is_some() && c.ps1_bias_7.is_some()
            && c.cs_name.is_some() && c.cs_bias_7.is_some() {
            let pattern = vec![
                KeyPart::Text(ps2n.clone()),
                KeyPart::Text(ps2b.clone()),
                KeyPart::Text(ps1n.clone()),
                KeyPart::Text(ps1b.clone()),
            ];
            let outcome = vec![KeyPart::Text(csn), KeyPart::Text(csb.clone())];
            assert(key_view(pattern@) =~= seq![
                tx(or_empty(c.ps2_name)),
                tx(or_empty(c.ps2_bias_7)),
                tx(or_empty(c.ps1_name)),
                tx(or_empty(c.ps1_bias_7)),
            ]);
            assert(key_view(outcome@) =~= seq![tx(or_empty(c.cs_name)), tx(or_empty(c.cs_bias_7))]);
            r0.push(Observation {
                asset_id: c.asset_id.clone(),
                date: c.trading_date,
                pattern: Some(pattern),
                outcome: Some(outcome),
            });
        }
        if c.ps1_bias_7.is_some() && c.cs_bias_7.is_some() {
            let cont = is_strong_continuation(&ps1b, &csb);
            let pattern = vec![KeyPart::Text(ps2n), KeyPart::Text(ps2b), KeyPart::Text(ps1n), KeyPart::Text(ps1b)];
            let outcome = vec![KeyPart::Flag(cont)];
            assert(key_view(pattern@) =~= seq![
                tx(or_empty(c.ps2_name)),
                tx(or_empty(c.ps2_bias_7)),
                tx(or_empty(c.ps1_name)),
                tx(or_empty(c.ps1_bias_7)),
            ]);
            assert(key_view(outcome@) =~= seq![KeyVal::Flag(strong_continuation(or_empty(c.ps1_bias_7), or_empty(c.cs_bias_7)))]);
            r1.push(Observation {
                asset_id: c.asset_id.clone(),
                date: c.trading_date,
                pattern: Some(pattern),
                outcome: Some(outcome),
            });
        }
        assert(obs_views(r0@) =~= obs_views(s0) + l0[i as int]);
        assert(obs_views(r1@) =~= obs_views(s1) + l1[i as int]);
        i = i + 1;
    }
    assert(l0.take(sessions.len() as int) =~= l0);
    assert(l1.take(sessions.len() as int) =~= l1);
    (r0, r1)
}

fn high_low_observations_of(days: &Vec<DailyViewContext>, sessions: &Vec<SessionContext>) -> (r: Vec<Observation>)
    ensures
        obs_views(r@) == high_low_observations(days@, sessions@),
{
    let ghost l = days@.map_values(|x: DailyViewContext| high_low_obs(x, sessions@));
    let mut r: Vec<Observation> = Vec::new();
    let mut i: usize = 0;
    while i < days.len()
        invariant
            i <= days.len(),
            l == days@.map_values(|x: DailyViewContext| high_low_obs(x, sessions@)),
            obs_views(r@) == joined_obs(l.take(i as int)),
        decreases days.len() - i,
    {
        let ghost r0 = r@;
        proof { lemma_joined_obs_step(l, i as int); }
        let v = &days[i];
        if let (Some(high), Some(low)) = (&v.high_session, &v.low_session) {
            if let Some(j) = find_session(sessions, &v.asset_id, v.trading_date) {
                let c = &sessions[j];
                if c.ps2_name.is_some() && c.ps1_name.is_some() {
                    let ghost cj = sessions@[j as int];
                    let ghost base = seq![
                        tx(or_empty(cj.ps2_name)),
                        tx(or_empty(cj.ps2_bias_7)),
                        tx(or_empty(cj.ps1_name)),
                        tx(or_empty(cj.ps1_bias_7)),
                    ];
                    let ph = vec![
                        KeyPart::Text(opt_text(&c.ps2_name)),
                        KeyPart::Text(opt_text(&c.ps2_bias_7)),
                        KeyPart::Text(opt_text(&c.ps1_name)),
                        KeyPart::Text(opt_text(&c.ps1_bias_7)),
                        KeyPart::Text("High".to_owned()),
                    ];
                    let pl = vec![
                        KeyPart::Text(opt_text(&c.ps2_name)),
                        KeyPart::Text(opt_text(&c.ps2_bias_7)),
                        KeyPart::Text(opt_text(&c.ps1_name)),
                        KeyPart::Text(opt_text(&c.ps1_bias_7)),
                        KeyPart::Text("Low".to_owned()),
                    ];
                    let oh = vec![KeyPart::Text(high.clone())];
                    let ol = vec![KeyPart::Text(low.clone())];
                    assert(key_view(ph@) =~= base.push(tx("High"@)));
                    assert(key_view(pl@) =~= base.push(tx("Low"@)));
                    assert(key_view(oh@) =~= seq![tx(or_empty(v.high_session))]);
                    assert(key_view(ol@) =~= seq![tx(or_empty(v.low_session))]);
                    r.push(Observation { asset_id: v.asset_id.clone(), date: v.trading_date, pattern: Some(ph), outcome: Some(oh) });
                    r.push(Observation { asset_id: v.asset_id.clone(), date: v.trading_date, pattern: Some(pl), outcome: Some(ol) });
                }
            }
        }
        assert(obs_views(r@) =~= obs_views(r0) + l[i as int]);
        i = i + 1;
    }
    assert(l.take(days.len() as int) =~= l);
    r
}

/// The raw (unweighted) ML feature rates of one run.
#[derive(Debug)]
pub struct MlFeatureRates {
    pub dci: Vec<RateRow>,
    pub tcs: Vec<RateRow>,
    pub high_low: Vec<RateRow>,
    pub continuation: Vec<RateRow>,
}

/// Generates the raw conditional-probability features for the ML models;
/// `pool` is the database the features go to.
pub struct FeatureGenerator<P> {
    pub pool: P,
}

impl<P> FeatureGenerator<P> {
    pub fn new(pool: P) -> (r: Self)
        ensures
            r.pool == pool,
    {
        FeatureGenerator { pool }
    }

    /// The day contexts: days sorted by asset and date, weekends skipped, each
    /// weekday with the outcomes of the two days before it of the same asset
    /// and the weekday of the day before.
    pub fn generate_day_context(&self, daily_views: &Vec<DailyViewContext>) -> (r: Vec<DayContext>)
        ensures
            day_context_views(r@) == day_contexts_of(daily_views@),
    {
        let (assets, dates) = daily_sort_keys(daily_views);
        let order = stable_order(&assets, &dates);
        day_contexts_in_order(daily_views, &order)
    }

    /// Daily features: P(outcome | PD2, PD1, PD1 weekday) over raw counts.
    pub fn calculate_dci_features(&self, day_context: &Vec<DayContext>) -> (r: Vec<RateRow>)
        ensures
            is_raw_rate_table(r@, dci_observations(day_context_views(day_context@)), 10),
    {
        let obs = dci_observations_of(day_context);
        raw_conditional_rates(&obs, MIN_FEATURE_ATTEMPTS)
    }

    /// Transition features: P(CS name and bias | PS2 and PS1 names and biases).
    pub fn calculate_tcs_features(&self, sessions: &Vec<SessionContext>) -> (r: Vec<RateRow>)
        ensures
            is_raw_rate_table(r@, tcs_observations(sessions@), 10),
    {
        let (obs, _) = session_observations_of(sessions);
        raw_conditional_rates(&obs, MIN_FEATURE_ATTEMPTS)
    }

    /// Extreme-session features: P(extreme session | PS2, PS1, extreme type).
    pub fn calculate_high_low_features(&self, daily_views: &Vec<DailyViewContext>, sessions: &Vec<SessionContext>) -> (r: Vec<RateRow>)
        ensures
            is_raw_rate_table(r@, high_low_observations(daily_views@, sessions@), 10),
    {
        let obs = high_low_observations_of(daily_views, sessions);
        raw_conditional_rates(&obs, MIN_FEATURE_ATTEMPTS)
    }

    /// Continuation features: P(CS continues PS1 | PS2, PS1), for the patterns
    /// with at least one continuation.
    pub fn calculate_continuation_features(&self, sessions: &Vec<SessionContext>) -> (r: Vec<RateRow>)
        ensures
            exists|all: Seq<RateRow>|
                #[trigger] is_raw_rate_table(all, continuation_observations(sessions@), 10) && r@ == continuation_rows(all),
    {
        let (_, obs) = session_observations_of(sessions);
        let all = raw_conditional_rates(&obs, MIN_FEATURE_ATTEMPTS);
        let ghost a = all@;
        let r = extract_continuation_results(all);
        assert(is_raw_rate_table(a, continuation_observations(sessions@), 10) && r@ == continuation_rows(a));
        r
    }

    /// All the raw feature rates: daily, transition, extreme-session and
    /// continuation.
    pub fn generate_ml_features(&self, daily_views: &Vec<DailyViewContext>, session_contexts: &Vec<SessionContext>) -> (r: MlFeatureRates)
        ensures
            is_raw_rate_table(r.dci@, dci_observations(day_contexts_of(daily_views@)), 10),
            is_raw_rate_table(r.tcs@, tcs_observations(session_contexts@), 10),
            is_raw_rate_table(r.high_low@, high_low_observations(daily_views@, session_contexts@), 10),
            exists|all: Seq<RateRow>|
                #[trigger] is_raw_rate_table(all, continuation_observations(session_contexts@), 10) && r.continuation@
                    == continuation_rows(all),
    {
        let day_context = self.generate_day_context(daily_views);
        let dci = self.calculate_dci_features(&day_context);
        let tcs = self.calculate_tcs_features(session_contexts);
        let high_low = self.calculate_high_low_features(daily_views, session_contexts);
        let continuation = self.calculate_continuation_features(session_contexts);
        MlFeatureRates { dci, tcs, high_low, continuation }
    }
}

} // verus!
