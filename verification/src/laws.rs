use vstd::prelude::*;
use crate::keys::KeyVal;
use crate::labels::{bullish_family, bearish_family, continues};
use crate::aggregate::{ObsView, event_count, pattern_total, counts_toward};
use crate::rates::{IntervalView, RateRow, is_rate_table, named_count, named_total};
use crate::scores::{ScaledScore, scaled_ratio, DayType2ndOrder, DayTypeBaseRate, PcsBest, PcsScore2ndOrder, pcs_best, pcs_final, same_pattern, has_base, last_base_rate, beats, is_pcs_table, row_pattern_is};
use crate::service::{lookback_windows, ALL_HISTORY_START};
use crate::tally::{TallyView, weighted_events, weighted_total, lemma_weighted_bounds};
use crate::view_contexts::{DailyViewContext, WeeklyViewContext, is_weekend, day_contexts_upto, weekly_contexts_upto, week_of_month};
use crate::calculator::{day_contexts_of, weekly_contexts_of};
use crate::unified::{pdcs_rows, pdcs_label, pdcs_hundredths_of};
use crate::tally::WeightedRate;
use crate::cli::{previous_session, chain_names, second_part};
use crate::scores::insight_label_of;
use crate::ml_features::{joined_obs, high_low_obs, high_low_observations};
use crate::rate_inputs::{tx, or_empty, joined, high_low_item, high_low_items};
use crate::calculator::InputView;
use crate::view_contexts::{SessionContext, DayContextView, day_context_at, day_outcome_of};
use crate::rate_inputs::{dci_item, dci_items};
use crate::labels::{dow_name, weekday_index};
use crate::calculator::tallied;
use crate::tally::{is_weighted_table, rate_key};
use crate::unified::{pdcs_row, text_of};

verus! {

/// No bias belongs to both directional families, so a continuation never
/// changes direction: when the current bias continues the previous one, both
/// are bullish or both are bearish.
pub proof fn continuation_keeps_direction(prev: Seq<char>, cur: Seq<char>)
    ensures
        !(bullish_family(prev) && bearish_family(prev)),
        continues(prev, cur) ==> (bullish_family(prev) && bullish_family(cur)) || (bearish_family(prev)
            && bearish_family(cur)),
{
    reveal_strlit("Bullish");
    reveal_strlit("Bullish_Reversal");
    reveal_strlit("Failed_Bullish");
    reveal_strlit("Bearish");
    reveal_strlit("Bearish_Reversal");
    reveal_strlit("Failed_Bearish");
    assert("Bullish"@[1] != "Bearish"@[1]);
    assert("Bullish"@[1] != "Bearish_Reversal"@[1]);
    assert("Bullish"@[0] != "Failed_Bearish"@[0]);
    assert("Bullish_Reversal"@[1] != "Bearish"@[1]);
    assert("Bullish_Reversal"@[1] != "Bearish_Reversal"@[1]);
    assert("Bullish_Reversal"@[0] != "Failed_Bearish"@[0]);
    assert("Failed_Bullish"@[0] != "Bearish"@[0]);
    assert("Failed_Bullish"@[0] != "Bearish_Reversal"@[0]);
    assert("Failed_Bullish"@[8] != "Failed_Bearish"@[8]);
}

/// The biases of the bullish family, "Bullish", "Bullish_Reversal" and
/// "Failed_Bullish", continue one another, and so do those of the bearish
/// family, "Bearish", "Bearish_Reversal" and "Failed_Bearish"; no other pair of
/// biases is a continuation.
pub proof fn continuation_within_family(prev: Seq<char>, cur: Seq<char>)
    ensures
        (prev == "Bullish"@ || prev == "Bullish_Reversal"@ || prev == "Failed_Bullish"@) && (cur == "Bullish"@
            || cur == "Bullish_Reversal"@ || cur == "Failed_Bullish"@) ==> continues(prev, cur),
        (prev == "Bearish"@ || prev == "Bearish_Reversal"@ || prev == "Failed_Bearish"@) && (cur == "Bearish"@
            || cur == "Bearish_Reversal"@ || cur == "Failed_Bearish"@) ==> continues(prev, cur),
        continues(prev, cur) ==> ((prev == "Bullish"@ || prev == "Bullish_Reversal"@ || prev == "Failed_Bullish"@)
            && (cur == "Bullish"@ || cur == "Bullish_Reversal"@ || cur == "Failed_Bullish"@)) || ((prev
            == "Bearish"@ || prev == "Bearish_Reversal"@ || prev == "Failed_Bearish"@) && (cur == "Bearish"@
            || cur == "Bearish_Reversal"@ || cur == "Failed_Bearish"@)),
{
    continuation_keeps_direction(prev, cur);
}

/// The daily session cycle in order: NYL, NYPM, AS, LN, NYAM, and then NYL
/// again.
pub open spec fn session_cycle() -> Seq<Seq<char>> {
    seq!["NYL"@, "NYPM"@, "AS"@, "LN"@, "NYAM"@]
}

/// The PS2 session of a chain is the session just before its PS1 in the daily
/// cycle: NYAM before NYL, and each other session of the cycle before the one
/// that follows it. A name outside the cycle has no session before it, and no
/// two sessions share the session before them.
pub proof fn previous_session_follows_cycle(s: Seq<char>, t: Seq<char>)
    ensures
        previous_session(session_cycle()[0]) == Some(session_cycle()[4]),
        forall|i: int| 1 <= i < 5 ==> previous_session(#[trigger] session_cycle()[i]) == Some(session_cycle()[i - 1]),
        !session_cycle().contains(s) ==> previous_session(s) is None,
        previous_session(s) is Some && previous_session(s) == previous_session(t) ==> s == t,
{
    reveal_strlit("NYL");
    reveal_strlit("NYPM");
    reveal_strlit("AS");
    reveal_strlit("LN");
    reveal_strlit("NYAM");
    let c = session_cycle();
    assert("NYPM"@[2] != "NYAM"@[2]);
    assert("AS"@[0] != "LN"@[0]);
    assert(c[0] == "NYL"@ && c[1] == "NYPM"@ && c[2] == "AS"@ && c[3] == "LN"@ && c[4] == "NYAM"@);
    if previous_session(s) is Some {
        if s == "NYL"@ {
            assert(c[0] == s);
        } else if s == "NYPM"@ {
            assert(c[1] == s);
        } else if s == "AS"@ {
            assert(c[2] == s);
        } else if s == "LN"@ {
            assert(c[3] == s);
        } else {
            assert(c[4] == s);
        }
    }
}

/// The names of a chain label other than "TCS_DEFAULT": PS1 is the label's
/// second '_'-separated part, a session of the daily cycle, and PS2 the session
/// just before it in the cycle.
pub proof fn chain_ps2_precedes_ps1(chain: Seq<char>)
    ensures
        chain != "TCS_DEFAULT"@ ==> match chain_names(chain) {
            Ok((ps1, ps2)) => {
                &&& second_part(chain) == Some(ps1)
                &&& (ps1 == session_cycle()[0] && ps2 == session_cycle()[4]) || exists|i: int|
                    1 <= i < 5 && ps1 == #[trigger] session_cycle()[i] && ps2 == session_cycle()[i - 1]
            },
            Err(_) => true,
        },
{
    reveal_strlit("NYL");
    reveal_strlit("NYPM");
    reveal_strlit("AS");
    reveal_strlit("LN");
    reveal_strlit("NYAM");
    let c = session_cycle();
    assert(c[0] == "NYL"@ && c[1] == "NYPM"@ && c[2] == "AS"@ && c[3] == "LN"@ && c[4] == "NYAM"@);
}

/// The reading of a PCS or TCS score: a finite score of at least 2.25 is an
/// extreme signal, one of at least 1.75 (and below 2.25) a high-confidence
/// signal, one below 0.75 a contradiction and any other the expected range; an
/// infinite score is an extreme signal and an undefined one the expected range.
pub proof fn insight_reading_by_threshold(s: ScaledScore)
    ensures
        s matches ScaledScore::Finite(v) && v >= 225 ==> insight_label_of(s)
            == "Extreme Confidence Signal (PCS >= 2.25)"@,
        s matches ScaledScore::Finite(v) && 175 <= v < 225 ==> insight_label_of(s)
            == "High-Confidence Signal (PCS >= 1.75)"@,
        s matches ScaledScore::Finite(v) && v < 75 ==> insight_label_of(s)
            == "Contradictory Signal/Failure Risk (PCS < 0.75)"@,
        s matches ScaledScore::Finite(v) && 75 <= v < 175 ==> insight_label_of(s) == "Confirmatory/Expected Range"@,
        s is Infinite ==> insight_label_of(s) == "Extreme Confidence Signal (PCS >= 2.25)"@,
        s is Undefined ==> insight_label_of(s) == "Confirmatory/Expected Range"@,
{
}

/// Of two probabilities on one fixed-point scale, a conditional probability
/// of at most 0.74 of its base reads as a contradiction, one of at least 2.25
/// times its base (or any positive probability over a zero base) as an extreme
/// signal.
pub proof fn score_reading_from_probabilities(p_cond: int, p_base: int)
    requires
        0 <= p_cond <= u64::MAX,
        0 <= p_base <= u64::MAX,
    ensures
        p_base > 0 && 100 * p_cond <= 74 * p_base ==> insight_label_of(scaled_ratio(p_cond, p_base))
            == "Contradictory Signal/Failure Risk (PCS < 0.75)"@,
        p_base > 0 && 100 * p_cond >= 225 * p_base ==> insight_label_of(scaled_ratio(p_cond, p_base))
            == "Extreme Confidence Signal (PCS >= 2.25)"@,
        p_base == 0 && p_cond > 0 ==> insight_label_of(scaled_ratio(p_cond, p_base))
            == "Extreme Confidence Signal (PCS >= 2.25)"@,
{
    if p_base > 0 {
        let q = (200 * p_cond + p_base) / (2 * p_base);
        if 100 * p_cond <= 74 * p_base {
            assert(q < 75) by (nonlinear_arith)
                requires
                    p_base > 0,
                    p_cond >= 0,
                    100 * p_cond <= 74 * p_base,
                    q == (200 * p_cond + p_base) / (2 * p_base),
            ;
            assert(q >= 0) by (nonlinear_arith)
                requires
                    p_base > 0,
                    p_cond >= 0,
                    q == (200 * p_cond + p_base) / (2 * p_base),
            ;
            assert((q as u128) == q);
        }
        if 100 * p_cond >= 225 * p_base {
            assert(q >= 225) by (nonlinear_arith)
                requires
                    p_base > 0,
                    100 * p_cond >= 225 * p_base,
                    q == (200 * p_cond + p_base) / (2 * p_base),
            ;
            assert(q <= 200 * p_cond + p_base) by (nonlinear_arith)
                requires
                    p_base > 0,
                    p_cond >= 0,
                    q == (200 * p_cond + p_base) / (2 * p_base),
            ;
            assert((q as u128) == q);
        }
    }
}

proof fn lemma_count_le_total(obs: Seq<ObsView>, asset: Seq<char>, pattern: Seq<KeyVal>, outcome: Seq<KeyVal>, start: int)
    ensures
        event_count(obs, asset, pattern, outcome, start) <= pattern_total(obs, asset, pattern, start),
    decreases obs.len(),
{
    if obs.len() > 0 {
        lemma_count_le_total(obs.drop_last(), asset, pattern, outcome, start);
    }
}

proof fn lemma_named_count_le_total(
    obs: Seq<ObsView>,
    iv: Seq<IntervalView>,
    asset: Seq<char>,
    pattern: Seq<KeyVal>,
    outcome: Seq<KeyVal>,
    name: Seq<char>,
    n: int,
)
    ensures
        named_count(obs, iv, asset, pattern, outcome, name, n) <= named_total(obs, iv, asset, pattern, name, n),
    decreases n,
{
    if n > 0 {
        lemma_named_count_le_total(obs, iv, asset, pattern, outcome, name, n - 1);
        lemma_count_le_total(obs, asset, pattern, outcome, iv[n - 1].start);
    }
}

/// In every window of a conditional-rate table, an outcome is counted no
/// more often than its pattern: each probability `count / total` is at most 1.
pub proof fn rate_counts_within_totals(r: Seq<RateRow>, obs: Seq<ObsView>, iv: Seq<IntervalView>, k: int)
    requires
        is_rate_table(r, obs, iv),
        0 <= k < r.len(),
    ensures
        r[k].six_month.count <= r[k].six_month.total,
        r[k].one_year.count <= r[k].one_year.total,
        r[k].all_history.count <= r[k].all_history.total,
{
    let row = r[k];
    let a = row.asset_id@;
    let p = crate::keys::key_view(row.pattern@);
    let o = crate::keys::key_view(row.outcome@);
    let n = iv.len() as int;
    lemma_named_count_le_total(obs, iv, a, p, o, crate::rates::six_month_name(), n);
    lemma_named_count_le_total(obs, iv, a, p, o, crate::rates::one_year_name(), n);
    lemma_named_count_le_total(obs, iv, a, p, o, crate::rates::all_history_name(), n);
}

/// A lookback window that starts earlier holds at least as many occurrences
/// of an outcome, and of its pattern, as one that starts later.
pub proof fn earlier_window_counts_more(
    obs: Seq<ObsView>,
    asset: Seq<char>,
    pattern: Seq<KeyVal>,
    outcome: Seq<KeyVal>,
    early: int,
    late: int,
)
    requires
        early <= late,
    ensures
        event_count(obs, asset, pattern, outcome, late) <= event_count(obs, asset, pattern, outcome, early),
        pattern_total(obs, asset, pattern, late) <= pattern_total(obs, asset, pattern, early),
    decreases obs.len(),
{
    if obs.len() > 0 {
        earlier_window_counts_more(obs.drop_last(), asset, pattern, outcome, early, late);
    }
}

/// The lookback windows are nested: the "6M" window lies within "1Y", which
/// lies within "ALL" (for any day at least a year after the start of "ALL").
pub proof fn lookback_windows_nested(today: int, r: Seq<IntervalView>)
    requires
        lookback_windows(today, r),
        today - 365 >= ALL_HISTORY_START,
    ensures
        r[2].start <= r[1].start <= r[0].start,
{
}

/// A conditional probability equal to its base probability scores exactly
/// 1.00.
pub proof fn equal_probabilities_score_one(p: int)
    requires
        p > 0,
    ensures
        scaled_ratio(p, p) == ScaledScore::Finite(100),
{
    assert((200 * p + p) / (2 * p) == 100) by (nonlinear_arith)
        requires
            p > 0,
    ;
}

/// Against a fixed base probability, a higher conditional probability never
/// scores lower.
pub proof fn score_grows_with_conditional(p1: int, p2: int, base: int)
    requires
        0 <= p1 <= p2 <= u64::MAX,
        0 < base <= u64::MAX,
    ensures
        scaled_ratio(p1, base)->Finite_0 <= scaled_ratio(p2, base)->Finite_0,
{
    assert((200 * p1 + base) / (2 * base) <= (200 * p2 + base) / (2 * base)) by (nonlinear_arith)
        requires
            0 <= p1 <= p2,
            base > 0,
    ;
    assert(0 <= (200 * p1 + base) / (2 * base));
    assert((200 * p2 + base) / (2 * base) <= 200 * p2 + base) by (nonlinear_arith)
        requires
            0 <= p2,
            base > 0,
    ;
}

/// Weighted successes never exceed weighted attempts, so every weighted rate
/// is at most 1; and each item adds at most one whole attempt (ten tenths).
pub proof fn weighted_successes_within_attempts(items: Seq<TallyView>, k: Seq<KeyVal>)
    ensures
        weighted_events(items, k) <= weighted_total(items, k),
        weighted_total(items, k) <= 10 * items.len(),
{
    lemma_weighted_bounds(items, k);
}

proof fn lemma_day_contexts_weekdays(views: Seq<DailyViewContext>, p: Seq<usize>, n: int)
    ensures
        forall|k: int| 0 <= k < day_contexts_upto(views, p, n).len() ==> !is_weekend(
            #[trigger] day_contexts_upto(views, p, n)[k].date,
        ),
    decreases n,
{
    if n > 0 {
        lemma_day_contexts_weekdays(views, p, n - 1);
    }
}

/// Every day context falls on a weekday (Monday to Friday).
pub proof fn day_contexts_fall_on_weekdays(views: Seq<DailyViewContext>)
    ensures
        forall|k: int| 0 <= k < day_contexts_of(views).len() ==> !is_weekend(#[trigger] day_contexts_of(views)[k].date),
{
    lemma_day_contexts_weekdays(
        views,
        crate::ordering::stable_order_of(crate::calculator::daily_assets(views), crate::calculator::daily_dates(views)),
        views.len() as int,
    );
}

proof fn lemma_weekly_contexts_len(views: Seq<WeeklyViewContext>, doms: Seq<int>, p: Seq<usize>, n: int)
    requires
        n >= 0,
    ensures
        weekly_contexts_upto(views, doms, p, n).len() == n,
    decreases n,
{
    if n > 0 {
        lemma_weekly_contexts_len(views, doms, p, n - 1);
    }
}

/// Every classified week gets exactly one weekly context.
pub proof fn one_weekly_context_per_week(views: Seq<WeeklyViewContext>)
    ensures
        weekly_contexts_of(views).len() == views.len(),
{
    lemma_weekly_contexts_len(
        views,
        crate::calculator::week_doms(views),
        crate::ordering::stable_order_of(crate::calculator::weekly_assets(views), crate::calculator::weekly_dates(views)),
        views.len() as int,
    );
}

/// A week starting on day 1 to 31 of its month is week 1 to 5 of the month.
pub proof fn week_of_month_in_range(dom: int)
    requires
        1 <= dom <= 31,
    ensures
        1 <= week_of_month(dom) <= 5,
{
}

/// A 3rd-order rate gives at most one PDCS score, so there are never more
/// scores than 3rd-order rates.
pub proof fn at_most_one_score_per_rate(conds: Seq<WeightedRate>, bases: Seq<WeightedRate>)
    ensures
        pdcs_rows(conds, bases).len() <= conds.len(),
    decreases conds.len(),
{
    if conds.len() > 0 {
        at_most_one_score_per_rate(conds.drop_last(), bases);
    }
}

/// A PDCS score of at least 2.25 reads as an extreme signal, one of at least
/// 1.75 (and below 2.25) as high confidence, one below 0.75 as a
/// contradiction, and every other score as the expected range.
pub proof fn pdcs_reading_by_threshold(score: int)
    ensures
        score >= 225 ==> pdcs_label(score) == "Extreme Confidence Signal (PDCS >= 2.25)"@,
        175 <= score < 225 ==> pdcs_label(score) == "High-Confidence Signal (PDCS >= 1.75)"@,
        score < 75 ==> pdcs_label(score) == "Contradictory Signal/Failure Risk (PDCS < 0.75)"@,
        75 <= score < 175 ==> pdcs_label(score) == "Confirmatory/Expected Range"@,
{
}

/// When the conditional rate `ce / ct` equals the base rate `be / bt`, the
/// PDCS score is exactly 1.00.
pub proof fn pdcs_equal_rates_score_one(ce: int, ct: int, be: int, bt: int)
    requires
        ct > 0,
        be > 0,
        ce * bt == be * ct,
    ensures
        pdcs_hundredths_of(ce, ct, be, bt) == 100,
{
    let x = ct * be;
    assert(x > 0) by (nonlinear_arith)
        requires
            ct > 0,
            be > 0,
            x == ct * be,
    ;
    assert(200 * ce * bt + ct * be == 201 * x) by (nonlinear_arith)
        requires
            ce * bt == be * ct,
            x == ct * be,
    ;
    assert(2 * ct * be == 2 * x) by (nonlinear_arith)
        requires
            x == ct * be,
    ;
    assert((201 * x) / (2 * x) == 100) by (nonlinear_arith)
        requires
            x > 0,
    ;
}

/// The sum of the counts of each outcome in `outcomes` after `pattern` for
/// `asset`, on or after day `start`.
pub open spec fn outcome_counts_sum(
    obs: Seq<ObsView>,
    asset: Seq<char>,
    pattern: Seq<KeyVal>,
    outcomes: Seq<Seq<KeyVal>>,
    start: int,
) -> nat
    decreases outcomes.len(),
{
    if outcomes.len() == 0 {
        0
    } else {
        outcome_counts_sum(obs, asset, pattern, outcomes.drop_last(), start) + event_count(
            obs,
            asset,
            pattern,
            outcomes.last(),
            start,
        )
    }
}

/// How many outcomes of `outcomes` the observation `o` counts toward.
pub open spec fn outcomes_hit(o: ObsView, asset: Seq<char>, pattern: Seq<KeyVal>, outcomes: Seq<Seq<KeyVal>>, start: int) -> nat
    decreases outcomes.len(),
{
    if outcomes.len() == 0 {
        0
    } else {
        outcomes_hit(o, asset, pattern, outcomes.drop_last(), start) + if counts_toward(
            o,
            asset,
            pattern,
            outcomes.last(),
            start,
        ) {
            1nat
        } else {
            0nat
        }
    }
}

proof fn lemma_outcome_sum_step(obs: Seq<ObsView>, asset: Seq<char>, pattern: Seq<KeyVal>, outcomes: Seq<Seq<KeyVal>>, start: int)
    requires
        obs.len() > 0,
    ensures
        outcome_counts_sum(obs, asset, pattern, outcomes, start) == outcome_counts_sum(
            obs.drop_last(),
            asset,
            pattern,
            outcomes,
            start,
        ) + outcomes_hit(obs.last(), asset, pattern, outcomes, start),
    decreases outcomes.len(),
{
    if outcomes.len() > 0 {
        lemma_outcome_sum_step(obs, asset, pattern, outcomes.drop_last(), start);
    }
}

proof fn lemma_outcomes_hit(o: ObsView, asset: Seq<char>, pattern: Seq<KeyVal>, outcomes: Seq<Seq<KeyVal>>, start: int)
    requires
        outcomes.no_duplicates(),
    ensures
        outcomes_hit(o, asset, pattern, outcomes, start) == if o.asset == asset && o.pattern == Some(pattern)
            && o.outcome is Some && o.date >= start && outcomes.contains(o.outcome->0) {
            1nat
        } else {
            0nat
        },
    decreases outcomes.len(),
{
    if outcomes.len() > 0 {
        let rest = outcomes.drop_last();
        assert(rest.no_duplicates()) by {
            assert forall|i: int, j: int| 0 <= i < rest.len() && 0 <= j < rest.len() && i != j implies rest[i] != rest[j] by {
                assert(rest[i] == outcomes[i] && rest[j] == outcomes[j]);
            }
        }
        lemma_outcomes_hit(o, asset, pattern, rest, start);
        if o.outcome is Some && o.outcome->0 == outcomes.last() {
            if rest.contains(outcomes.last()) {
                let i = choose|i: int| 0 <= i < rest.len() && rest[i] == outcomes.last();
                assert(outcomes[i] == outcomes[outcomes.len() - 1]);
            }
        }
        if o.outcome is Some && outcomes.contains(o.outcome->0) && o.outcome->0 != outcomes.last() {
            let i = choose|i: int| 0 <= i < outcomes.len() && outcomes[i] == o.outcome->0;
            assert(rest[i] == o.outcome->0);
        }
        if o.outcome is Some && rest.contains(o.outcome->0) {
            let i = choose|i: int| 0 <= i < rest.len() && rest[i] == o.outcome->0;
            assert(outcomes[i] == o.outcome->0);
        }
    }
}

/// A pattern's total in a window is the sum of the counts of its outcomes:
/// for any list of distinct outcomes that holds every outcome of the pattern
/// observed in the window, the outcome counts add up to the pattern total, so
/// the conditional probabilities of one pattern sum to one.
pub proof fn pattern_total_is_sum_of_outcome_counts(
    obs: Seq<ObsView>,
    asset: Seq<char>,
    pattern: Seq<KeyVal>,
    outcomes: Seq<Seq<KeyVal>>,
    start: int,
)
    requires
        outcomes.no_duplicates(),
        forall|j: int|
            0 <= j < obs.len() && (#[trigger] obs[j]).asset == asset && obs[j].pattern == Some(pattern)
                && obs[j].outcome is Some && obs[j].date >= start ==> outcomes.contains(obs[j].outcome->0),
    ensures
        outcome_counts_sum(obs, asset, pattern, outcomes, start) == pattern_total(obs, asset, pattern, start),
    decreases obs.len(),
{
    if obs.len() == 0 {
        lemma_sum_empty(obs, asset, pattern, outcomes, start);
    } else {
        let rest = obs.drop_last();
        assert forall|j: int|
            0 <= j < rest.len() && (#[trigger] rest[j]).asset == asset && rest[j].pattern == Some(pattern)
                && rest[j].outcome is Some && rest[j].date >= start implies outcomes.contains(rest[j].outcome->0) by {
            assert(rest[j] == obs[j]);
        }
        pattern_total_is_sum_of_outcome_counts(rest, asset, pattern, outcomes, start);
        lemma_outcome_sum_step(obs, asset, pattern, outcomes, start);
        lemma_outcomes_hit(obs.last(), asset, pattern, outcomes, start);
        assert(obs.last() == obs[obs.len() - 1]);
    }
}

proof fn lemma_sum_empty(obs: Seq<ObsView>, asset: Seq<char>, pattern: Seq<KeyVal>, outcomes: Seq<Seq<KeyVal>>, start: int)
    requires
        obs.len() == 0,
    ensures
        outcome_counts_sum(obs, asset, pattern, outcomes, start) == 0,
    decreases outcomes.len(),
{
    if outcomes.len() > 0 {
        lemma_sum_empty(obs, asset, pattern, outcomes.drop_last(), start);
    }
}

/// The base probability a conditional rate is compared with.
pub open spec fn base_p(c: DayType2ndOrder, bases: Seq<DayTypeBaseRate>) -> int {
    bases[last_base_rate(bases, c.asset_id@, c.day_type@)->0].p_day_type_base as int
}

/// Whether `c` takes part in the score of the pattern `pat`.
pub open spec fn scored_for(
    c: DayType2ndOrder,
    bases: Seq<DayTypeBaseRate>,
    pat: (Seq<char>, Seq<char>, Seq<char>, Seq<char>, Seq<char>),
) -> bool {
    same_pattern(c, pat.0, pat.1, pat.2, pat.3, pat.4) && has_base(c, bases)
}

pub open spec fn best_of(
    conds: Seq<DayType2ndOrder>,
    bases: Seq<DayTypeBaseRate>,
    pat: (Seq<char>, Seq<char>, Seq<char>, Seq<char>, Seq<char>),
) -> PcsBest {
    pcs_best(conds, bases, pat.0, pat.1, pat.2, pat.3, pat.4)
}

/// A rate that makes the score of its pattern infinite: a positive
/// probability over a zero base.
pub open spec fn infinite_witness(
    conds: Seq<DayType2ndOrder>,
    bases: Seq<DayTypeBaseRate>,
    pat: (Seq<char>, Seq<char>, Seq<char>, Seq<char>, Seq<char>),
    j: int,
) -> bool {
    0 <= j < conds.len() && scored_for(conds[j], bases, pat) && base_p(conds[j], bases) == 0
        && conds[j].p_day_type_conditional > 0
}

/// A rate whose ratio is the best one.
pub open spec fn best_witness(
    conds: Seq<DayType2ndOrder>,
    bases: Seq<DayTypeBaseRate>,
    pat: (Seq<char>, Seq<char>, Seq<char>, Seq<char>, Seq<char>),
    b: PcsBest,
    j: int,
) -> bool {
    0 <= j < conds.len() && scored_for(conds[j], bases, pat) && base_p(conds[j], bases) > 0
        && b.num == conds[j].p_day_type_conditional as int && b.den == base_p(conds[j], bases)
}

proof fn lemma_ratio_chain(pj: int, qj: int, num: int, den: int, pc: int, pb: int)
    requires
        qj > 0,
        den > 0,
        pb > 0,
        pj >= 0,
        pj * den <= num * qj,
        num * pb < pc * den,
    ensures
        pj * pb <= pc * qj,
{
    assert(pj * den * pb <= num * qj * pb) by (nonlinear_arith)
        requires
            pj * den <= num * qj,
            pb > 0,
    ;
    assert(num * pb * qj <= pc * den * qj) by (nonlinear_arith)
        requires
            num * pb < pc * den,
            qj > 0,
    ;
    assert(pj * pb * den <= pc * qj * den) by (nonlinear_arith)
        requires
            pj * den * pb <= num * qj * pb,
            num * pb * qj <= pc * den * qj,
    ;
    assert(pj * pb <= pc * qj) by (nonlinear_arith)
        requires
            pj * pb * den <= pc * qj * den,
            den > 0,
    ;
}

proof fn lemma_base_p_nonneg(c: DayType2ndOrder, bases: Seq<DayTypeBaseRate>)
    ensures
        base_p(c, bases) >= 0,
{
}

/// What the strongest score of a pattern is: it is infinite exactly when some
/// rate of the pattern has a positive probability over a zero base; otherwise
/// its ratio is at least every rate's ratio and is either zero or one of them.
proof fn lemma_best_is_maximum(
    conds: Seq<DayType2ndOrder>,
    bases: Seq<DayTypeBaseRate>,
    pat: (Seq<char>, Seq<char>, Seq<char>, Seq<char>, Seq<char>),
)
    ensures
        best_of(conds, bases, pat).num >= 0,
        !best_of(conds, bases, pat).infinite ==> best_of(conds, bases, pat).den > 0,
        best_of(conds, bases, pat).infinite <==> exists|j: int| #[trigger] infinite_witness(conds, bases, pat, j),
        !best_of(conds, bases, pat).infinite ==> forall|j: int|
            0 <= j < conds.len() && #[trigger] scored_for(conds[j], bases, pat) && base_p(conds[j], bases) > 0
                ==> conds[j].p_day_type_conditional * best_of(conds, bases, pat).den <= best_of(conds, bases, pat).num
                * base_p(conds[j], bases),
        !best_of(conds, bases, pat).infinite ==> (best_of(conds, bases, pat).num == 0 && best_of(conds, bases, pat).den
            == 1) || exists|j: int| #[trigger] best_witness(conds, bases, pat, best_of(conds, bases, pat), j),
    decreases conds.len(),
{
    if conds.len() > 0 {
        let rest = conds.drop_last();
        lemma_best_is_maximum(rest, bases, pat);
        let b0 = best_of(rest, bases, pat);
        let b = best_of(conds, bases, pat);
        let n = conds.len() - 1;
        let c = conds[n];
        assert(conds.last() == c);
        assert forall|j: int| 0 <= j < n implies #[trigger] rest[j] == conds[j] by {}
        assert forall|j: int| #[trigger] infinite_witness(rest, bases, pat, j) implies infinite_witness(conds, bases, pat, j) by {
            assert(rest[j] == conds[j]);
        }
        assert forall|j: int| #[trigger] best_witness(rest, bases, pat, b0, j) implies best_witness(conds, bases, pat, b0, j) by {
            assert(rest[j] == conds[j]);
        }
        assert forall|j: int| #[trigger] infinite_witness(conds, bases, pat, j) && j < n implies infinite_witness(rest, bases, pat, j) by {
            assert(rest[j] == conds[j]);
        }
        let pc = c.p_day_type_conditional as int;
        if scored_for(c, bases, pat) {
            let pb = base_p(c, bases);
            lemma_base_p_nonneg(c, bases);
            if beats(pc, pb, b0) {
                assert(b == PcsBest { num: pc, den: pb, infinite: pb == 0, day_type: c.day_type@ });
                if pb == 0 {
                    assert(infinite_witness(conds, bases, pat, n));
                } else {
                    assert(best_witness(conds, bases, pat, b, n));
                    if exists|j: int| #[trigger] infinite_witness(conds, bases, pat, j) {
                        let j = choose|j: int| #[trigger] infinite_witness(conds, bases, pat, j);
                        assert(j < n);
                        assert(infinite_witness(rest, bases, pat, j));
                    }
                    assert forall|j: int|
                        0 <= j < conds.len() && #[trigger] scored_for(conds[j], bases, pat) && base_p(conds[j], bases) > 0
                            implies conds[j].p_day_type_conditional * b.den <= b.num * base_p(conds[j], bases) by {
                        if j < n {
                            assert(scored_for(rest[j], bases, pat));
                            lemma_ratio_chain(
                                conds[j].p_day_type_conditional as int,
                                base_p(conds[j], bases),
                                b0.num,
                                b0.den,
                                pc,
                                pb,
                            );
                        }
                    }
                }
            } else {
                assert(b == b0);
                if !b0.infinite {
                    if pb == 0 {
                        assert(pc == 0);
                    }
                    if exists|j: int| #[trigger] infinite_witness(conds, bases, pat, j) {
                        let j = choose|j: int| #[trigger] infinite_witness(conds, bases, pat, j);
                        if j < n {
                            assert(infinite_witness(rest, bases, pat, j));
                        }
                    }
                    assert forall|j: int|
                        0 <= j < conds.len() && #[trigger] scored_for(conds[j], bases, pat) && base_p(conds[j], bases) > 0
                            implies conds[j].p_day_type_conditional * b.den <= b.num * base_p(conds[j], bases) by {
                        if j < n {
                            assert(scored_for(rest[j], bases, pat));
                        }
                    }
                    if !(b0.num == 0 && b0.den == 1) {
                        let j = choose|j: int| #[trigger] best_witness(rest, bases, pat, b0, j);
                        assert(best_witness(conds, bases, pat, b, j));
                    }
                } else {
                    let j = choose|j: int| #[trigger] infinite_witness(rest, bases, pat, j);
                    assert(infinite_witness(conds, bases, pat, j));
                }
            }
        } else {
            assert(b == b0);
            if b0.infinite {
                let j = choose|j: int| #[trigger] infinite_witness(rest, bases, pat, j);
                assert(infinite_witness(conds, bases, pat, j));
            } else {
                if exists|j: int| #[trigger] infinite_witness(conds, bases, pat, j) {
                    let j = choose|j: int| #[trigger] infinite_witness(conds, bases, pat, j);
                    if j < n {
                        assert(infinite_witness(rest, bases, pat, j));
                    }
                }
                assert forall|j: int|
                    0 <= j < conds.len() && #[trigger] scored_for(conds[j], bases, pat) && base_p(conds[j], bases) > 0
                        implies conds[j].p_day_type_conditional * b.den <= b.num * base_p(conds[j], bases) by {
                    if j < n {
                        assert(scored_for(rest[j], bases, pat));
                    }
                }
                if !(b0.num == 0 && b0.den == 1) {
                    let j = choose|j: int| #[trigger] best_witness(rest, bases, pat, b0, j);
                    assert(best_witness(conds, bases, pat, b, j));
                }
            }
        }
    }
}

proof fn lemma_final_of_equal_ratios(n1: int, d1: int, n2: int, d2: int)
    requires
        d1 > 0,
        d2 > 0,
        n1 >= 0,
        n2 >= 0,
        n1 * d2 == n2 * d1,
    ensures
        (200 * n1 + d1) / (2 * d1) == (200 * n2 + d2) / (2 * d2),
{
    vstd::arithmetic::div_mod::lemma_div_multiples_vanish_quotient(d2, 200 * n1 + d1, 2 * d1);
    vstd::arithmetic::div_mod::lemma_div_multiples_vanish_quotient(d1, 200 * n2 + d2, 2 * d2);
    assert(d2 * (200 * n1 + d1) == d1 * (200 * n2 + d2)) by (nonlinear_arith)
        requires
            n1 * d2 == n2 * d1,
    ;
    assert(d2 * (2 * d1) == d1 * (2 * d2)) by (nonlinear_arith);
}

proof fn lemma_infinite_carries(
    a: Seq<DayType2ndOrder>,
    b: Seq<DayType2ndOrder>,
    bases: Seq<DayTypeBaseRate>,
    pat: (Seq<char>, Seq<char>, Seq<char>, Seq<char>, Seq<char>),
)
    requires
        forall|x: DayType2ndOrder| b.contains(x) ==> a.contains(x),
        best_of(b, bases, pat).infinite,
    ensures
        best_of(a, bases, pat).infinite,
{
    lemma_best_is_maximum(a, bases, pat);
    lemma_best_is_maximum(b, bases, pat);
    let j = choose|j: int| #[trigger] infinite_witness(b, bases, pat, j);
    assert(b.contains(b[j]));
    let i = choose|i: int| 0 <= i < a.len() && a[i] == b[j];
    assert(infinite_witness(a, bases, pat, i));
}

proof fn lemma_best_dominates(
    a: Seq<DayType2ndOrder>,
    b: Seq<DayType2ndOrder>,
    bases: Seq<DayTypeBaseRate>,
    pat: (Seq<char>, Seq<char>, Seq<char>, Seq<char>, Seq<char>),
)
    requires
        forall|x: DayType2ndOrder| b.contains(x) ==> a.contains(x),
        !best_of(a, bases, pat).infinite,
        !best_of(b, bases, pat).infinite,
    ensures
        best_of(b, bases, pat).num * best_of(a, bases, pat).den <= best_of(a, bases, pat).num * best_of(b, bases, pat).den,
{
    lemma_best_is_maximum(a, bases, pat);
    lemma_best_is_maximum(b, bases, pat);
    let ba = best_of(a, bases, pat);
    let bb = best_of(b, bases, pat);
    if bb.num == 0 && bb.den == 1 {
        assert(0 * ba.den <= ba.num * 1) by (nonlinear_arith)
            requires
                ba.num >= 0,
                ba.den > 0,
        ;
    } else {
        let j = choose|j: int| #[trigger] best_witness(b, bases, pat, bb, j);
        assert(b.contains(b[j]));
        let i = choose|i: int| 0 <= i < a.len() && a[i] == b[j];
        assert(scored_for(a[i], bases, pat));
    }
}

/// The strongest PCS score of a pattern does not depend on the order of the
/// conditional rates: any permutation of them gives the same score (only the
/// day type reported with it may differ, where two day types tie).
pub proof fn pcs_score_independent_of_order(
    conds: Seq<DayType2ndOrder>,
    perm: Seq<DayType2ndOrder>,
    bases: Seq<DayTypeBaseRate>,
    asset: Seq<char>,
    ps2n: Seq<char>,
    ps2b: Seq<char>,
    ps1n: Seq<char>,
    ps1b: Seq<char>,
)
    requires
        perm.to_multiset() == conds.to_multiset(),
    ensures
        pcs_final(pcs_best(perm, bases, asset, ps2n, ps2b, ps1n, ps1b)) == pcs_final(
            pcs_best(conds, bases, asset, ps2n, ps2b, ps1n, ps1b),
        ),
{
    let pat = (asset, ps2n, ps2b, ps1n, ps1b);
    conds.to_multiset_ensures();
    perm.to_multiset_ensures();
    assert forall|x: DayType2ndOrder| perm.contains(x) implies conds.contains(x) by {
        assert(perm.to_multiset().count(x) > 0);
    }
    assert forall|x: DayType2ndOrder| conds.contains(x) implies perm.contains(x) by {
        assert(conds.to_multiset().count(x) > 0);
    }
    lemma_best_is_maximum(conds, bases, pat);
    lemma_best_is_maximum(perm, bases, pat);
    let b1 = best_of(conds, bases, pat);
    let b2 = best_of(perm, bases, pat);
    if b1.infinite {
        lemma_infinite_carries(perm, conds, bases, pat);
    } else if b2.infinite {
        lemma_infinite_carries(conds, perm, bases, pat);
    } else {
        lemma_best_dominates(conds, perm, bases, pat);
        lemma_best_dominates(perm, conds, bases, pat);
        lemma_final_of_equal_ratios(b1.num, b1.den, b2.num, b2.den);
    }
}

/// The PCS tables of a list of conditional rates and of any permutation of it
/// hold the same patterns with the same scores.
pub proof fn pcs_table_independent_of_order(
    conds: Seq<DayType2ndOrder>,
    perm: Seq<DayType2ndOrder>,
    bases: Seq<DayTypeBaseRate>,
    r1: Seq<PcsScore2ndOrder>,
    r2: Seq<PcsScore2ndOrder>,
)
    requires
        perm.to_multiset() == conds.to_multiset(),
        is_pcs_table(r1, conds, bases),
        is_pcs_table(r2, perm, bases),
    ensures
        forall|k: int| 0 <= k < r1.len() ==> exists|m: int|
            0 <= m < r2.len() && #[trigger] row_pattern_is(r2[m], (#[trigger] r1[k]).asset_id@, r1[k].ps2_name@, r1[k].ps2_bias@,
                r1[k].ps1_name@, r1[k].ps1_bias@) && r2[m].pcs_score == r1[k].pcs_score,
        forall|m: int| 0 <= m < r2.len() ==> exists|k: int|
            0 <= k < r1.len() && #[trigger] row_pattern_is(r1[k], (#[trigger] r2[m]).asset_id@, r2[m].ps2_name@, r2[m].ps2_bias@,
                r2[m].ps1_name@, r2[m].ps1_bias@) && r1[k].pcs_score == r2[m].pcs_score,
{
    lemma_pcs_rows_carry(conds, perm, bases, r1, r2);
    lemma_pcs_rows_carry(perm, conds, bases, r2, r1);
}

proof fn lemma_pcs_rows_carry(
    conds: Seq<DayType2ndOrder>,
    perm: Seq<DayType2ndOrder>,
    bases: Seq<DayTypeBaseRate>,
    r1: Seq<PcsScore2ndOrder>,
    r2: Seq<PcsScore2ndOrder>,
)
    requires
        perm.to_multiset() == conds.to_multiset(),
        is_pcs_table(r1, conds, bases),
        is_pcs_table(r2, perm, bases),
    ensures
        forall|k: int| 0 <= k < r1.len() ==> exists|m: int|
            0 <= m < r2.len() && #[trigger] row_pattern_is(r2[m], (#[trigger] r1[k]).asset_id@, r1[k].ps2_name@, r1[k].ps2_bias@,
                r1[k].ps1_name@, r1[k].ps1_bias@) && r2[m].pcs_score == r1[k].pcs_score,
{
    conds.to_multiset_ensures();
    perm.to_multiset_ensures();
    assert forall|k: int| 0 <= k < r1.len() implies exists|m: int|
        0 <= m < r2.len() && #[trigger] row_pattern_is(r2[m], (#[trigger] r1[k]).asset_id@, r1[k].ps2_name@, r1[k].ps2_bias@,
            r1[k].ps1_name@, r1[k].ps1_bias@) && r2[m].pcs_score == r1[k].pcs_score by {
        let row = r1[k];
        let j = choose|j: int| 0 <= j < conds.len() && #[trigger] has_base(conds[j], bases)
            && same_pattern(conds[j], row.asset_id@, row.ps2_name@, row.ps2_bias@, row.ps1_name@, row.ps1_bias@);
        assert(conds.contains(conds[j]));
        assert(conds.to_multiset().count(conds[j]) > 0);
        assert(perm.contains(conds[j]));
        let i = choose|i: int| 0 <= i < perm.len() && perm[i] == conds[j];
        assert(has_base(perm[i], bases));
        let m = choose|m: int| 0 <= m < r2.len() && #[trigger] row_pattern_is(r2[m], perm[i].asset_id@, perm[i].ps2_name@,
            perm[i].ps2_bias@, perm[i].ps1_name@, perm[i].ps1_bias@);
        pcs_score_independent_of_order(conds, perm, bases, row.asset_id@, row.ps2_name@, row.ps2_bias@, row.ps1_name@, row.ps1_bias@);
        assert(row_pattern_is(r2[m], row.asset_id@, row.ps2_name@, row.ps2_bias@, row.ps1_name@, row.ps1_bias@));
        assert(r2[m].pcs_score == r1[k].pcs_score);
    }
}

/// Scores do not depend on the fixed-point scale of the probabilities:
/// scaling the conditional and the base probability by the same positive
/// factor gives the same score.
pub proof fn score_independent_of_scale(p_cond: int, p_base: int, k: int)
    requires
        k > 0,
        p_cond >= 0,
        p_base >= 0,
    ensures
        scaled_ratio(k * p_cond, k * p_base) == scaled_ratio(p_cond, p_base),
{
    if p_base == 0 {
        assert(k * p_base == 0);
        if p_cond > 0 {
            assert(k * p_cond > 0) by (nonlinear_arith)
                requires
                    k > 0,
                    p_cond > 0,
            ;
        } else {
            assert(k * p_cond == 0);
        }
    } else {
        assert(k * p_base != 0) by (nonlinear_arith)
            requires
                k > 0,
                p_base > 0,
        ;
        assert(200 * (k * p_cond) + k * p_base == k * (200 * p_cond + p_base)) by (nonlinear_arith);
        assert(2 * (k * p_base) == k * (2 * p_base)) by (nonlinear_arith);
        vstd::arithmetic::div_mod::lemma_div_multiples_vanish_quotient(k, 200 * p_cond + p_base, 2 * p_base);
    }
}

/// Where the `k`-th element of the joined lists lies: list `i`, position `j`.
proof fn lemma_joined_obs_member(s: Seq<Seq<ObsView>>, k: int) -> (r: (int, int))
    requires
        0 <= k < joined_obs(s).len(),
    ensures
        0 <= r.0 < s.len(),
        0 <= r.1 < s[r.0].len(),
        joined_obs(s)[k] == s[r.0][r.1],
    decreases s.len(),
{
    let p = s.drop_last();
    if k < joined_obs(p).len() {
        let (i, j) = lemma_joined_obs_member(p, k);
        assert(s[i] == p[i]);
        (i, j)
    } else {
        (s.len() - 1, k - joined_obs(p).len())
    }
}

/// Where the `k`-th element of the joined lists lies: list `i`, position `j`.
proof fn lemma_joined_member(s: Seq<Seq<InputView>>, k: int) -> (r: (int, int))
    requires
        0 <= k < joined(s).len(),
    ensures
        0 <= r.0 < s.len(),
        0 <= r.1 < s[r.0].len(),
        joined(s)[k] == s[r.0][r.1],
    decreases s.len(),
{
    let p = s.drop_last();
    if k < joined(p).len() {
        let (i, j) = lemma_joined_member(p, k);
        assert(s[i] == p[i]);
        (i, j)
    } else {
        (s.len() - 1, k - joined(p).len())
    }
}

/// Every extreme-session feature observation belongs to a day with both a high
/// and a low session, under the day's asset and date; one whose pattern ends in
/// "High" has the day's high session as its outcome, one whose pattern ends in
/// "Low" the day's low session, and every pattern ends in one of the two.
pub proof fn extreme_session_observations(days: Seq<DailyViewContext>, sessions: Seq<SessionContext>, k: int)
    requires
        0 <= k < high_low_observations(days, sessions).len(),
    ensures
        exists|i: int|
            #![trigger days[i]]
            0 <= i < days.len() && {
                let o = high_low_observations(days, sessions)[k];
                &&& days[i].high_session is Some
                &&& days[i].low_session is Some
                &&& o.asset == days[i].asset_id@
                &&& o.date == days[i].trading_date
                &&& o.pattern is Some && o.pattern->0.len() == 5
                &&& o.pattern->0.last() == tx("High"@) || o.pattern->0.last() == tx("Low"@)
                &&& o.pattern->0.last() == tx("High"@) ==> o.outcome == Some(seq![tx(or_empty(days[i].high_session))])
                &&& o.pattern->0.last() == tx("Low"@) ==> o.outcome == Some(seq![tx(or_empty(days[i].low_session))])
            },
{
    reveal_strlit("High");
    reveal_strlit("Low");
    let l = days.map_values(|x: DailyViewContext| high_low_obs(x, sessions));
    let (i, j) = lemma_joined_obs_member(l, k);
    assert(l[i] == high_low_obs(days[i], sessions));
    assert("High"@.len() != "Low"@.len());
    assert(tx("High"@) != tx("Low"@));
    let o = high_low_observations(days, sessions)[k];
    assert(o == l[i][j]);
    assert(days[i] == days[i]);
}

/// Every extreme-session rate input belongs to a day with both a high and a
/// low session: its key starts with the day's asset and, after the previous
/// sessions, holds "High" followed by the day's high session, or "Low" followed
/// by the day's low session; its date is the day's.
pub proof fn extreme_session_inputs(days: Seq<DailyViewContext>, sessions: Seq<SessionContext>, k: int)
    requires
        0 <= k < high_low_items(days, sessions).len(),
    ensures
        exists|i: int|
            #![trigger days[i]]
            0 <= i < days.len() && {
                let it = high_low_items(days, sessions)[k];
                &&& days[i].high_session is Some
                &&& days[i].low_session is Some
                &&& it.date == days[i].trading_date
                &&& it.key is Some && it.key->0.len() == 7
                &&& it.key->0[0] == tx(days[i].asset_id@)
                &&& it.key->0[5] == tx("High"@) || it.key->0[5] == tx("Low"@)
                &&& it.key->0[5] == tx("High"@) ==> it.key->0[6] == tx(or_empty(days[i].high_session))
                &&& it.key->0[5] == tx("Low"@) ==> it.key->0[6] == tx(or_empty(days[i].low_session))
            },
{
    reveal_strlit("High");
    reveal_strlit("Low");
    let l = days.map_values(|x: DailyViewContext| high_low_item(x, sessions));
    let (i, j) = lemma_joined_member(l, k);
    assert(l[i] == high_low_item(days[i], sessions));
    assert("High"@.len() != "Low"@.len());
    assert(tx("High"@) != tx("Low"@));
    let it = high_low_items(days, sessions)[k];
    assert(it == l[i][j]);
    assert(days[i] == days[i]);
}

/// The position in the order of the day that the `k`-th day context stands
/// for.
proof fn lemma_day_context_position(views: Seq<DailyViewContext>, p: Seq<usize>, n: int, k: int) -> (t: int)
    requires
        0 <= k < day_contexts_upto(views, p, n).len(),
    ensures
        0 <= t < n,
        day_contexts_upto(views, p, n)[k] == day_context_at(views, p, t),
    decreases n,
{
    if n <= 0 {
        0
    } else {
        let prev = day_contexts_upto(views, p, n - 1);
        if is_weekend(views[p[n - 1] as int].trading_date as int) || k < prev.len() {
            lemma_day_context_position(views, p, n - 1, k)
        } else {
            n - 1
        }
    }
}

/// The position in the order of the day that the `k`-th 3rd-order daily input
/// comes from, with the facts the input's key holds of it.
proof fn lemma_third_order_position(views: Seq<DailyViewContext>, p: Seq<usize>, n: int, k: int) -> (t: int)
    requires
        0 <= k < dci_items(day_contexts_upto(views, p, n)).len(),
    ensures
        2 <= t < n,
        views[p[t - 1] as int].asset_id@ == views[p[t] as int].asset_id@,
        views[p[t - 2] as int].asset_id@ == views[p[t] as int].asset_id@,
        dci_items(day_contexts_upto(views, p, n))[k].key == Some(
            seq![
                tx(views[p[t] as int].asset_id@),
                tx(day_outcome_of(views[p[t - 2] as int])),
                tx(day_outcome_of(views[p[t - 1] as int])),
                tx(dow_name(weekday_index(views[p[t - 1] as int].trading_date as int))),
                tx(day_outcome_of(views[p[t] as int])),
            ],
        ),
        dci_items(day_contexts_upto(views, p, n))[k].date == views[p[t] as int].trading_date,
{
    let ds = day_contexts_upto(views, p, n);
    let l = ds.map_values(|x: DayContextView| dci_item(x));
    let (i, j) = lemma_joined_member(l, k);
    assert(l[i] == dci_item(ds[i]));
    let t = lemma_day_context_position(views, p, n, i);
    assert(ds[i] == day_context_at(views, p, t));
    t
}

/// Each 3rd-order daily input comes from a day at some position `t >= 2` of
/// the order whose two previous positions hold days of the same asset: its key
/// is the asset, the outcome of the day two positions earlier (PD2), the
/// outcome of the day just before (PD1), the weekday of the day before and the
/// day's own outcome, and its date is the day's.
pub proof fn third_order_inputs_from_previous_days(views: Seq<DailyViewContext>, p: Seq<usize>, n: int, k: int)
    requires
        0 <= k < dci_items(day_contexts_upto(views, p, n)).len(),
    ensures
        exists|t: int|
            #![trigger p[t]]
            2 <= t < n && {
                let it = dci_items(day_contexts_upto(views, p, n))[k];
                let d0 = views[p[t] as int];
                let d1 = views[p[t - 1] as int];
                let d2 = views[p[t - 2] as int];
                &&& d1.asset_id@ == d0.asset_id@
                &&& d2.asset_id@ == d0.asset_id@
                &&& it.key == Some(
                    seq![
                        tx(d0.asset_id@),
                        tx(day_outcome_of(d2)),
                        tx(day_outcome_of(d1)),
                        tx(dow_name(weekday_index(d1.trading_date as int))),
                        tx(day_outcome_of(d0)),
                    ],
                )
                &&& it.date == d0.trading_date
            },
{
    let t = lemma_third_order_position(views, p, n, k);
    assert(p[t] == p[t]);
}

/// The rate that the `k`-th PDCS row scores.
proof fn lemma_pdcs_row_source(conds: Seq<WeightedRate>, bases: Seq<WeightedRate>, k: int) -> (c: int)
    requires
        0 <= k < pdcs_rows(conds, bases).len(),
    ensures
        0 <= c < conds.len(),
        pdcs_row(conds[c], bases).len() == 1,
        pdcs_rows(conds, bases)[k] == pdcs_row(conds[c], bases)[0],
    decreases conds.len(),
{
    let p = conds.drop_last();
    if k < pdcs_rows(p, bases).len() {
        let c = lemma_pdcs_row_source(p, bases, k);
        assert(conds[c] == p[c]);
        c
    } else {
        conds.len() - 1
    }
}

/// Each PDCS score of a 3rd-order table tallied from the day contexts of an
/// order stands for a day at some position `t >= 2` whose two previous
/// positions hold days of the same asset: its asset is the day's, its PD2
/// outcome that of the day two positions earlier, its PD1 outcome that of the
/// day just before, its weekday that of the day before, and its outcome the
/// day's own.
#[verifier::spinoff_prover]
pub proof fn pdcs_scores_from_previous_days(
    views: Seq<DailyViewContext>,
    p: Seq<usize>,
    n: int,
    conds: Seq<WeightedRate>,
    bases: Seq<WeightedRate>,
    min_tenths: int,
    k: int,
)
    requires
        is_weighted_table(conds, tallied(dci_items(day_contexts_upto(views, p, n))), min_tenths),
        0 <= k < pdcs_rows(conds, bases).len(),
    ensures
        exists|t: int|
            #![trigger p[t]]
            2 <= t < n && {
                let row = pdcs_rows(conds, bases)[k];
                let d0 = views[p[t] as int];
                let d1 = views[p[t - 1] as int];
                let d2 = views[p[t - 2] as int];
                &&& d1.asset_id@ == d0.asset_id@
                &&& d2.asset_id@ == d0.asset_id@
                &&& row.asset == d0.asset_id@
                &&& row.pd2 == day_outcome_of(d2)
                &&& row.pd1 == day_outcome_of(d1)
                &&& row.dow == dow_name(weekday_index(d1.trading_date as int))
                &&& row.day0 == day_outcome_of(d0)
            },
{
    let items = dci_items(day_contexts_upto(views, p, n));
    let c = lemma_pdcs_row_source(conds, bases, k);
    let key = rate_key(conds[c]);
    let row = pdcs_rows(conds, bases)[k];
    assert(key.len() == 5 && row.asset == text_of(key[0]) && row.pd2 == text_of(key[1]) && row.pd1 == text_of(
        key[2],
    ) && row.dow == text_of(key[3]) && row.day0 == text_of(key[4]));
    let j = choose|j: int| 0 <= j < tallied(items).len() && #[trigger] tallied(items)[j].key == Some(rate_key(conds[c]));
    assert(tallied(items)[j].key == items[j].key);
    let t = lemma_third_order_position(views, p, n, j);
    assert(p[t] == p[t]);
}

} // verus!
