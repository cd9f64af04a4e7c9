use vstd::prelude::*;
use crate::keys::{KeyPart, KeyVal, key_view, copy_key, same_key};
use crate::models::{DayNumber, LookbackInterval};
use crate::aggregate::{
    Observation, ObsView, CountEntry, TotalEntry, obs_views, event_count, pattern_total, eligible,
    entry_has_key, total_has_key, is_count_table, is_total_table, starts_view, aggregate_counts,
    aggregate_totals,
};

verus! {

pub struct IntervalView {
    pub name: Seq<char>,
    pub weight_pct: int,
    pub start: int,
}

impl View for LookbackInterval {
    type V = IntervalView;

    open spec fn view(&self) -> IntervalView {
        IntervalView { name: self.name@, weight_pct: self.weight_pct as int, start: self.start_date as int }
    }
}

pub open spec fn intervals_view(iv: Seq<LookbackInterval>) -> Seq<IntervalView> {
    iv.map_values(|i: LookbackInterval| i@)
}

pub open spec fn interval_starts_view(iv: Seq<IntervalView>) -> Seq<int> {
    iv.map_values(|i: IntervalView| i.start)
}

/// The start days of the intervals, in order.
pub fn interval_starts(intervals: &Vec<LookbackInterval>) -> (r: Vec<DayNumber>)
    ensures
        starts_view(r@) == interval_starts_view(intervals_view(intervals@)),
{
    let mut r: Vec<DayNumber> = Vec::new();
    let mut i: usize = 0;
    while i < intervals.len()
        invariant
            i <= intervals.len(),
            r@.len() == i,
            forall|k: int| 0 <= k < i ==> #[trigger] r@[k] == intervals@[k].start_date,
        decreases intervals.len() - i,
    {
        r.push(intervals[i].start_date);
        i = i + 1;
    }
    assert(starts_view(r@) =~= interval_starts_view(intervals_view(intervals@)));
    r
}

/// The count of a group in the intervals named `name`, summed over the first
/// `n` intervals (an interval name may occur more than once).
pub open spec fn named_count(
    obs: Seq<ObsView>,
    iv: Seq<IntervalView>,
    asset: Seq<char>,
    pattern: Seq<KeyVal>,
    outcome: Seq<KeyVal>,
    name: Seq<char>,
    n: int,
) -> nat
    decreases n,
{
    if n <= 0 {
        0
    } else {
        named_count(obs, iv, asset, pattern, outcome, name, n - 1) + if iv[n - 1].name == name {
            event_count(obs, asset, pattern, outcome, iv[n - 1].start)
        } else {
            0
        }
    }
}

/// The total of a pattern in the intervals named `name`, summed over the
/// first `n` intervals.
pub open spec fn named_total(
    obs: Seq<ObsView>,
    iv: Seq<IntervalView>,
    asset: Seq<char>,
    pattern: Seq<KeyVal>,
    name: Seq<char>,
    n: int,
) -> nat
    decreases n,
{
    if n <= 0 {
        0
    } else {
        named_total(obs, iv, asset, pattern, name, n - 1) + if iv[n - 1].name == name {
            pattern_total(obs, asset, pattern, iv[n - 1].start)
        } else {
            0
        }
    }
}

/// Occurrences (`count`) of an outcome among the occurrences (`total`) of its
/// pattern in one lookback window. Its probability is `count / total`, and 0
/// where `total` is 0.
#[derive(Debug, Clone, Copy)]
pub struct IntervalStat {
    pub count: u128,
    pub total: u128,
}

/// The conditional-rate record of one (asset, pattern, outcome) group in the
/// three lookback windows "6M", "1Y" and "ALL".
#[derive(Debug)]
pub struct RateRow {
    pub asset_id: String,
    pub pattern: Vec<KeyPart>,
    pub outcome: Vec<KeyPart>,
    pub six_month: IntervalStat,
    pub one_year: IntervalStat,
    pub all_history: IntervalStat,
}

pub open spec fn six_month_name() -> Seq<char> {
    seq!['6', 'M']
}

pub open spec fn one_year_name() -> Seq<char> {
    seq!['1', 'Y']
}

pub open spec fn all_history_name() -> Seq<char> {
    seq!['A', 'L', 'L']
}

pub open spec fn row_has_key(r: RateRow, asset: Seq<char>, pattern: Seq<KeyVal>, outcome: Seq<KeyVal>) -> bool {
    r.asset_id@ == asset && key_view(r.pattern@) == pattern && key_view(r.outcome@) == outcome
}

pub open spec fn stat_is(
    s: IntervalStat,
    obs: Seq<ObsView>,
    iv: Seq<IntervalView>,
    asset: Seq<char>,
    pattern: Seq<KeyVal>,
    outcome: Seq<KeyVal>,
    name: Seq<char>,
) -> bool {
    &&& s.count == named_count(obs, iv, asset, pattern, outcome, name, iv.len() as int)
    &&& s.total == named_total(obs, iv, asset, pattern, name, iv.len() as int)
}

pub open spec fn row_stats(r: RateRow, obs: Seq<ObsView>, iv: Seq<IntervalView>) -> bool {
    let a = r.asset_id@;
    let p = key_view(r.pattern@);
    let o = key_view(r.outcome@);
    &&& stat_is(r.six_month, obs, iv, a, p, o, six_month_name())
    &&& stat_is(r.one_year, obs, iv, a, p, o, one_year_name())
    &&& stat_is(r.all_history, obs, iv, a, p, o, all_history_name())
}

/// Whether the row's group occurs in at least one interval.
pub open spec fn occurs(r: RateRow, obs: Seq<ObsView>, iv: Seq<IntervalView>) -> bool {
    exists|i: int|
        0 <= i < iv.len() && #[trigger] event_count(
            obs,
            r.asset_id@,
            key_view(r.pattern@),
            key_view(r.outcome@),
            iv[i].start,
        ) > 0
}

/// The rate table of a set of observations: one row per distinct
/// (asset, pattern, outcome) that occurs in some interval, with its counts and
/// its pattern's totals in the three named windows.
pub open spec fn is_rate_table(r: Seq<RateRow>, obs: Seq<ObsView>, iv: Seq<IntervalView>) -> bool {
    &&& forall|k: int| #![trigger r[k]] 0 <= k < r.len() ==> row_stats(r[k], obs, iv)
    &&& forall|k: int| #![trigger r[k]] 0 <= k < r.len() ==> occurs(r[k], obs, iv)
    &&& forall|j: int, i: int|
        0 <= j < obs.len() && 0 <= i < iv.len() && #[trigger] eligible(obs[j], iv[i].start)
            ==> exists|k: int|
            0 <= k < r.len() && #[trigger] row_has_key(r[k], obs[j].asset, obs[j].pattern->0, obs[j].outcome->0)
    &&& forall|k1: int, k2: int|
        0 <= k1 < r.len() && 0 <= k2 < r.len() && k1 != k2 ==> !row_has_key(
            #[trigger] r[k1],
            (#[trigger] r[k2]).asset_id@,
            key_view(r[k2].pattern@),
            key_view(r[k2].outcome@),
        )
}

proof fn lemma_event_count_bound(obs: Seq<ObsView>, asset: Seq<char>, pattern: Seq<KeyVal>, outcome: Seq<KeyVal>, start: int)
    ensures
        event_count(obs, asset, pattern, outcome, start) <= obs.len(),
    decreases obs.len(),
{
    if obs.len() > 0 {
        lemma_event_count_bound(obs.drop_last(), asset, pattern, outcome, start);
    }
}

proof fn lemma_pattern_total_bound(obs: Seq<ObsView>, asset: Seq<char>, pattern: Seq<KeyVal>, start: int)
    ensures
        pattern_total(obs, asset, pattern, start) <= obs.len(),
    decreases obs.len(),
{
    if obs.len() > 0 {
        lemma_pattern_total_bound(obs.drop_last(), asset, pattern, start);
    }
}

proof fn lemma_mul_bound(a: int, b: int)
    requires
        0 <= a <= usize::MAX,
        0 <= b <= usize::MAX,
    ensures
        a * b <= u128::MAX,
{
    assert(a * b <= usize::MAX * usize::MAX) by (nonlinear_arith)
        requires
            0 <= a <= usize::MAX,
            0 <= b <= usize::MAX,
    ;
    assert(usize::MAX * usize::MAX <= u128::MAX) by (nonlinear_arith)
        requires
            usize::MAX <= u64::MAX,
    ;
}

/// The stats of one group in the intervals named `name`: its counts summed
/// over those intervals, and its pattern's totals summed over them.
fn named_stat(
    counts: &Vec<usize>,
    totals: &Vec<usize>,
    intervals: &Vec<LookbackInterval>,
    name: &String,
    Ghost(obs): Ghost<Seq<ObsView>>,
    Ghost(asset): Ghost<Seq<char>>,
    Ghost(pattern): Ghost<Seq<KeyVal>>,
    Ghost(outcome): Ghost<Seq<KeyVal>>,
) -> (r: IntervalStat)
    requires
        counts@.len() == intervals.len(),
        totals@.len() == intervals.len(),
        forall|i: int| 0 <= i < intervals.len() ==> #[trigger] counts@[i] == event_count(obs, asset, pattern, outcome, intervals@[i].start_date as int),
        forall|i: int| 0 <= i < intervals.len() ==> #[trigger] totals@[i] == pattern_total(obs, asset, pattern, intervals@[i].start_date as int),
    ensures
        stat_is(r, obs, intervals_view(intervals@), asset, pattern, outcome, name@),
{
    let ghost iv = intervals_view(intervals@);
    let mut c: u128 = 0;
    let mut t: u128 = 0;
    let mut i: usize = 0;
    while i < intervals.len()
        invariant
            i <= intervals.len(),
            iv == intervals_view(intervals@),
            counts@.len() == intervals.len(),
            totals@.len() == intervals.len(),
            forall|m: int| 0 <= m < intervals.len() ==> #[trigger] counts@[m] == event_count(obs, asset, pattern, outcome, intervals@[m].start_date as int),
            forall|m: int| 0 <= m < intervals.len() ==> #[trigger] totals@[m] == pattern_total(obs, asset, pattern, intervals@[m].start_date as int),
            c == named_count(obs, iv, asset, pattern, outcome, name@, i as int),
            t == named_total(obs, iv, asset, pattern, name@, i as int),
            c <= i * usize::MAX,
            t <= i * usize::MAX,
        decreases intervals.len() - i,
    {
        assert(iv[i as int] == intervals@[i as int]@);
        if intervals[i].name == *name {
            assert((i + 1) * usize::MAX <= u128::MAX) by {
                lemma_mul_bound(i + 1, usize::MAX as int);
            }
            c = c + counts[i] as u128;
            t = t + totals[i] as u128;
        }
        i = i + 1;
    }
    IntervalStat { count: c, total: t }
}

/// The totals of the entry with the given (asset, pattern), if there is one.
fn find_totals(totals: &Vec<TotalEntry>, asset: &String, pattern: &Vec<KeyPart>) -> (r: Option<usize>)
    ensures
        match r {
            Some(k) => k < totals.len() && total_has_key(totals@[k as int], asset@, key_view(pattern@)),
            None => forall|k: int| 0 <= k < totals.len() ==> !total_has_key(#[trigger] totals@[k], asset@, key_view(pattern@)),
        },
{
    let mut k: usize = 0;
    while k < totals.len()
        invariant
            k <= totals.len(),
            forall|m: int| 0 <= m < k ==> !total_has_key(#[trigger] totals@[m], asset@, key_view(pattern@)),
        decreases totals.len() - k,
    {
        if totals[k].asset_id == *asset && same_key(&totals[k].pattern, pattern) {
            return Some(k);
        }
        k = k + 1;
    }
    None
}

/// Counts the observations per (asset, pattern, outcome) and per (asset,
/// pattern) for each lookback interval: the numerators and denominators of the
/// conditional rates.
pub fn aggregate_ml_features(data: &Vec<Observation>, intervals: &Vec<LookbackInterval>) -> (r: (Vec<CountEntry>, Vec<TotalEntry>))
    ensures
        is_count_table(r.0@, obs_views(data@), interval_starts_view(intervals_view(intervals@))),
        is_total_table(r.1@, obs_views(data@), interval_starts_view(intervals_view(intervals@))),
{
    let starts = interval_starts(intervals);
    let counts = aggregate_counts(data, &starts);
    let totals = aggregate_totals(data, &starts);
    (counts, totals)
}

/// The rate table of the observations in the lookback windows "6M", "1Y" and
/// "ALL": for each group, its count and its pattern's total in each window.
pub fn rate_table(data: &Vec<Observation>, intervals: &Vec<LookbackInterval>) -> (r: Vec<RateRow>)
    ensures
        is_rate_table(r@, obs_views(data@), intervals_view(intervals@)),
{
    let ghost ov = obs_views(data@);
    let ghost iv = intervals_view(intervals@);
    let ghost sv = interval_starts_view(iv);
    let (counts, totals) = aggregate_ml_features(data, intervals);
    assert(forall|i: int| 0 <= i < intervals.len() ==> #[trigger] sv[i] == intervals@[i].start_date as int);
    let six = "6M".to_owned();
    let one = "1Y".to_owned();
    let all = "ALL".to_owned();
    proof {
        reveal_strlit("6M");
        reveal_strlit("1Y");
        reveal_strlit("ALL");
        assert(six@ =~= six_month_name());
        assert(one@ =~= one_year_name());
        assert(all@ =~= all_history_name());
    }
    let mut rows: Vec<RateRow> = Vec::new();
    let mut k: usize = 0;
    while k < counts.len()
        invariant
            k <= counts.len(),
            ov == obs_views(data@),
            iv == intervals_view(intervals@),
            sv == interval_starts_view(iv),
            sv.len() == intervals.len(),
            forall|i: int| 0 <= i < intervals.len() ==> #[trigger] sv[i] == intervals@[i].start_date as int,
            is_count_table(counts@, ov, sv),
            is_total_table(totals@, ov, sv),
            six@ == six_month_name(),
            one@ == one_year_name(),
            all@ == all_history_name(),
            rows@.len() == k,
            forall|m: int| 0 <= m < k ==> #[trigger] entry_has_key(counts@[m], rows@[m].asset_id@, key_view(rows@[m].pattern@), key_view(rows@[m].outcome@)),
            forall|m: int| 0 <= m < k ==> row_stats(#[trigger] rows@[m], ov, iv),
        decreases counts.len() - k,
    {
        let e = &counts[k];
        let ghost a = e.asset_id@;
        let ghost p = key_view(e.pattern@);
        let ghost o = key_view(e.outcome@);
        assert(e.counts@.len() == sv.len());
        let found = find_totals(&totals, &e.asset_id, &e.pattern);
        let tk = match found {
            Some(tk) => tk,
            None => {
                proof {
                    let i = choose|i: int| 0 <= i < sv.len() && #[trigger] e.counts@[i] > 0;
                    assert(event_count(ov, a, p, o, sv[i]) > 0);
                    lemma_exists_counts_toward(ov, a, p, o, sv[i]);
                    let jj = choose|jj: int| 0 <= jj < ov.len() && #[trigger] crate::aggregate::counts_toward(ov[jj], a, p, o, sv[i]);
                    assert(eligible(ov[jj], sv[i]));
                    let m = choose|m: int| 0 <= m < totals@.len() && #[trigger] total_has_key(totals@[m], ov[jj].asset, ov[jj].pattern->0);
                    assert(total_has_key(totals@[m], a, p));
                }
                0
            },
        };
        let t = &totals[tk];
        assert(t.totals@.len() == sv.len());
        assert forall|i: int| 0 <= i < intervals.len() implies #[trigger] e.counts@[i] == event_count(ov, a, p, o, intervals@[i].start_date as int) by {
            assert(e.counts@[i] == event_count(ov, a, p, o, sv[i]));
        }
        assert forall|i: int| 0 <= i < intervals.len() implies #[trigger] t.totals@[i] == pattern_total(ov, a, p, intervals@[i].start_date as int) by {
            assert(t.totals@[i] == pattern_total(ov, t.asset_id@, key_view(t.pattern@), sv[i]));
        }
        let s6 = named_stat(&e.counts, &t.totals, intervals, &six, Ghost(ov), Ghost(a), Ghost(p), Ghost(o));
        let s1 = named_stat(&e.counts, &t.totals, intervals, &one, Ghost(ov), Ghost(a), Ghost(p), Ghost(o));
        let sa = named_stat(&e.counts, &t.totals, intervals, &all, Ghost(ov), Ghost(a), Ghost(p), Ghost(o));
        rows.push(RateRow {
            asset_id: e.asset_id.clone(),
            pattern: copy_key(&e.pattern),
            outcome: copy_key(&e.outcome),
            six_month: s6,
            one_year: s1,
            all_history: sa,
        });
        k = k + 1;
    }
    proof {
        assert forall|m: int| #![trigger rows@[m]] 0 <= m < rows@.len() implies row_stats(rows@[m], ov, iv) by {}
        assert forall|m: int| #![trigger rows@[m]] 0 <= m < rows@.len() implies occurs(rows@[m], ov, iv) by {
            assert(m < counts@.len());
            assert(entry_has_key(counts@[m], rows@[m].asset_id@, key_view(rows@[m].pattern@), key_view(rows@[m].outcome@)));
            let i = choose|i: int| 0 <= i < sv.len() && #[trigger] counts@[m].counts@[i] > 0;
            assert(counts@[m].counts@[i] == event_count(ov, counts@[m].asset_id@, key_view(counts@[m].pattern@), key_view(counts@[m].outcome@), sv[i]));
            assert(sv[i] == iv[i].start);
            assert(event_count(ov, rows@[m].asset_id@, key_view(rows@[m].pattern@), key_view(rows@[m].outcome@), iv[i].start) > 0);
        }
        assert forall|j: int, i: int|
            0 <= j < ov.len() && 0 <= i < iv.len() && #[trigger] eligible(ov[j], iv[i].start)
                implies exists|m: int| 0 <= m < rows@.len() && #[trigger] row_has_key(rows@[m], ov[j].asset, ov[j].pattern->0, ov[j].outcome->0) by {
            assert(sv[i] == iv[i].start);
            assert(eligible(ov[j], sv[i]));
            let m = choose|m: int| 0 <= m < counts@.len() && #[trigger] entry_has_key(counts@[m], ov[j].asset, ov[j].pattern->0, ov[j].outcome->0);
            assert(entry_has_key(counts@[m], rows@[m].asset_id@, key_view(rows@[m].pattern@), key_view(rows@[m].outcome@)));
            assert(row_has_key(rows@[m], ov[j].asset, ov[j].pattern->0, ov[j].outcome->0));
        }
        assert forall|k1: int, k2: int|
            0 <= k1 < rows@.len() && 0 <= k2 < rows@.len() && k1 != k2 implies !row_has_key(
                #[trigger] rows@[k1],
                (#[trigger] rows@[k2]).asset_id@,
                key_view(rows@[k2].pattern@),
                key_view(rows@[k2].outcome@),
            ) by {
            assert(entry_has_key(counts@[k1], rows@[k1].asset_id@, key_view(rows@[k1].pattern@), key_view(rows@[k1].outcome@)));
            assert(entry_has_key(counts@[k2], rows@[k2].asset_id@, key_view(rows@[k2].pattern@), key_view(rows@[k2].outcome@)));
        }
    }
    rows
}

proof fn lemma_exists_counts_toward(obs: Seq<ObsView>, asset: Seq<char>, pattern: Seq<KeyVal>, outcome: Seq<KeyVal>, start: int)
    requires
        event_count(obs, asset, pattern, outcome, start) > 0,
    ensures
        exists|j: int| 0 <= j < obs.len() && #[trigger] crate::aggregate::counts_toward(obs[j], asset, pattern, outcome, start),
    decreases obs.len(),
{
    if crate::aggregate::counts_toward(obs.last(), asset, pattern, outcome, start) {
        assert(crate::aggregate::counts_toward(obs[obs.len() - 1], asset, pattern, outcome, start));
    } else {
        lemma_exists_counts_toward(obs.drop_last(), asset, pattern, outcome, start);
        let j = choose|j: int| 0 <= j < obs.drop_last().len() && #[trigger] crate::aggregate::counts_toward(obs.drop_last()[j], asset, pattern, outcome, start);
        assert(obs[j] == obs.drop_last()[j]);
    }
}

/// Whether a row's outcome is "the move continued".
pub open spec fn is_continuation_row(r: RateRow) -> bool {
    key_view(r.outcome@) == seq![KeyVal::Flag(true)]
}

/// The rows whose outcome is "the move continued", in order.
pub open spec fn continuation_rows(rows: Seq<RateRow>) -> Seq<RateRow>
    decreases rows.len(),
{
    if rows.len() == 0 {
        seq![]
    } else {
        let rest = continuation_rows(rows.drop_last());
        if is_continuation_row(rows.last()) {
            rest.push(rows.last())
        } else {
            rest
        }
    }
}

fn continuation_row_check(row: &RateRow) -> (r: bool)
    ensures
        r == is_continuation_row(*row),
{
    if row.outcome.len() != 1 {
        assert(key_view(row.outcome@).len() != 1);
        return false;
    }
    let r = match &row.outcome[0] {
        KeyPart::Flag(b) => *b,
        _ => false,
    };
    assert(key_view(row.outcome@)[0] == row.outcome@[0]@);
    if r {
        assert(key_view(row.outcome@) =~= seq![KeyVal::Flag(true)]);
    }
    r
}

/// Keeps the rows of continuation rates: those whose outcome is "the move
/// continued".
pub fn extract_continuation_results(rows: Vec<RateRow>) -> (r: Vec<RateRow>)
    ensures
        r@ == continuation_rows(rows@),
{
    let ghost orig = rows@;
    let mut rows = rows;
    let mut out: Vec<RateRow> = Vec::new();
    let ghost mut k: int = 0;
    while rows.len() > 0
        invariant
            0 <= k <= orig.len(),
            rows@ == orig.skip(k),
            out@ == continuation_rows(orig.take(k)),
        decreases rows.len(),
    {
        let row = rows.remove(0);
        proof {
            assert(row == orig[k]);
            assert(orig.take(k + 1).drop_last() =~= orig.take(k));
            assert(orig.take(k + 1).last() == orig[k]);
        }
        if continuation_row_check(&row) {
            out.push(row);
        }
        proof {
            assert(rows@ =~= orig.skip(k + 1));
            k = k + 1;
        }
    }
    assert(orig.take(k) =~= orig);
    out
}

/// How a conditional row finds its base rate.
#[derive(Debug, Clone, Copy)]
pub enum BaseLookup {
    /// The conditional outcome is a pair (name or number, bias); the base row
    /// has the first as its pattern and the second as its outcome.
    OutcomePair,
    /// The base row has the same outcome (its pattern is not compared).
    SameOutcome,
    /// The conditional pattern ends with the extreme type; the base row has
    /// that type as its pattern and the same outcome.
    ExtremeType,
}

/// The value of a rate row.
pub struct RowView {
    pub asset: Seq<char>,
    pub pattern: Seq<KeyVal>,
    pub outcome: Seq<KeyVal>,
    pub six_month: IntervalStat,
    pub one_year: IntervalStat,
    pub all_history: IntervalStat,
}

impl View for RateRow {
    type V = RowView;

    open spec fn view(&self) -> RowView {
        RowView {
            asset: self.asset_id@,
            pattern: key_view(self.pattern@),
            outcome: key_view(self.outcome@),
            six_month: self.six_month,
            one_year: self.one_year,
            all_history: self.all_history,
        }
    }
}

pub open spec fn row_views(rows: Seq<RateRow>) -> Seq<RowView> {
    rows.map_values(|r: RateRow| r@)
}

/// A copy of a rate row with the same value.
pub fn copy_row(r: &RateRow) -> (c: RateRow)
    ensures
        c@ == r@,
{
    RateRow {
        asset_id: r.asset_id.clone(),
        pattern: copy_key(&r.pattern),
        outcome: copy_key(&r.outcome),
        six_month: r.six_month,
        one_year: r.one_year,
        all_history: r.all_history,
    }
}

/// A copy of a list of rate rows with the same value.
pub fn copy_rows(rows: &Vec<RateRow>) -> (c: Vec<RateRow>)
    ensures
        row_views(c@) == row_views(rows@),
{
    let mut c: Vec<RateRow> = Vec::new();
    let mut i: usize = 0;
    while i < rows.len()
        invariant
            i <= rows.len(),
            c@.len() == i,
            forall|k: int| 0 <= k < i ==> #[trigger] c@[k]@ == rows@[k]@,
        decreases rows.len() - i,
    {
        c.push(copy_row(&rows[i]));
        i = i + 1;
    }
    assert(row_views(c@) =~= row_views(rows@));
    c
}

/// Whether `base` is the base row of the same asset that `cond` is compared with.
pub open spec fn base_matches(mode: BaseLookup, cond: RowView, base: RowView) -> bool {
    let cp = cond.pattern;
    let co = cond.outcome;
    let bp = base.pattern;
    let bo = base.outcome;
    base.asset == cond.asset && match mode {
        BaseLookup::OutcomePair => co.len() == 2 && bp == seq![co[0]] && bo == seq![co[1]],
        BaseLookup::SameOutcome => bo == co,
        BaseLookup::ExtremeType => cp.len() == 5 && bp == seq![cp[4]] && bo == co,
    }
}

/// The index of the last base row that `cond` is compared with, if any (a
/// later base row of the same key replaces an earlier one).
pub open spec fn last_base(mode: BaseLookup, cond: RowView, bases: Seq<RowView>) -> Option<int>
    decreases bases.len(),
{
    if bases.len() == 0 {
        None
    } else if base_matches(mode, cond, bases.last()) {
        Some(bases.len() - 1)
    } else {
        last_base(mode, cond, bases.drop_last())
    }
}

/// A conditional rate row beside the base rates of its outcome, from which
/// its lifts (conditional probability over base probability) follow.
#[derive(Debug)]
pub struct LiftRow {
    pub row: RateRow,
    pub base_six_month: IntervalStat,
    pub base_one_year: IntervalStat,
    pub base_all_history: IntervalStat,
}

pub struct LiftView {
    pub row: RowView,
    pub base_six_month: IntervalStat,
    pub base_one_year: IntervalStat,
    pub base_all_history: IntervalStat,
}

impl View for LiftRow {
    type V = LiftView;

    open spec fn view(&self) -> LiftView {
        LiftView {
            row: self.row@,
            base_six_month: self.base_six_month,
            base_one_year: self.base_one_year,
            base_all_history: self.base_all_history,
        }
    }
}

pub open spec fn lift_views(rows: Seq<LiftRow>) -> Seq<LiftView> {
    rows.map_values(|r: LiftRow| r@)
}

/// Each conditional row that has a base row, beside that base row's stats,
/// in order; rows without a base row are left out.
pub open spec fn lifts_of(mode: BaseLookup, conds: Seq<RowView>, bases: Seq<RowView>) -> Seq<LiftView>
    decreases conds.len(),
{
    if conds.len() == 0 {
        seq![]
    } else {
        let rest = lifts_of(mode, conds.drop_last(), bases);
        let c = conds.last();
        match last_base(mode, c, bases) {
            Some(k) => rest.push(LiftView {
                row: c,
                base_six_month: bases[k].six_month,
                base_one_year: bases[k].one_year,
                base_all_history: bases[k].all_history,
            }),
            None => rest,
        }
    }
}

fn key_part_at(k: &Vec<KeyPart>, i: usize, want: &Vec<KeyPart>) -> (r: bool)
    requires
        i < k.len(),
    ensures
        r == (key_view(want@) == seq![key_view(k@)[i as int]]),
{
    if want.len() != 1 {
        assert(key_view(want@).len() != 1);
        return false;
    }
    let r = want[0].same(&k[i]);
    assert(key_view(want@)[0] == want@[0]@);
    assert(key_view(k@)[i as int] == k@[i as int]@);
    if r {
        assert(key_view(want@) =~= seq![key_view(k@)[i as int]]);
    }
    r
}

fn base_matches_check(mode: BaseLookup, cond: &RateRow, base: &RateRow) -> (r: bool)
    ensures
        r == base_matches(mode, cond@, base@),
{
    if base.asset_id != cond.asset_id {
        return false;
    }
    match mode {
        BaseLookup::OutcomePair => {
            if cond.outcome.len() != 2 {
                assert(key_view(cond.outcome@).len() != 2);
                return false;
            }
            key_part_at(&cond.outcome, 0, &base.pattern) && key_part_at(&cond.outcome, 1, &base.outcome)
        },
        BaseLookup::SameOutcome => same_key(&base.outcome, &cond.outcome),
        BaseLookup::ExtremeType => {
            if cond.pattern.len() != 5 {
                assert(key_view(cond.pattern@).len() != 5);
                return false;
            }
            key_part_at(&cond.pattern, 4, &base.pattern) && same_key(&base.outcome, &cond.outcome)
        },
    }
}

fn find_base(mode: BaseLookup, cond: &RateRow, bases: &Vec<RateRow>) -> (r: Option<usize>)
    ensures
        match r {
            Some(k) => k < bases.len() && last_base(mode, cond@, row_views(bases@)) == Some(k as int),
            None => last_base(mode, cond@, row_views(bases@)) is None,
        },
{
    let ghost bv = row_views(bases@);
    let mut k = bases.len();
    assert(bv.take(k as int) =~= bv);
    while k > 0
        invariant
            k <= bases.len(),
            bv == row_views(bases@),
            last_base(mode, cond@, bv) == last_base(mode, cond@, bv.take(k as int)),
        decreases k,
    {
        let ghost pre = bv.take(k as int);
        assert(pre.drop_last() =~= bv.take(k - 1));
        assert(pre.last() == bases@[k - 1]@);
        if base_matches_check(mode, cond, &bases[k - 1]) {
            return Some(k - 1);
        }
        k = k - 1;
    }
    assert(bv.take(0).len() == 0);
    None
}

/// Pairs each conditional row with the base rates of its outcome; rows
/// without a base rate are left out.
pub fn lift_rows(mode: BaseLookup, conds: Vec<RateRow>, bases: &Vec<RateRow>) -> (r: Vec<LiftRow>)
    ensures
        lift_views(r@) == lifts_of(mode, row_views(conds@), row_views(bases@)),
{
    let ghost orig = row_views(conds@);
    let ghost bv = row_views(bases@);
    let mut conds = conds;
    let mut out: Vec<LiftRow> = Vec::new();
    let ghost mut k: int = 0;
    while conds.len() > 0
        invariant
            0 <= k <= orig.len(),
            bv == row_views(bases@),
            row_views(conds@) == orig.skip(k),
            lift_views(out@) == lifts_of(mode, orig.take(k), bv),
        decreases conds.len(),
    {
        proof {
            assert(row_views(conds@).len() == conds@.len());
            assert(k < orig.len());
            assert(row_views(conds@)[0] == conds@[0]@);
            assert(orig.skip(k)[0] == orig[k]);
        }
        let ghost cv0 = conds@;
        let c = conds.remove(0);
        proof {
            assert forall|i: int| 0 <= i < conds@.len() implies #[trigger] conds@[i]@ == orig.skip(k + 1)[i] by {
                assert(conds@[i] == cv0[i + 1]);
                assert(row_views(cv0)[i + 1] == cv0[i + 1]@);
            }
        }
        proof {
            assert(c@ == orig[k]);
            assert(orig.take(k + 1).drop_last() =~= orig.take(k));
            assert(orig.take(k + 1).last() == orig[k]);
        }
        let ghost out0 = out@;
        if let Some(b) = find_base(mode, &c, bases) {
            let base = &bases[b];
            assert(bv[b as int] == base@);
            out.push(LiftRow {
                row: c,
                base_six_month: base.six_month,
                base_one_year: base.one_year,
                base_all_history: base.all_history,
            });
            assert(lift_views(out@) =~= lift_views(out0).push(out@.last()@));
        }
        proof {
            assert(row_views(conds@) =~= orig.skip(k + 1));
            k = k + 1;
        }
    }
    assert(orig.take(k) =~= orig);
    out
}

} // verus!
