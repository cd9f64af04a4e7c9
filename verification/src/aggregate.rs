use vstd::prelude::*;
use crate::keys::{KeyPart, KeyVal, key_view, copy_key, same_key};
use crate::models::DayNumber;

verus! {

/// What one context contributes to the counts: its asset, its date, and its
/// pattern and outcome keys where it has them.
#[derive(Debug)]
pub struct Observation {
    pub asset_id: String,
    pub date: DayNumber,
    pub pattern: Option<Vec<KeyPart>>,
    pub outcome: Option<Vec<KeyPart>>,
}

pub struct ObsView {
    pub asset: Seq<char>,
    pub date: int,
    pub pattern: Option<Seq<KeyVal>>,
    pub outcome: Option<Seq<KeyVal>>,
}

pub open spec fn opt_key_view(k: Option<Vec<KeyPart>>) -> Option<Seq<KeyVal>> {
    match k {
        Some(v) => Some(key_view(v@)),
        None => None,
    }
}

impl View for Observation {
    type V = ObsView;

    open spec fn view(&self) -> ObsView {
        ObsView {
            asset: self.asset_id@,
            date: self.date as int,
            pattern: opt_key_view(self.pattern),
            outcome: opt_key_view(self.outcome),
        }
    }
}

pub open spec fn obs_views(obs: Seq<Observation>) -> Seq<ObsView> {
    obs.map_values(|o: Observation| o@)
}

/// Whether an observation is one occurrence of `outcome` after `pattern` for
/// `asset`, on or after day `start`.
pub open spec fn counts_toward(
    o: ObsView,
    asset: Seq<char>,
    pattern: Seq<KeyVal>,
    outcome: Seq<KeyVal>,
    start: int,
) -> bool {
    &&& o.asset == asset
    &&& o.pattern == Some(pattern)
    &&& o.outcome == Some(outcome)
    &&& o.date >= start
}

/// How many observations are occurrences of `outcome` after `pattern` for
/// `asset` on or after day `start`.
pub open spec fn event_count(
    obs: Seq<ObsView>,
    asset: Seq<char>,
    pattern: Seq<KeyVal>,
    outcome: Seq<KeyVal>,
    start: int,
) -> nat
    decreases obs.len(),
{
    if obs.len() == 0 {
        0
    } else {
        event_count(obs.drop_last(), asset, pattern, outcome, start) + if counts_toward(
            obs.last(),
            asset,
            pattern,
            outcome,
            start,
        ) {
            1nat
        } else {
            0nat
        }
    }
}

/// Whether an observation with both keys falls on or after day `start`.
pub open spec fn eligible(o: ObsView, start: int) -> bool {
    o.pattern is Some && o.outcome is Some && o.date >= start
}

/// How many observations of `pattern` for `asset` (with any outcome) fall on
/// or after day `start`.
pub open spec fn pattern_total(obs: Seq<ObsView>, asset: Seq<char>, pattern: Seq<KeyVal>, start: int) -> nat
    decreases obs.len(),
{
    if obs.len() == 0 {
        0
    } else {
        pattern_total(obs.drop_last(), asset, pattern, start) + if obs.last().asset == asset
            && obs.last().pattern == Some(pattern) && obs.last().outcome is Some && obs.last().date
            >= start {
            1nat
        } else {
            0nat
        }
    }
}

/// Counts of one (asset, pattern, outcome) group, one per lookback interval.
#[derive(Debug)]
pub struct CountEntry {
    pub asset_id: String,
    pub pattern: Vec<KeyPart>,
    pub outcome: Vec<KeyPart>,
    pub counts: Vec<usize>,
}

/// Totals of one (asset, pattern) group, one per lookback interval.
#[derive(Debug)]
pub struct TotalEntry {
    pub asset_id: String,
    pub pattern: Vec<KeyPart>,
    pub totals: Vec<usize>,
}

pub open spec fn entry_has_key(
    e: CountEntry,
    asset: Seq<char>,
    pattern: Seq<KeyVal>,
    outcome: Seq<KeyVal>,
) -> bool {
    e.asset_id@ == asset && key_view(e.pattern@) == pattern && key_view(e.outcome@) == outcome
}

pub open spec fn total_has_key(e: TotalEntry, asset: Seq<char>, pattern: Seq<KeyVal>) -> bool {
    e.asset_id@ == asset && key_view(e.pattern@) == pattern
}

pub open spec fn starts_view(starts: Seq<DayNumber>) -> Seq<int> {
    starts.map_values(|d: DayNumber| d as int)
}

/// The grouping of observations into counts: one entry per distinct
/// (asset, pattern, outcome) that occurs in some interval, holding, for each
/// interval, how many observations of it fall in that interval.
pub open spec fn is_count_table(r: Seq<CountEntry>, obs: Seq<ObsView>, starts: Seq<int>) -> bool {
    &&& forall|k: int|
        #![trigger r[k]]
        0 <= k < r.len() ==> {
            &&& r[k].counts@.len() == starts.len()
            &&& forall|i: int|
                0 <= i < starts.len() ==> #[trigger] r[k].counts@[i] == event_count(
                    obs,
                    r[k].asset_id@,
                    key_view(r[k].pattern@),
                    key_view(r[k].outcome@),
                    starts[i],
                )
            &&& exists|i: int| 0 <= i < starts.len() && #[trigger] r[k].counts@[i] > 0
        }
    &&& forall|j: int, i: int|
        0 <= j < obs.len() && 0 <= i < starts.len() && #[trigger] eligible(obs[j], starts[i])
            ==> exists|k: int|
            0 <= k < r.len() && #[trigger] entry_has_key(
                r[k],
                obs[j].asset,
                obs[j].pattern->0,
                obs[j].outcome->0,
            )
    &&& forall|k1: int, k2: int|
        0 <= k1 < r.len() && 0 <= k2 < r.len() && k1 != k2 ==> !entry_has_key(
            #[trigger] r[k1],
            (#[trigger] r[k2]).asset_id@,
            key_view(r[k2].pattern@),
            key_view(r[k2].outcome@),
        )
}

/// The grouping of observations into totals: one entry per distinct
/// (asset, pattern) that occurs with an outcome in some interval, holding, for
/// each interval, how many observations of it fall in that interval.
pub open spec fn is_total_table(r: Seq<TotalEntry>, obs: Seq<ObsView>, starts: Seq<int>) -> bool {
    &&& forall|k: int|
        #![trigger r[k]]
        0 <= k < r.len() ==> {
            &&& r[k].totals@.len() == starts.len()
            &&& forall|i: int|
                0 <= i < starts.len() ==> #[trigger] r[k].totals@[i] == pattern_total(
                    obs,
                    r[k].asset_id@,
                    key_view(r[k].pattern@),
                    starts[i],
                )
            &&& exists|i: int| 0 <= i < starts.len() && #[trigger] r[k].totals@[i] > 0
        }
    &&& forall|j: int, i: int|
        0 <= j < obs.len() && 0 <= i < starts.len() && #[trigger] eligible(obs[j], starts[i])
            ==> exists|k: int|
            0 <= k < r.len() && #[trigger] total_has_key(r[k], obs[j].asset, obs[j].pattern->0)
    &&& forall|k1: int, k2: int|
        0 <= k1 < r.len() && 0 <= k2 < r.len() && k1 != k2 ==> !total_has_key(
            #[trigger] r[k1],
            (#[trigger] r[k2]).asset_id@,
            key_view(r[k2].pattern@),
        )
}

proof fn lemma_event_count_le(obs: Seq<ObsView>, asset: Seq<char>, pattern: Seq<KeyVal>, outcome: Seq<KeyVal>, start: int)
    ensures
        event_count(obs, asset, pattern, outcome, start) <= obs.len(),
    decreases obs.len(),
{
    if obs.len() > 0 {
        lemma_event_count_le(obs.drop_last(), asset, pattern, outcome, start);
    }
}

proof fn lemma_event_count_zero(obs: Seq<ObsView>, asset: Seq<char>, pattern: Seq<KeyVal>, outcome: Seq<KeyVal>, start: int)
    requires
        forall|j: int| 0 <= j < obs.len() ==> !counts_toward(#[trigger] obs[j], asset, pattern, outcome, start),
    ensures
        event_count(obs, asset, pattern, outcome, start) == 0,
    decreases obs.len(),
{
    if obs.len() > 0 {
        assert(!counts_toward(obs[obs.len() - 1], asset, pattern, outcome, start));
        lemma_event_count_zero(obs.drop_last(), asset, pattern, outcome, start);
    }
}

proof fn lemma_event_count_pos(obs: Seq<ObsView>, asset: Seq<char>, pattern: Seq<KeyVal>, outcome: Seq<KeyVal>, start: int)
    requires
        event_count(obs, asset, pattern, outcome, start) > 0,
    ensures
        exists|j: int| 0 <= j < obs.len() && #[trigger] counts_toward(obs[j], asset, pattern, outcome, start),
    decreases obs.len(),
{
    if counts_toward(obs.last(), asset, pattern, outcome, start) {
        assert(counts_toward(obs[obs.len() - 1], asset, pattern, outcome, start));
    } else {
        lemma_event_count_pos(obs.drop_last(), asset, pattern, outcome, start);
        let j = choose|j: int| 0 <= j < obs.drop_last().len() && #[trigger] counts_toward(obs.drop_last()[j], asset, pattern, outcome, start);
        assert(obs[j] == obs.drop_last()[j]);
    }
}

/// Whether `date` falls in at least one interval.
fn in_some_interval(starts: &Vec<DayNumber>, date: DayNumber) -> (r: bool)
    ensures
        r == exists|i: int| 0 <= i < starts.len() && date >= #[trigger] starts@[i],
{
    let mut i: usize = 0;
    while i < starts.len()
        invariant
            i <= starts.len(),
            forall|k: int| 0 <= k < i ==> date < #[trigger] starts@[k],
        decreases starts.len() - i,
    {
        if date >= starts[i] {
            return true;
        }
        i = i + 1;
    }
    false
}

proof fn lemma_event_count_positive(obs: Seq<ObsView>, asset: Seq<char>, pattern: Seq<KeyVal>, outcome: Seq<KeyVal>, start: int, j: int)
    requires
        0 <= j < obs.len(),
        counts_toward(obs[j], asset, pattern, outcome, start),
    ensures
        event_count(obs, asset, pattern, outcome, start) > 0,
    decreases obs.len(),
{
    if j < obs.len() - 1 {
        assert(obs.drop_last()[j] == obs[j]);
        lemma_event_count_positive(obs.drop_last(), asset, pattern, outcome, start, j);
    }
}

/// A distinct (asset, pattern, outcome) group.
pub struct GroupKey {
    pub asset_id: String,
    pub pattern: Vec<KeyPart>,
    pub outcome: Vec<KeyPart>,
}

pub open spec fn group_is(g: GroupKey, asset: Seq<char>, pattern: Seq<KeyVal>, outcome: Seq<KeyVal>) -> bool {
    g.asset_id@ == asset && key_view(g.pattern@) == pattern && key_view(g.outcome@) == outcome
}

/// The distinct groups of the eligible observations, each one once.
pub open spec fn is_group_list(g: Seq<GroupKey>, obs: Seq<ObsView>, starts: Seq<int>) -> bool {
    &&& forall|k: int|
        #![trigger g[k]]
        0 <= k < g.len() ==> exists|j: int, i: int|
            0 <= j < obs.len() && 0 <= i < starts.len() && #[trigger] eligible(obs[j], starts[i])
                && group_is(g[k], obs[j].asset, obs[j].pattern->0, obs[j].outcome->0)
    &&& forall|j: int, i: int|
        0 <= j < obs.len() && 0 <= i < starts.len() && #[trigger] eligible(obs[j], starts[i])
            ==> exists|k: int|
            0 <= k < g.len() && #[trigger] group_is(g[k], obs[j].asset, obs[j].pattern->0, obs[j].outcome->0)
    &&& forall|k1: int, k2: int|
        0 <= k1 < g.len() && 0 <= k2 < g.len() && k1 != k2 ==> !group_is(
            #[trigger] g[k1],
            (#[trigger] g[k2]).asset_id@,
            key_view(g[k2].pattern@),
            key_view(g[k2].outcome@),
        )
}

fn find_group(groups: &Vec<GroupKey>, asset: &String, pattern: &Vec<KeyPart>, outcome: &Vec<KeyPart>) -> (r: bool)
    ensures
        r == exists|k: int| 0 <= k < groups.len() && #[trigger] group_is(groups@[k], asset@, key_view(pattern@), key_view(outcome@)),
{
    let mut k: usize = 0;
    while k < groups.len()
        invariant
            k <= groups.len(),
            forall|m: int| 0 <= m < k ==> !group_is(#[trigger] groups@[m], asset@, key_view(pattern@), key_view(outcome@)),
        decreases groups.len() - k,
    {
        let g = &groups[k];
        if g.asset_id == *asset && same_key(&g.pattern, pattern) && same_key(&g.outcome, outcome) {
            assert(group_is(groups@[k as int], asset@, key_view(pattern@), key_view(outcome@)));
            return true;
        }
        k = k + 1;
    }
    false
}

/// The distinct (asset, pattern, outcome) groups of the observations that have
/// both keys and fall in at least one interval, in order of first occurrence.
fn distinct_groups(obs: &Vec<Observation>, starts: &Vec<DayNumber>) -> (r: Vec<GroupKey>)
    ensures
        is_group_list(r@, obs_views(obs@), starts_view(starts@)),
{
    let ghost ov = obs_views(obs@);
    let ghost sv = starts_view(starts@);
    let mut groups: Vec<GroupKey> = Vec::new();
    let mut j: usize = 0;
    while j < obs.len()
        invariant
            j <= obs.len(),
            ov == obs_views(obs@),
            sv == starts_view(starts@),
            is_group_list(groups@, ov.take(j as int), sv),
        decreases obs.len() - j,
    {
        let ghost prev = ov.take(j as int);
        let ghost next = ov.take(j + 1);
        let ghost g0 = groups@;
        assert(forall|m: int| 0 <= m < j ==> #[trigger] next[m] == prev[m]);
        assert(next[j as int] == obs@[j as int]@);
        let o = &obs[j];
        let mut added = false;
        if let (Some(p), Some(q)) = (&o.pattern, &o.outcome) {
            if in_some_interval(starts, o.date) && !find_group(&groups, &o.asset_id, p, q) {
                groups.push(GroupKey { asset_id: o.asset_id.clone(), pattern: copy_key(p), outcome: copy_key(q) });
                added = true;
                proof {
                    let n = g0.len() as int;
                    assert(groups@[n].asset_id@ == o.asset_id@);
                    let i0 = choose|i: int| 0 <= i < starts@.len() && o.date >= #[trigger] starts@[i];
                    assert(eligible(next[j as int], sv[i0]));
                    assert(group_is(groups@[n], next[j as int].asset, next[j as int].pattern->0, next[j as int].outcome->0));
                }
            }
        }
        proof {
            let n = g0.len() as int;
            assert forall|k: int| #![trigger groups@[k]] 0 <= k < groups@.len() implies exists|jj: int, i: int|
                0 <= jj < next.len() && 0 <= i < sv.len() && #[trigger] eligible(next[jj], sv[i])
                    && group_is(groups@[k], next[jj].asset, next[jj].pattern->0, next[jj].outcome->0) by {
                if k < n {
                    assert(groups@[k] == g0[k]);
                    let (jj, i) = choose|jj: int, i: int|
                        0 <= jj < prev.len() && 0 <= i < sv.len() && #[trigger] eligible(prev[jj], sv[i])
                            && group_is(g0[k], prev[jj].asset, prev[jj].pattern->0, prev[jj].outcome->0);
                    assert(next[jj] == prev[jj]);
                    assert(eligible(next[jj], sv[i]));
                } else {
                    let i0 = choose|i: int| 0 <= i < starts@.len() && o.date >= #[trigger] starts@[i];
                    assert(eligible(next[j as int], sv[i0]));
                }
            }
            assert forall|jj: int, i: int|
                0 <= jj < next.len() && 0 <= i < sv.len() && #[trigger] eligible(next[jj], sv[i])
                    implies exists|k: int|
                    0 <= k < groups@.len() && #[trigger] group_is(groups@[k], next[jj].asset, next[jj].pattern->0, next[jj].outcome->0) by {
                if jj < j {
                    assert(next[jj] == prev[jj]);
                    assert(eligible(prev[jj], sv[i]));
                    let k = choose|k: int| 0 <= k < g0.len() && #[trigger] group_is(g0[k], prev[jj].asset, prev[jj].pattern->0, prev[jj].outcome->0);
                    assert(groups@[k] == g0[k]);
                } else {
                    assert(o.date >= starts@[i]);
                    if !added {
                        let k = choose|k: int| 0 <= k < g0.len() && #[trigger] group_is(g0[k], o.asset_id@, next[jj].pattern->0, next[jj].outcome->0);
                        assert(groups@[k] == g0[k]);
                    } else {
                        assert(group_is(groups@[n], next[jj].asset, next[jj].pattern->0, next[jj].outcome->0));
                    }
                }
            }
            assert forall|k1: int, k2: int|
                0 <= k1 < groups@.len() && 0 <= k2 < groups@.len() && k1 != k2 implies !group_is(
                    #[trigger] groups@[k1],
                    (#[trigger] groups@[k2]).asset_id@,
                    key_view(groups@[k2].pattern@),
                    key_view(groups@[k2].outcome@),
                ) by {
                if k1 < n && k2 < n {
                    assert(groups@[k1] == g0[k1]);
                    assert(groups@[k2] == g0[k2]);
                } else if k1 == n {
                    assert(groups@[k2] == g0[k2]);
                } else {
                    assert(groups@[k1] == g0[k1]);
                }
            }
        }
        j = j + 1;
    }
    assert(ov.take(obs.len() as int) =~= ov);
    groups
}

/// How many observations are occurrences of `outcome` after `pattern` for
/// `asset` on or after day `start`.
fn count_events(obs: &Vec<Observation>, asset: &String, pattern: &Vec<KeyPart>, outcome: &Vec<KeyPart>, start: DayNumber) -> (r: usize)
    ensures
        r == event_count(obs_views(obs@), asset@, key_view(pattern@), key_view(outcome@), start as int),
{
    let ghost ov = obs_views(obs@);
    let mut c: usize = 0;
    let mut j: usize = 0;
    while j < obs.len()
        invariant
            j <= obs.len(),
            ov == obs_views(obs@),
            c == event_count(ov.take(j as int), asset@, key_view(pattern@), key_view(outcome@), start as int),
        decreases obs.len() - j,
    {
        let ghost next = ov.take(j + 1);
        assert(next.drop_last() =~= ov.take(j as int));
        assert(next.last() == obs@[j as int]@);
        proof {
            lemma_event_count_le(ov.take(j as int), asset@, key_view(pattern@), key_view(outcome@), start as int);
        }
        let o = &obs[j];
        if let (Some(p), Some(q)) = (&o.pattern, &o.outcome) {
            if o.asset_id == *asset && o.date >= start && same_key(p, pattern) && same_key(q, outcome) {
                c = c + 1;
            }
        }
        j = j + 1;
    }
    assert(ov.take(obs.len() as int) =~= ov);
    c
}

/// Groups the observations by (asset, pattern, outcome) and counts, for each
/// lookback interval (given by its start day), the observations of each group
/// that fall in it.
pub fn aggregate_counts(obs: &Vec<Observation>, starts: &Vec<DayNumber>) -> (r: Vec<CountEntry>)
    ensures
        is_count_table(r@, obs_views(obs@), starts_view(starts@)),
{
    let ghost ov = obs_views(obs@);
    let ghost sv = starts_view(starts@);
    let groups = distinct_groups(obs, starts);
    let mut r: Vec<CountEntry> = Vec::new();
    let mut k: usize = 0;
    while k < groups.len()
        invariant
            k <= groups.len(),
            ov == obs_views(obs@),
            sv == starts_view(starts@),
            is_group_list(groups@, ov, sv),
            r@.len() == k,
            forall|m: int| 0 <= m < k ==> group_is(groups@[m], (#[trigger] r@[m]).asset_id@, key_view(r@[m].pattern@), key_view(r@[m].outcome@)),
            forall|m: int| #![trigger r@[m]] 0 <= m < k ==> {
                &&& r@[m].counts@.len() == starts.len()
                &&& forall|i: int| 0 <= i < starts.len() ==> #[trigger] r@[m].counts@[i] == event_count(
                    ov, r@[m].asset_id@, key_view(r@[m].pattern@), key_view(r@[m].outcome@), sv[i])
            },
        decreases groups.len() - k,
    {
        let g = &groups[k];
        let mut counts: Vec<usize> = Vec::new();
        let mut i: usize = 0;
        while i < starts.len()
            invariant
                i <= starts.len(),
                ov == obs_views(obs@),
                sv == starts_view(starts@),
                counts@.len() == i,
                forall|m: int| 0 <= m < i ==> #[trigger] counts@[m] == event_count(ov, g.asset_id@, key_view(g.pattern@), key_view(g.outcome@), sv[m]),
            decreases starts.len() - i,
        {
            let c = count_events(obs, &g.asset_id, &g.pattern, &g.outcome, starts[i]);
            counts.push(c);
            i = i + 1;
        }
        r.push(CountEntry { asset_id: g.asset_id.clone(), pattern: copy_key(&g.pattern), outcome: copy_key(&g.outcome), counts });
        k = k + 1;
    }
    proof {
        assert forall|m: int| #![trigger r@[m]] 0 <= m < r@.len() implies exists|i: int| 0 <= i < sv.len() && #[trigger] r@[m].counts@[i] > 0 by {
            let (jj, i) = choose|jj: int, i: int|
                0 <= jj < ov.len() && 0 <= i < sv.len() && #[trigger] eligible(ov[jj], sv[i])
                    && group_is(groups@[m], ov[jj].asset, ov[jj].pattern->0, ov[jj].outcome->0);
            assert(counts_toward(ov[jj], r@[m].asset_id@, key_view(r@[m].pattern@), key_view(r@[m].outcome@), sv[i]));
            lemma_event_count_positive(ov, r@[m].asset_id@, key_view(r@[m].pattern@), key_view(r@[m].outcome@), sv[i], jj);
            assert(r@[m].counts@[i] > 0);
        }
        assert forall|jj: int, i: int|
            0 <= jj < ov.len() && 0 <= i < sv.len() && #[trigger] eligible(ov[jj], sv[i])
                implies exists|m: int|
                0 <= m < r@.len() && #[trigger] entry_has_key(r@[m], ov[jj].asset, ov[jj].pattern->0, ov[jj].outcome->0) by {
            let m = choose|m: int| 0 <= m < groups@.len() && #[trigger] group_is(groups@[m], ov[jj].asset, ov[jj].pattern->0, ov[jj].outcome->0);
            assert(group_is(groups@[m], r@[m].asset_id@, key_view(r@[m].pattern@), key_view(r@[m].outcome@)));
            assert(entry_has_key(r@[m], ov[jj].asset, ov[jj].pattern->0, ov[jj].outcome->0));
        }
        assert forall|k1: int, k2: int|
            0 <= k1 < r@.len() && 0 <= k2 < r@.len() && k1 != k2 implies !entry_has_key(
                #[trigger] r@[k1],
                (#[trigger] r@[k2]).asset_id@,
                key_view(r@[k2].pattern@),
                key_view(r@[k2].outcome@),
            ) by {
            assert(group_is(groups@[k1], r@[k1].asset_id@, key_view(r@[k1].pattern@), key_view(r@[k1].outcome@)));
            assert(group_is(groups@[k2], r@[k2].asset_id@, key_view(r@[k2].pattern@), key_view(r@[k2].outcome@)));
        }
    }
    r
}

proof fn lemma_pattern_total_le(obs: Seq<ObsView>, asset: Seq<char>, pattern: Seq<KeyVal>, start: int)
    ensures
        pattern_total(obs, asset, pattern, start) <= obs.len(),
    decreases obs.len(),
{
    if obs.len() > 0 {
        lemma_pattern_total_le(obs.drop_last(), asset, pattern, start);
    }
}

proof fn lemma_pattern_total_positive(obs: Seq<ObsView>, asset: Seq<char>, pattern: Seq<KeyVal>, start: int, j: int)
    requires
        0 <= j < obs.len(),
        obs[j].asset == asset,
        obs[j].pattern == Some(pattern),
        eligible(obs[j], start),
    ensures
        pattern_total(obs, asset, pattern, start) > 0,
    decreases obs.len(),
{
    if j < obs.len() - 1 {
        assert(obs.drop_last()[j] == obs[j]);
        lemma_pattern_total_positive(obs.drop_last(), asset, pattern, start, j);
    }
}

/// A distinct (asset, pattern) group.
pub struct PatternGroup {
    pub asset_id: String,
    pub pattern: Vec<KeyPart>,
}

pub open spec fn pattern_group_is(g: PatternGroup, asset: Seq<char>, pattern: Seq<KeyVal>) -> bool {
    g.asset_id@ == asset && key_view(g.pattern@) == pattern
}

pub open spec fn is_pattern_group_list(g: Seq<PatternGroup>, obs: Seq<ObsView>, starts: Seq<int>) -> bool {
    &&& forall|k: int|
        #![trigger g[k]]
        0 <= k < g.len() ==> exists|j: int, i: int|
            0 <= j < obs.len() && 0 <= i < starts.len() && #[trigger] eligible(obs[j], starts[i])
                && pattern_group_is(g[k], obs[j].asset, obs[j].pattern->0)
    &&& forall|j: int, i: int|
        0 <= j < obs.len() && 0 <= i < starts.len() && #[trigger] eligible(obs[j], starts[i])
            ==> exists|k: int|
            0 <= k < g.len() && #[trigger] pattern_group_is(g[k], obs[j].asset, obs[j].pattern->0)
    &&& forall|k1: int, k2: int|
        0 <= k1 < g.len() && 0 <= k2 < g.len() && k1 != k2 ==> !pattern_group_is(
            #[trigger] g[k1],
            (#[trigger] g[k2]).asset_id@,
            key_view(g[k2].pattern@),
        )
}

fn find_pattern_group(groups: &Vec<PatternGroup>, asset: &String, pattern: &Vec<KeyPart>) -> (r: bool)
    ensures
        r == exists|k: int| 0 <= k < groups.len() && #[trigger] pattern_group_is(groups@[k], asset@, key_view(pattern@)),
{
    let mut k: usize = 0;
    while k < groups.len()
        invariant
            k <= groups.len(),
            forall|m: int| 0 <= m < k ==> !pattern_group_is(#[trigger] groups@[m], asset@, key_view(pattern@)),
        decreases groups.len() - k,
    {
        let g = &groups[k];
        if g.asset_id == *asset && same_key(&g.pattern, pattern) {
            assert(pattern_group_is(groups@[k as int], asset@, key_view(pattern@)));
            return true;
        }
        k = k + 1;
    }
    false
}

fn distinct_pattern_groups(obs: &Vec<Observation>, starts: &Vec<DayNumber>) -> (r: Vec<PatternGroup>)
    ensures
        is_pattern_group_list(r@, obs_views(obs@), starts_view(starts@)),
{
    let ghost ov = obs_views(obs@);
    let ghost sv = starts_view(starts@);
    let mut groups: Vec<PatternGroup> = Vec::new();
    let mut j: usize = 0;
    while j < obs.len()
        invariant
            j <= obs.len(),
            ov == obs_views(obs@),
            sv == starts_view(starts@),
            is_pattern_group_list(groups@, ov.take(j as int), sv),
        decreases obs.len() - j,
    {
        let ghost prev = ov.take(j as int);
        let ghost next = ov.take(j + 1);
        let ghost g0 = groups@;
        assert(forall|m: int| 0 <= m < j ==> #[trigger] next[m] == prev[m]);
        assert(next[j as int] == obs@[j as int]@);
        let o = &obs[j];
        let mut added = false;
        if let (Some(p), Some(_q)) = (&o.pattern, &o.outcome) {
            if in_some_interval(starts, o.date) && !find_pattern_group(&groups, &o.asset_id, p) {
                groups.push(PatternGroup { asset_id: o.asset_id.clone(), pattern: copy_key(p) });
                added = true;
                proof {
                    let n = g0.len() as int;
                    let i0 = choose|i: int| 0 <= i < starts@.len() && o.date >= #[trigger] starts@[i];
                    assert(eligible(next[j as int], sv[i0]));
                    assert(pattern_group_is(groups@[n], next[j as int].asset, next[j as int].pattern->0));
                }
            }
        }
        proof {
            let n = g0.len() as int;
            assert forall|k: int| #![trigger groups@[k]] 0 <= k < groups@.len() implies exists|jj: int, i: int|
                0 <= jj < next.len() && 0 <= i < sv.len() && #[trigger] eligible(next[jj], sv[i])
                    && pattern_group_is(groups@[k], next[jj].asset, next[jj].pattern->0) by {
                if k < n {
                    assert(groups@[k] == g0[k]);
                    let (jj, i) = choose|jj: int, i: int|
                        0 <= jj < prev.len() && 0 <= i < sv.len() && #[trigger] eligible(prev[jj], sv[i])
                            && pattern_group_is(g0[k], prev[jj].asset, prev[jj].pattern->0);
                    assert(next[jj] == prev[jj]);
                    assert(eligible(next[jj], sv[i]));
                } else {
                    let i0 = choose|i: int| 0 <= i < starts@.len() && o.date >= #[trigger] starts@[i];
                    assert(eligible(next[j as int], sv[i0]));
                }
            }
            assert forall|jj: int, i: int|
                0 <= jj < next.len() && 0 <= i < sv.len() && #[trigger] eligible(next[jj], sv[i])
                    implies exists|k: int|
                    0 <= k < groups@.len() && #[trigger] pattern_group_is(groups@[k], next[jj].asset, next[jj].pattern->0) by {
                if jj < j {
                    assert(next[jj] == prev[jj]);
                    assert(eligible(prev[jj], sv[i]));
                    let k = choose|k: int| 0 <= k < g0.len() && #[trigger] pattern_group_is(g0[k], prev[jj].asset, prev[jj].pattern->0);
                    assert(groups@[k] == g0[k]);
                } else {
                    assert(o.date >= starts@[i]);
                    if !added {
                        let k = choose|k: int| 0 <= k < g0.len() && #[trigger] pattern_group_is(g0[k], o.asset_id@, next[jj].pattern->0);
                        assert(groups@[k] == g0[k]);
                    } else {
                        assert(pattern_group_is(groups@[n], next[jj].asset, next[jj].pattern->0));
                    }
                }
            }
            assert forall|k1: int, k2: int|
                0 <= k1 < groups@.len() && 0 <= k2 < groups@.len() && k1 != k2 implies !pattern_group_is(
                    #[trigger] groups@[k1],
                    (#[trigger] groups@[k2]).asset_id@,
                    key_view(groups@[k2].pattern@),
                ) by {
                if k1 < n && k2 < n {
                    assert(groups@[k1] == g0[k1]);
                    assert(groups@[k2] == g0[k2]);
                } else if k1 == n {
                    assert(groups@[k2] == g0[k2]);
                } else {
                    assert(groups@[k1] == g0[k1]);
                }
            }
        }
        j = j + 1;
    }
    assert(ov.take(obs.len() as int) =~= ov);
    groups
}

fn count_pattern(obs: &Vec<Observation>, asset: &String, pattern: &Vec<KeyPart>, start: DayNumber) -> (r: usize)
    ensures
        r == pattern_total(obs_views(obs@), asset@, key_view(pattern@), start as int),
{
    let ghost ov = obs_views(obs@);
    let mut c: usize = 0;
    let mut j: usize = 0;
    while j < obs.len()
        invariant
            j <= obs.len(),
            ov == obs_views(obs@),
            c == pattern_total(ov.take(j as int), asset@, key_view(pattern@), start as int),
        decreases obs.len() - j,
    {
        let ghost next = ov.take(j + 1);
        assert(next.drop_last() =~= ov.take(j as int));
        assert(next.last() == obs@[j as int]@);
        proof {
            lemma_pattern_total_le(ov.take(j as int), asset@, key_view(pattern@), start as int);
        }
        let o = &obs[j];
        if let (Some(p), Some(_q)) = (&o.pattern, &o.outcome) {
            if o.asset_id == *asset && o.date >= start && same_key(p, pattern) {
                c = c + 1;
            }
        }
        j = j + 1;
    }
    assert(ov.take(obs.len() as int) =~= ov);
    c
}

/// Groups the observations that have both keys by (asset, pattern) and
/// counts, for each lookback interval, the observations of each group that
/// fall in it.
pub fn aggregate_totals(obs: &Vec<Observation>, starts: &Vec<DayNumber>) -> (r: Vec<TotalEntry>)
    ensures
        is_total_table(r@, obs_views(obs@), starts_view(starts@)),
{
    let ghost ov = obs_views(obs@);
    let ghost sv = starts_view(starts@);
    let groups = distinct_pattern_groups(obs, starts);
    let mut r: Vec<TotalEntry> = Vec::new();
    let mut k: usize = 0;
    while k < groups.len()
        invariant
            k <= groups.len(),
            ov == obs_views(obs@),
            sv == starts_view(starts@),
            is_pattern_group_list(groups@, ov, sv),
            r@.len() == k,
            forall|m: int| 0 <= m < k ==> pattern_group_is(groups@[m], (#[trigger] r@[m]).asset_id@, key_view(r@[m].pattern@)),
            forall|m: int| #![trigger r@[m]] 0 <= m < k ==> {
                &&& r@[m].totals@.len() == starts.len()
                &&& forall|i: int| 0 <= i < starts.len() ==> #[trigger] r@[m].totals@[i] == pattern_total(
                    ov, r@[m].asset_id@, key_view(r@[m].pattern@), sv[i])
            },
        decreases groups.len() - k,
    {
        let g = &groups[k];
        let mut totals: Vec<usize> = Vec::new();
        let mut i: usize = 0;
        while i < starts.len()
            invariant
                i <= starts.len(),
                ov == obs_views(obs@),
                sv == starts_view(starts@),
                totals@.len() == i,
                forall|m: int| 0 <= m < i ==> #[trigger] totals@[m] == pattern_total(ov, g.asset_id@, key_view(g.pattern@), sv[m]),
            decreases starts.len() - i,
        {
            let c = count_pattern(obs, &g.asset_id, &g.pattern, starts[i]);
            totals.push(c);
            i = i + 1;
        }
        r.push(TotalEntry { asset_id: g.asset_id.clone(), pattern: copy_key(&g.pattern), totals });
        k = k + 1;
    }
    proof {
        assert forall|m: int| #![trigger r@[m]] 0 <= m < r@.len() implies exists|i: int| 0 <= i < sv.len() && #[trigger] r@[m].totals@[i] > 0 by {
            let (jj, i) = choose|jj: int, i: int|
                0 <= jj < ov.len() && 0 <= i < sv.len() && #[trigger] eligible(ov[jj], sv[i])
                    && pattern_group_is(groups@[m], ov[jj].asset, ov[jj].pattern->0);
            lemma_pattern_total_positive(ov, r@[m].asset_id@, key_view(r@[m].pattern@), sv[i], jj);
            assert(r@[m].totals@[i] > 0);
        }
        assert forall|jj: int, i: int|
            0 <= jj < ov.len() && 0 <= i < sv.len() && #[trigger] eligible(ov[jj], sv[i])
                implies exists|m: int|
                0 <= m < r@.len() && #[trigger] total_has_key(r@[m], ov[jj].asset, ov[jj].pattern->0) by {
            let m = choose|m: int| 0 <= m < groups@.len() && #[trigger] pattern_group_is(groups@[m], ov[jj].asset, ov[jj].pattern->0);
            assert(pattern_group_is(groups@[m], r@[m].asset_id@, key_view(r@[m].pattern@)));
            assert(total_has_key(r@[m], ov[jj].asset, ov[jj].pattern->0));
        }
        assert forall|k1: int, k2: int|
            0 <= k1 < r@.len() && 0 <= k2 < r@.len() && k1 != k2 implies !total_has_key(
                #[trigger] r@[k1],
                (#[trigger] r@[k2]).asset_id@,
                key_view(r@[k2].pattern@),
            ) by {
            assert(pattern_group_is(groups@[k1], r@[k1].asset_id@, key_view(r@[k1].pattern@)));
            assert(pattern_group_is(groups@[k2], r@[k2].asset_id@, key_view(r@[k2].pattern@)));
        }
    }
    r
}

} // verus!
