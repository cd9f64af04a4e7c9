use vstd::prelude::*;
use crate::keys::{KeyPart, KeyVal, key_view, copy_key, same_key};

verus! {

/// One item with its lookback membership resolved: `in_six_months` says
/// whether it also counts toward the "6M" lookback.
#[derive(Debug)]
pub struct TallyItem {
    pub key: Option<Vec<KeyPart>>,
    pub is_event: bool,
    pub in_six_months: bool,
}

pub struct TallyView {
    pub key: Option<Seq<KeyVal>>,
    pub event: bool,
    pub six: bool,
}

pub open spec fn opt_key(k: Option<Vec<KeyPart>>) -> Option<Seq<KeyVal>> {
    match k {
        Some(v) => Some(key_view(v@)),
        None => None,
    }
}

impl View for TallyItem {
    type V = TallyView;

    open spec fn view(&self) -> TallyView {
        TallyView { key: opt_key(self.key), event: self.is_event, six: self.in_six_months }
    }
}

pub open spec fn tally_views(s: Seq<TallyItem>) -> Seq<TallyView> {
    s.map_values(|t: TallyItem| t@)
}

/// Whether an item counts under key `k`; with `events_only` only successes
/// count, with `six_only` only items of the "6M" lookback.
pub open spec fn counted(t: TallyView, k: Seq<KeyVal>, events_only: bool, six_only: bool) -> bool {
    t.key == Some(k) && (!events_only || t.event) && (!six_only || t.six)
}

pub open spec fn tally_count(items: Seq<TallyView>, k: Seq<KeyVal>, events_only: bool, six_only: bool) -> nat
    decreases items.len(),
{
    if items.len() == 0 {
        0
    } else {
        tally_count(items.drop_last(), k, events_only, six_only) + if counted(
            items.last(),
            k,
            events_only,
            six_only,
        ) {
            1nat
        } else {
            0nat
        }
    }
}

/// The weighted number of attempts of key `k`, in tenths: the "ALL"
/// lookback weighs 0.6 and counts only with at least 10 attempts, "1Y"
/// (every item) weighs 0.3 and "6M" weighs 0.1.
pub open spec fn weighted_total(items: Seq<TallyView>, k: Seq<KeyVal>) -> nat {
    let n = tally_count(items, k, false, false);
    (if n >= 10 { 9 * n } else { 3 * n }) + tally_count(items, k, false, true)
}

/// The weighted number of successes of key `k`, in tenths, with the weights
/// of `weighted_total`.
pub open spec fn weighted_events(items: Seq<TallyView>, k: Seq<KeyVal>) -> nat {
    let n = tally_count(items, k, false, false);
    let s = tally_count(items, k, true, false);
    (if n >= 10 { 9 * s } else { 3 * s }) + tally_count(items, k, true, true)
}

/// The weighted successes and attempts of one key, both in tenths.
#[derive(Debug)]
pub struct WeightedRate {
    pub key: Vec<KeyPart>,
    pub event_tenths: u128,
    pub total_tenths: u128,
}

pub open spec fn rate_key(r: WeightedRate) -> Seq<KeyVal> {
    key_view(r.key@)
}

/// `r` holds one row for each key of `items` whose weighted attempts reach
/// `min_tenths`, with its weighted successes and attempts, and nothing else.
pub open spec fn is_weighted_table(r: Seq<WeightedRate>, items: Seq<TallyView>, min_tenths: int) -> bool {
    &&& forall|m: int| #![trigger r[m]] 0 <= m < r.len() ==> {
        &&& exists|j: int| 0 <= j < items.len() && #[trigger] items[j].key == Some(rate_key(r[m]))
        &&& r[m].total_tenths == weighted_total(items, rate_key(r[m]))
        &&& r[m].event_tenths == weighted_events(items, rate_key(r[m]))
        &&& r[m].total_tenths >= min_tenths
    }
    &&& forall|j: int|
        #![trigger items[j]]
        0 <= j < items.len() && items[j].key is Some && weighted_total(items, items[j].key->0) >= min_tenths
            ==> exists|m: int| 0 <= m < r.len() && #[trigger] rate_key(r[m]) == items[j].key->0
    &&& forall|m1: int, m2: int|
        0 <= m1 < r.len() && 0 <= m2 < r.len() && m1 != m2 ==> rate_key(#[trigger] r[m1]) != rate_key(
            #[trigger] r[m2],
        )
}

pub proof fn lemma_tally_count_le(items: Seq<TallyView>, k: Seq<KeyVal>, e: bool, s: bool)
    ensures
        tally_count(items, k, e, s) <= items.len(),
    decreases items.len(),
{
    if items.len() > 0 {
        lemma_tally_count_le(items.drop_last(), k, e, s);
    }
}

/// The distinct keys of `items`, each once.
pub open spec fn is_key_list(keys: Seq<Seq<KeyVal>>, items: Seq<TallyView>) -> bool {
    &&& forall|m: int| #![trigger keys[m]] 0 <= m < keys.len() ==> exists|j: int|
        0 <= j < items.len() && #[trigger] items[j].key == Some(keys[m])
    &&& forall|j: int| #![trigger items[j]] 0 <= j < items.len() && items[j].key is Some ==> exists|m: int|
        0 <= m < keys.len() && #[trigger] keys[m] == items[j].key->0
    &&& forall|m1: int, m2: int| 0 <= m1 < keys.len() && 0 <= m2 < keys.len() && m1 != m2 ==> #[trigger] keys[m1] != #[trigger] keys[m2]
}

pub open spec fn keys_view(keys: Seq<Vec<KeyPart>>) -> Seq<Seq<KeyVal>> {
    keys.map_values(|k: Vec<KeyPart>| key_view(k@))
}

fn has_key(keys: &Vec<Vec<KeyPart>>, k: &Vec<KeyPart>) -> (r: bool)
    ensures
        r == exists|m: int| 0 <= m < keys.len() && #[trigger] keys_view(keys@)[m] == key_view(k@),
{
    let mut m: usize = 0;
    while m < keys.len()
        invariant
            m <= keys.len(),
            forall|i: int| 0 <= i < m ==> #[trigger] keys_view(keys@)[i] != key_view(k@),
        decreases keys.len() - m,
    {
        if same_key(&keys[m], k) {
            assert(keys_view(keys@)[m as int] == key_view(k@));
            return true;
        }
        m = m + 1;
    }
    false
}

fn distinct_keys(items: &Vec<TallyItem>) -> (r: Vec<Vec<KeyPart>>)
    ensures
        is_key_list(keys_view(r@), tally_views(items@)),
{
    let ghost iv = tally_views(items@);
    let mut keys: Vec<Vec<KeyPart>> = Vec::new();
    let mut j: usize = 0;
    while j < items.len()
        invariant
            j <= items.len(),
            iv == tally_views(items@),
            is_key_list(keys_view(keys@), iv.take(j as int)),
        decreases items.len() - j,
    {
        let ghost prev = iv.take(j as int);
        let ghost next = iv.take(j + 1);
        let ghost k0 = keys_view(keys@);
        assert(forall|m: int| 0 <= m < j ==> #[trigger] next[m] == prev[m]);
        assert(next[j as int] == items@[j as int]@);
        let mut added = false;
        if let Some(k) = &items[j].key {
            if !has_key(&keys, k) {
                keys.push(copy_key(k));
                added = true;
            }
        }
        proof {
            let kv = keys_view(keys@);
            let n = k0.len() as int;
            assert(forall|m: int| 0 <= m < n ==> #[trigger] kv[m] == k0[m]);
            assert forall|m: int| #![trigger kv[m]] 0 <= m < kv.len() implies exists|jj: int|
                0 <= jj < next.len() && #[trigger] next[jj].key == Some(kv[m]) by {
                if m < n {
                    let jj = choose|jj: int| 0 <= jj < prev.len() && #[trigger] prev[jj].key == Some(k0[m]);
                    assert(next[jj] == prev[jj]);
                } else {
                    assert(next[j as int].key == Some(kv[m]));
                }
            }
            assert forall|jj: int| #![trigger next[jj]] 0 <= jj < next.len() && next[jj].key is Some implies exists|m: int|
                0 <= m < kv.len() && #[trigger] kv[m] == next[jj].key->0 by {
                if jj < j {
                    assert(next[jj] == prev[jj]);
                    let m = choose|m: int| 0 <= m < k0.len() && #[trigger] k0[m] == prev[jj].key->0;
                    assert(kv[m] == k0[m]);
                } else if !added {
                    let m = choose|m: int| 0 <= m < k0.len() && #[trigger] k0[m] == next[jj].key->0;
                    assert(kv[m] == k0[m]);
                } else {
                    assert(kv[n] == next[jj].key->0);
                }
            }
        }
        j = j + 1;
    }
    assert(iv.take(items.len() as int) =~= iv);
    keys
}

/// The four counts of key `k`: attempts, successes, "6M" attempts and "6M"
/// successes.
fn count_key(items: &Vec<TallyItem>, k: &Vec<KeyPart>) -> (r: (u128, u128, u128, u128))
    ensures
        r.0 == tally_count(tally_views(items@), key_view(k@), false, false),
        r.1 == tally_count(tally_views(items@), key_view(k@), true, false),
        r.2 == tally_count(tally_views(items@), key_view(k@), false, true),
        r.3 == tally_count(tally_views(items@), key_view(k@), true, true),
        r.0 <= items.len(),
{
    let ghost iv = tally_views(items@);
    let ghost kv = key_view(k@);
    let mut n: u128 = 0;
    let mut s: u128 = 0;
    let mut n6: u128 = 0;
    let mut s6: u128 = 0;
    let mut j: usize = 0;
    while j < items.len()
        invariant
            j <= items.len(),
            iv == tally_views(items@),
            kv == key_view(k@),
            n == tally_count(iv.take(j as int), kv, false, false),
            s == tally_count(iv.take(j as int), kv, true, false),
            n6 == tally_count(iv.take(j as int), kv, false, true),
            s6 == tally_count(iv.take(j as int), kv, true, true),
        decreases items.len() - j,
    {
        let ghost next = iv.take(j + 1);
        assert(next.drop_last() =~= iv.take(j as int));
        assert(next.last() == items@[j as int]@);
        proof {
            lemma_tally_count_le(iv.take(j as int), kv, false, false);
            lemma_tally_count_le(iv.take(j as int), kv, true, false);
            lemma_tally_count_le(iv.take(j as int), kv, false, true);
            lemma_tally_count_le(iv.take(j as int), kv, true, true);
        }
        let it = &items[j];
        if let Some(key) = &it.key {
            if same_key(key, k) {
                n = n + 1;
                if it.is_event {
                    s = s + 1;
                }
                if it.in_six_months {
                    n6 = n6 + 1;
                    if it.is_event {
                        s6 = s6 + 1;
                    }
                }
            }
        }
        j = j + 1;
    }
    assert(iv.take(items.len() as int) =~= iv);
    proof {
        lemma_tally_count_le(iv, kv, false, false);
    }
    (n, s, n6, s6)
}

/// Tallies the items by key over the three lookbacks and keeps the keys whose
/// weighted attempts reach `min_attempts` (both sides in tenths).
pub fn tally_weighted(items: &Vec<TallyItem>, min_attempts: u32) -> (r: Vec<WeightedRate>)
    ensures
        is_weighted_table(r@, tally_views(items@), 10 * min_attempts),
{
    let ghost iv = tally_views(items@);
    let keys = distinct_keys(items);
    let min_tenths: u128 = 10 * (min_attempts as u128);
    let mut r: Vec<WeightedRate> = Vec::new();
    let ghost mut picked: Seq<int> = Seq::empty();
    let mut m: usize = 0;
    while m < keys.len()
        invariant
            m <= keys.len(),
            iv == tally_views(items@),
            min_tenths == 10 * min_attempts,
            is_key_list(keys_view(keys@), iv),
            picked.len() == r@.len(),
            forall|i: int| 0 <= i < picked.len() ==> 0 <= #[trigger] picked[i] < m,
            forall|i1: int, i2: int| 0 <= i1 < i2 < picked.len() ==> #[trigger] picked[i1] < #[trigger] picked[i2],
            forall|i: int| #![trigger r@[i]] 0 <= i < r@.len() ==> {
                &&& rate_key(r@[i]) == keys_view(keys@)[picked[i]]
                &&& r@[i].total_tenths == weighted_total(iv, rate_key(r@[i]))
                &&& r@[i].event_tenths == weighted_events(iv, rate_key(r@[i]))
                &&& r@[i].total_tenths >= min_tenths
            },
            forall|q: int| 0 <= q < m && weighted_total(iv, #[trigger] keys_view(keys@)[q]) >= min_tenths
                ==> exists|i: int| 0 <= i < picked.len() && #[trigger] picked[i] == q,
        decreases keys.len() - m,
    {
        let k = &keys[m];
        let (n, s, n6, s6) = count_key(items, k);
        proof {
            lemma_tally_count_le(iv, key_view(k@), true, false);
            lemma_tally_count_le(iv, key_view(k@), false, true);
            lemma_tally_count_le(iv, key_view(k@), true, true);
        }
        let total: u128 = if n >= 10 { 9 * n + n6 } else { 3 * n + n6 };
        let events: u128 = if n >= 10 { 9 * s + s6 } else { 3 * s + s6 };
        assert(keys_view(keys@)[m as int] == key_view(k@));
        assert(total == weighted_total(iv, key_view(k@)));
        let ghost p0 = picked;
        if total >= min_tenths {
            r.push(WeightedRate { key: copy_key(k), event_tenths: events, total_tenths: total });
            proof {
                picked = picked.push(m as int);
            }
        }
        proof {
            assert forall|q: int| 0 <= q < m + 1 && weighted_total(iv, #[trigger] keys_view(keys@)[q]) >= min_tenths
                implies exists|i: int| 0 <= i < picked.len() && #[trigger] picked[i] == q by {
                if q < m {
                    let i = choose|i: int| 0 <= i < p0.len() && #[trigger] p0[i] == q;
                    assert(picked[i] == p0[i]);
                } else {
                    assert(picked[p0.len() as int] == q);
                }
            }
        }
        m = m + 1;
    }
    proof {
        let kv = keys_view(keys@);
        assert forall|i: int| #![trigger r@[i]] 0 <= i < r@.len() implies exists|j: int|
            0 <= j < iv.len() && #[trigger] iv[j].key == Some(rate_key(r@[i])) by {
            let q = picked[i];
            assert(kv[q] == rate_key(r@[i]));
            let j = choose|j: int| 0 <= j < iv.len() && #[trigger] iv[j].key == Some(kv[q]);
        }
        assert forall|j: int|
            #![trigger iv[j]]
            0 <= j < iv.len() && iv[j].key is Some && weighted_total(iv, iv[j].key->0) >= min_tenths
                implies exists|i: int| 0 <= i < r@.len() && #[trigger] rate_key(r@[i]) == iv[j].key->0 by {
            let q = choose|q: int| 0 <= q < kv.len() && #[trigger] kv[q] == iv[j].key->0;
            let i = choose|i: int| 0 <= i < picked.len() && #[trigger] picked[i] == q;
            assert(rate_key(r@[i]) == kv[q]);
        }
        assert forall|i1: int, i2: int|
            0 <= i1 < r@.len() && 0 <= i2 < r@.len() && i1 != i2 implies rate_key(#[trigger] r@[i1]) != rate_key(
                #[trigger] r@[i2],
            ) by {
            assert(rate_key(r@[i1]) == kv[picked[i1]]);
            assert(rate_key(r@[i2]) == kv[picked[i2]]);
            if i1 < i2 {
                assert(picked[i1] < picked[i2]);
            } else {
                assert(picked[i2] < picked[i1]);
            }
        }
    }
    r
}

/// Counting only successes, or only "6M" items, never counts more.
pub proof fn lemma_tally_count_subset(items: Seq<TallyView>, k: Seq<KeyVal>, e: bool, s: bool)
    ensures
        tally_count(items, k, true, s) <= tally_count(items, k, false, s),
        tally_count(items, k, e, true) <= tally_count(items, k, e, false),
    decreases items.len(),
{
    if items.len() > 0 {
        lemma_tally_count_subset(items.drop_last(), k, e, s);
    }
}

/// Weighted successes never exceed weighted attempts, which never exceed ten
/// tenths per item.
pub proof fn lemma_weighted_bounds(items: Seq<TallyView>, k: Seq<KeyVal>)
    ensures
        weighted_events(items, k) <= weighted_total(items, k),
        weighted_total(items, k) <= 10 * items.len(),
{
    lemma_tally_count_subset(items, k, false, false);
    lemma_tally_count_subset(items, k, true, false);
    lemma_tally_count_subset(items, k, false, true);
    lemma_tally_count_le(items, k, false, false);
    let n = tally_count(items, k, false, false);
    let sc = tally_count(items, k, true, false);
    assert(sc <= n);
    assert(tally_count(items, k, true, true) <= tally_count(items, k, false, true));
    assert(tally_count(items, k, true, true) <= sc);
    assert(tally_count(items, k, false, true) <= n);
}

} // verus!
