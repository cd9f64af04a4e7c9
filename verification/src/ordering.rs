use vstd::prelude::*;
use vstd::string::StrSliceExecFns;
use crate::models::DayNumber;

verus! {

/// Lexicographic order of character sequences (a proper prefix comes first).
pub open spec fn chars_less(a: Seq<char>, b: Seq<char>) -> bool
    decreases a.len(),
{
    if a.len() == 0 {
        b.len() > 0
    } else if b.len() == 0 {
        false
    } else if a[0] != b[0] {
        a[0] < b[0]
    } else {
        chars_less(a.drop_first(), b.drop_first())
    }
}

proof fn lemma_chars_less_irreflexive(a: Seq<char>)
    ensures
        !chars_less(a, a),
    decreases a.len(),
{
    if a.len() > 0 {
        lemma_chars_less_irreflexive(a.drop_first());
    }
}

proof fn lemma_chars_less_total(a: Seq<char>, b: Seq<char>)
    requires
        a != b,
    ensures
        chars_less(a, b) || chars_less(b, a),
    decreases a.len(),
{
    if a.len() > 0 && b.len() > 0 && a[0] == b[0] {
        if a.drop_first() == b.drop_first() {
            assert(a =~= seq![a[0]] + a.drop_first());
            assert(b =~= seq![b[0]] + b.drop_first());
        }
        lemma_chars_less_total(a.drop_first(), b.drop_first());
    } else if a.len() == 0 && b.len() == 0 {
        assert(a =~= b);
    }
}

proof fn lemma_chars_less_transitive(a: Seq<char>, b: Seq<char>, c: Seq<char>)
    requires
        chars_less(a, b),
        chars_less(b, c),
    ensures
        chars_less(a, c),
    decreases a.len(),
{
    if a.len() > 0 && b.len() > 0 && c.len() > 0 && a[0] == b[0] && b[0] == c[0] {
        lemma_chars_less_transitive(a.drop_first(), b.drop_first(), c.drop_first());
    }
}

/// Whether `a` comes before `b` in lexicographic order.
pub fn str_less(a: &str, b: &str) -> (r: bool)
    ensures
        r == chars_less(a@, b@),
{
    let la = a.unicode_len();
    let lb = b.unicode_len();
    let mut i: usize = 0;
    assert(a@.skip(0) =~= a@);
    assert(b@.skip(0) =~= b@);
    while i < la && i < lb
        invariant
            la == a@.len(),
            lb == b@.len(),
            i <= la,
            i <= lb,
            chars_less(a@, b@) == chars_less(a@.skip(i as int), b@.skip(i as int)),
        decreases la - i,
    {
        let ca = a.get_char(i);
        let cb = b.get_char(i);
        assert(a@.skip(i as int)[0] == ca);
        assert(b@.skip(i as int)[0] == cb);
        if ca != cb {
            return ca < cb;
        }
        assert(a@.skip(i as int).drop_first() =~= a@.skip(i + 1));
        assert(b@.skip(i as int).drop_first() =~= b@.skip(i + 1));
        i = i + 1;
    }
    la < lb
}

pub open spec fn strings_view(s: Seq<String>) -> Seq<Seq<char>> {
    s.map_values(|x: String| x@)
}

pub open spec fn dates_view(s: Seq<DayNumber>) -> Seq<int> {
    s.map_values(|d: DayNumber| d as int)
}

/// The order of entries by asset, then date, then position: entry `i` comes
/// before entry `j`.
pub open spec fn entry_before(assets: Seq<Seq<char>>, dates: Seq<int>, i: int, j: int) -> bool {
    ||| chars_less(assets[i], assets[j])
    ||| assets[i] == assets[j] && dates[i] < dates[j]
    ||| assets[i] == assets[j] && dates[i] == dates[j] && i < j
}

/// `p` lists every entry exactly once, by asset and then date, entries with
/// the same asset and date keeping their input order (a stable sort).
pub open spec fn is_stable_order(p: Seq<usize>, assets: Seq<Seq<char>>, dates: Seq<int>) -> bool {
    &&& p.len() == assets.len()
    &&& forall|k: int| 0 <= k < p.len() ==> #[trigger] p[k] < assets.len()
    &&& forall|k1: int, k2: int| 0 <= k1 < k2 < p.len() ==> entry_before(assets, dates, #[trigger] p[k1] as int, #[trigger] p[k2] as int)
    &&& forall|i: int| 0 <= i < assets.len() ==> #[trigger] lists(p, i)
}

/// Whether position `i` occurs in `p`.
pub open spec fn lists(p: Seq<usize>, i: int) -> bool {
    exists|k: int| 0 <= k < p.len() && p[k] == i
}

proof fn lemma_entry_before_transitive(assets: Seq<Seq<char>>, dates: Seq<int>, i: int, j: int, k: int)
    requires
        entry_before(assets, dates, i, j),
        entry_before(assets, dates, j, k),
    ensures
        entry_before(assets, dates, i, k),
{
    if chars_less(assets[i], assets[j]) && chars_less(assets[j], assets[k]) {
        lemma_chars_less_transitive(assets[i], assets[j], assets[k]);
    }
}

proof fn lemma_entry_before_total(assets: Seq<Seq<char>>, dates: Seq<int>, i: int, j: int)
    requires
        i != j,
    ensures
        entry_before(assets, dates, i, j) || entry_before(assets, dates, j, i),
{
    if assets[i] != assets[j] {
        lemma_chars_less_total(assets[i], assets[j]);
    }
}

fn entry_is_before(assets: &Vec<String>, dates: &Vec<DayNumber>, i: usize, j: usize) -> (r: bool)
    requires
        i < assets.len(),
        j < assets.len(),
        assets.len() == dates.len(),
    ensures
        r == entry_before(strings_view(assets@), dates_view(dates@), i as int, j as int),
{
    let ai = &assets[i];
    let aj = &assets[j];
    if str_less(ai.as_str(), aj.as_str()) {
        true
    } else if *ai == *aj {
        dates[i] < dates[j] || (dates[i] == dates[j] && i < j)
    } else {
        false
    }
}

/// The positions of the entries sorted by asset and then date, keeping the
/// input order of entries that share both (a stable insertion sort).
pub fn stable_order(assets: &Vec<String>, dates: &Vec<DayNumber>) -> (p: Vec<usize>)
    requires
        assets.len() == dates.len(),
    ensures
        is_stable_order(p@, strings_view(assets@), dates_view(dates@)),
        p@ == stable_order_of(strings_view(assets@), dates_view(dates@)),
{
    let ghost av = strings_view(assets@);
    let ghost dv = dates_view(dates@);
    let mut r: Vec<usize> = Vec::new();
    let mut i: usize = 0;
    while i < assets.len()
        invariant
            i <= assets.len(),
            assets.len() == dates.len(),
            av == strings_view(assets@),
            dv == dates_view(dates@),
            r@.len() == i,
            forall|k: int| 0 <= k < r@.len() ==> #[trigger] r@[k] < i,
            forall|k1: int, k2: int| 0 <= k1 < k2 < r@.len() ==> entry_before(av, dv, #[trigger] r@[k1] as int, #[trigger] r@[k2] as int),
            forall|q: int| 0 <= q < i ==> #[trigger] lists(r@, q),
        decreases assets.len() - i,
    {
        let mut pos: usize = r.len();
        while pos > 0 && entry_is_before(assets, dates, i, r[pos - 1])
            invariant
                pos <= r@.len(),
                i < assets.len(),
                assets.len() == dates.len(),
                av == strings_view(assets@),
                dv == dates_view(dates@),
                forall|k: int| 0 <= k < r@.len() ==> #[trigger] r@[k] < i,
                forall|k: int| pos <= k < r@.len() ==> entry_before(av, dv, i as int, #[trigger] r@[k] as int),
            decreases pos,
        {
            pos = pos - 1;
        }
        let ghost r0 = r@;
        proof {
            if pos > 0 {
                let last = r0[pos - 1] as int;
                assert(!entry_before(av, dv, i as int, last));
                lemma_entry_before_total(av, dv, i as int, last);
                assert forall|k: int| 0 <= k < pos implies entry_before(av, dv, #[trigger] r0[k] as int, i as int) by {
                    if k < pos - 1 {
                        lemma_entry_before_transitive(av, dv, r0[k] as int, last, i as int);
                    }
                }
            }
        }
        r.insert(pos, i);
        proof {
            let n = r@;
            assert(n.len() == i + 1);
            assert forall|k: int| 0 <= k < n.len() implies #[trigger] n[k] < i + 1 by {
                if k < pos { assert(n[k] == r0[k]); } else if k > pos { assert(n[k] == r0[k - 1]); }
            }
            assert forall|k1: int, k2: int| 0 <= k1 < k2 < n.len() implies entry_before(av, dv, #[trigger] n[k1] as int, #[trigger] n[k2] as int) by {
                if k2 < pos {
                    assert(n[k1] == r0[k1] && n[k2] == r0[k2]);
                } else if k2 == pos {
                    assert(n[k1] == r0[k1]);
                } else if k1 > pos {
                    assert(n[k1] == r0[k1 - 1] && n[k2] == r0[k2 - 1]);
                } else if k1 == pos {
                    assert(n[k2] == r0[k2 - 1]);
                } else {
                    assert(n[k1] == r0[k1] && n[k2] == r0[k2 - 1]);
                }
            }
            assert forall|q: int| 0 <= q < i + 1 implies #[trigger] lists(n, q) by {
                if q < i {
                    assert(lists(r0, q));
                    let k = choose|k: int| 0 <= k < r0.len() && r0[k] == q;
                    if k < pos { assert(n[k] == q); } else { assert(n[k + 1] == q); }
                } else {
                    assert(n[pos as int] == q);
                }
            }
        }
        i = i + 1;
    }
    proof {
        lemma_stable_order_is_chosen(r@, av, dv);
    }
    r
}

/// The stable order of the entries by asset and then date.
pub open spec fn stable_order_of(assets: Seq<Seq<char>>, dates: Seq<int>) -> Seq<usize> {
    choose|p: Seq<usize>| is_stable_order(p, assets, dates)
}

proof fn lemma_orders_agree_below(p: Seq<usize>, q: Seq<usize>, assets: Seq<Seq<char>>, dates: Seq<int>, k: int)
    requires
        is_stable_order(p, assets, dates),
        is_stable_order(q, assets, dates),
        0 <= k <= p.len(),
    ensures
        forall|j: int| 0 <= j < k ==> #[trigger] p[j] == q[j],
    decreases k,
{
    if k > 0 {
        lemma_orders_agree_below(p, q, assets, dates, k - 1);
        let t = k - 1;
        if p[t] != q[t] {
            let x = p[t] as int;
            let y = q[t] as int;
            assert(lists(q, x));
            let m = choose|m: int| 0 <= m < q.len() && q[m] == x;
            assert(lists(p, y));
            let m2 = choose|m: int| 0 <= m < p.len() && p[m] == y;
            lemma_chars_less_irreflexive(assets[x]);
            lemma_chars_less_irreflexive(assets[y]);
            if m < t {
                assert(p[m] == q[m]);
                assert(entry_before(assets, dates, p[m] as int, p[t] as int));
            }
            if m2 < t {
                assert(p[m2] == q[m2]);
                assert(entry_before(assets, dates, q[m2] as int, q[t] as int));
            }
            assert(m > t);
            assert(m2 > t);
            assert(entry_before(assets, dates, q[t] as int, q[m] as int));
            assert(entry_before(assets, dates, p[t] as int, p[m2] as int));
            lemma_entry_before_transitive(assets, dates, x, y, x);
        }
    }
}

/// There is only one stable order of a list of entries.
pub proof fn lemma_stable_order_unique(p: Seq<usize>, q: Seq<usize>, assets: Seq<Seq<char>>, dates: Seq<int>)
    requires
        is_stable_order(p, assets, dates),
        is_stable_order(q, assets, dates),
    ensures
        p == q,
{
    lemma_orders_agree_below(p, q, assets, dates, p.len() as int);
    assert(p =~= q);
}

/// A stable order is the stable order of its entries.
pub proof fn lemma_stable_order_is_chosen(p: Seq<usize>, assets: Seq<Seq<char>>, dates: Seq<int>)
    requires
        is_stable_order(p, assets, dates),
    ensures
        stable_order_of(assets, dates) == p,
{
    lemma_stable_order_unique(stable_order_of(assets, dates), p, assets, dates);
}

} // verus!
