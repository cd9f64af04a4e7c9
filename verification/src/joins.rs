use vstd::prelude::*;
use crate::models::{DayNumber, SessionContextData, EightContextData, DailyContextData};
use crate::contexts::{DayType2ndOrderBarContext, DayType2ndOrderSessionContext, BarType2ndOrderSessionContext, SessionExtremeBaseContext, BarExtremeBaseContext};
use crate::labels::str_is;

verus! {

/// The index of the last day record of `date` (of any asset), if there is one.
pub open spec fn last_on_date(dailies: Seq<DailyContextData>, date: int) -> Option<int>
    decreases dailies.len(),
{
    if dailies.len() == 0 {
        None
    } else if dailies.last().trading_date as int == date {
        Some(dailies.len() - 1)
    } else {
        last_on_date(dailies.drop_last(), date)
    }
}

proof fn lemma_last_on_date(dailies: Seq<DailyContextData>, date: int)
    ensures
        last_on_date(dailies, date) matches Some(k) ==> 0 <= k < dailies.len() && dailies[k].trading_date as int == date,
    decreases dailies.len(),
{
    if dailies.len() > 0 {
        lemma_last_on_date(dailies.drop_last(), date);
    }
}

fn find_on_date(dailies: &Vec<DailyContextData>, date: DayNumber) -> (r: Option<usize>)
    ensures
        match r {
            Some(k) => k < dailies.len() && last_on_date(dailies@, date as int) == Some(k as int),
            None => last_on_date(dailies@, date as int) is None,
        },
{
    let mut k = dailies.len();
    assert(dailies@.take(k as int) =~= dailies@);
    while k > 0
        invariant
            k <= dailies.len(),
            last_on_date(dailies@, date as int) == last_on_date(dailies@.take(k as int), date as int),
        decreases k,
    {
        let ghost pre = dailies@.take(k as int);
        assert(pre.drop_last() =~= dailies@.take(k - 1));
        assert(pre.last() == dailies@[k - 1]);
        if dailies[k - 1].trading_date == date {
            return Some(k - 1);
        }
        k = k - 1;
    }
    assert(dailies@.take(0).len() == 0);
    None
}

/// Each bar record joined with the last day record of its date; bars whose
/// date has no day record are left out.
pub open spec fn bar_day_joins(bars: Seq<EightContextData>, dailies: Seq<DailyContextData>) -> Seq<DayType2ndOrderBarContext>
    decreases bars.len(),
{
    if bars.len() == 0 {
        seq![]
    } else {
        let rest = bar_day_joins(bars.drop_last(), dailies);
        match last_on_date(dailies, bars.last().trading_date as int) {
            Some(k) => rest.push(DayType2ndOrderBarContext { inner: bars.last(), outcome: dailies[k] }),
            None => rest,
        }
    }
}

pub fn join_bars_to_days(bars: &Vec<EightContextData>, dailies: &Vec<DailyContextData>) -> (r: Vec<DayType2ndOrderBarContext>)
    ensures
        r@ == bar_day_joins(bars@, dailies@),
{
    let mut r: Vec<DayType2ndOrderBarContext> = Vec::new();
    let mut i: usize = 0;
    while i < bars.len()
        invariant
            i <= bars.len(),
            r@ == bar_day_joins(bars@.take(i as int), dailies@),
        decreases bars.len() - i,
    {
        let ghost pre = bars@.take(i + 1);
        assert(pre.drop_last() =~= bars@.take(i as int));
        assert(pre.last() == bars@[i as int]);
        if let Some(k) = find_on_date(dailies, bars[i].trading_date) {
            r.push(DayType2ndOrderBarContext { inner: bars[i].copy(), outcome: dailies[k].copy() });
        }
        i = i + 1;
    }
    assert(bars@.take(bars.len() as int) =~= bars@);
    r
}

/// Each session record joined with the last day record of its date; sessions
/// whose date has no day record are left out.
pub open spec fn session_day_joins(sessions: Seq<SessionContextData>, dailies: Seq<DailyContextData>) -> Seq<DayType2ndOrderSessionContext>
    decreases sessions.len(),
{
    if sessions.len() == 0 {
        seq![]
    } else {
        let rest = session_day_joins(sessions.drop_last(), dailies);
        match last_on_date(dailies, sessions.last().trading_date as int) {
            Some(k) => rest.push(DayType2ndOrderSessionContext { inner: sessions.last(), outcome: dailies[k] }),
            None => rest,
        }
    }
}

pub fn join_sessions_to_days(sessions: &Vec<SessionContextData>, dailies: &Vec<DailyContextData>) -> (r: Vec<DayType2ndOrderSessionContext>)
    ensures
        r@ == session_day_joins(sessions@, dailies@),
{
    let mut r: Vec<DayType2ndOrderSessionContext> = Vec::new();
    let mut i: usize = 0;
    while i < sessions.len()
        invariant
            i <= sessions.len(),
            r@ == session_day_joins(sessions@.take(i as int), dailies@),
        decreases sessions.len() - i,
    {
        let ghost pre = sessions@.take(i + 1);
        assert(pre.drop_last() =~= sessions@.take(i as int));
        assert(pre.last() == sessions@[i as int]);
        if let Some(k) = find_on_date(dailies, sessions[i].trading_date) {
            r.push(DayType2ndOrderSessionContext { inner: sessions[i].copy(), outcome: dailies[k].copy() });
        }
        i = i + 1;
    }
    assert(sessions@.take(sessions.len() as int) =~= sessions@);
    r
}

/// The bar number that follows a previous session: 1 after "NYPM", 2 after
/// "AS", 3 after "LN", "NYAM" or "NYL"; none after any other session.
pub open spec fn target_bar_num(ps1_name: Option<String>) -> Option<i32> {
    match ps1_name {
        Some(n) => if n@ == "NYPM"@ {
            Some(1i32)
        } else if n@ == "AS"@ {
            Some(2i32)
        } else if n@ == "LN"@ || n@ == "NYAM"@ || n@ == "NYL"@ {
            Some(3i32)
        } else {
            None
        },
        None => None,
    }
}

fn target_bar_of(ps1_name: &Option<String>) -> (r: Option<i32>)
    ensures
        r == target_bar_num(*ps1_name),
{
    match ps1_name {
        Some(n) => if str_is(n.as_str(), "NYPM") {
            Some(1)
        } else if str_is(n.as_str(), "AS") {
            Some(2)
        } else if str_is(n.as_str(), "LN") || str_is(n.as_str(), "NYAM") || str_is(n.as_str(), "NYL") {
            Some(3)
        } else {
            None
        },
        None => None,
    }
}

/// The index of the first bar of `asset` numbered `num` that ends after `ts`.
pub open spec fn first_bar_after(bars: Seq<EightContextData>, asset: Seq<char>, num: i32, ts: i64) -> Option<int>
    decreases bars.len(),
{
    if bars.len() == 0 {
        None
    } else {
        match first_bar_after(bars.drop_last(), asset, num, ts) {
            Some(k) => Some(k),
            None => if bars.last().asset_id@ == asset && bars.last().cb_num == Some(num) && bars.last().session_end_ts > ts {
                Some(bars.len() - 1)
            } else {
                None
            },
        }
    }
}

proof fn lemma_first_bar_after(bars: Seq<EightContextData>, asset: Seq<char>, num: i32, ts: i64)
    ensures
        first_bar_after(bars, asset, num, ts) matches Some(k) ==> 0 <= k < bars.len(),
    decreases bars.len(),
{
    if bars.len() > 0 {
        lemma_first_bar_after(bars.drop_last(), asset, num, ts);
    }
}

fn find_first_bar_after(bars: &Vec<EightContextData>, asset: &String, num: i32, ts: i64) -> (r: Option<usize>)
    ensures
        match r {
            Some(k) => k < bars.len() && first_bar_after(bars@, asset@, num, ts) == Some(k as int),
            None => first_bar_after(bars@, asset@, num, ts) is None,
        },
{
    let mut i: usize = 0;
    while i < bars.len()
        invariant
            i <= bars.len(),
            first_bar_after(bars@.take(i as int), asset@, num, ts) is None,
        decreases bars.len() - i,
    {
        let ghost pre = bars@.take(i + 1);
        assert(pre.drop_last() =~= bars@.take(i as int));
        assert(pre.last() == bars@[i as int]);
        let b = &bars[i];
        if b.asset_id == *asset && b.cb_num == Some(num) && b.session_end_ts > ts {
            proof {
                lemma_prefix_first_bar(bars@, asset@, num, ts, i + 1);
            }
            return Some(i);
        }
        i = i + 1;
    }
    assert(bars@.take(bars.len() as int) =~= bars@);
    None
}

proof fn lemma_prefix_first_bar(bars: Seq<EightContextData>, asset: Seq<char>, num: i32, ts: i64, n: int)
    requires
        0 < n <= bars.len(),
        first_bar_after(bars.take(n), asset, num, ts) is Some,
    ensures
        first_bar_after(bars, asset, num, ts) == first_bar_after(bars.take(n), asset, num, ts),
    decreases bars.len() - n,
{
    if n < bars.len() {
        assert(bars.take(n) =~= bars.drop_last().take(n));
        lemma_prefix_first_bar(bars.drop_last(), asset, num, ts, n);
    } else {
        assert(bars.take(n) =~= bars);
    }
}

/// Each session record joined with the bar that follows it: the first bar of
/// its asset, with the number that follows its previous session, ending after
/// it. Sessions without such a bar are left out.
pub open spec fn session_bar_joins(sessions: Seq<SessionContextData>, bars: Seq<EightContextData>) -> Seq<BarType2ndOrderSessionContext>
    decreases sessions.len(),
{
    if sessions.len() == 0 {
        seq![]
    } else {
        let rest = session_bar_joins(sessions.drop_last(), bars);
        let s = sessions.last();
        match target_bar_num(s.ps1_name) {
            Some(num) => match first_bar_after(bars, s.asset_id@, num, s.session_end_ts) {
                Some(k) => rest.push(BarType2ndOrderSessionContext { inner: s, bar_outcome: bars[k] }),
                None => rest,
            },
            None => rest,
        }
    }
}

pub fn join_sessions_to_bars(sessions: &Vec<SessionContextData>, bars: &Vec<EightContextData>) -> (r: Vec<BarType2ndOrderSessionContext>)
    ensures
        r@ == session_bar_joins(sessions@, bars@),
{
    let mut r: Vec<BarType2ndOrderSessionContext> = Vec::new();
    let mut i: usize = 0;
    while i < sessions.len()
        invariant
            i <= sessions.len(),
            r@ == session_bar_joins(sessions@.take(i as int), bars@),
        decreases sessions.len() - i,
    {
        let ghost pre = sessions@.take(i + 1);
        assert(pre.drop_last() =~= sessions@.take(i as int));
        assert(pre.last() == sessions@[i as int]);
        let s = &sessions[i];
        if let Some(num) = target_bar_of(&s.ps1_name) {
            if let Some(k) = find_first_bar_after(bars, &s.asset_id, num, s.session_end_ts) {
                r.push(BarType2ndOrderSessionContext { inner: s.copy(), bar_outcome: bars[k].copy() });
            }
        }
        i = i + 1;
    }
    assert(sessions@.take(sessions.len() as int) =~= sessions@);
    r
}

/// Whether `c` is the `high` (or else low) base context of day `d`.
pub open spec fn is_session_extreme_base(c: SessionExtremeBaseContext, d: DailyContextData, high: bool) -> bool {
    &&& c.trading_date == d.trading_date
    &&& c.asset_id@ == d.asset_id@
    &&& c.extreme_type@ == if high { "High"@ } else { "Low"@ }
    &&& c.extreme_session_name@ == if high { d.high_session@ } else { d.low_session@ }
}

/// A session name that can hold an extreme: not empty and not "Other".
pub open spec fn named_session(s: Seq<char>) -> bool {
    s.len() > 0 && s != "Other"@
}

/// `r` holds, in order, for each day, a "High" context where its high session
/// is named and a "Low" context where its low session is named.
pub open spec fn session_extreme_bases_of(r: Seq<SessionExtremeBaseContext>, days: Seq<DailyContextData>) -> bool
    decreases days.len(),
{
    if days.len() == 0 {
        r.len() == 0
    } else {
        let d = days.last();
        let nh: int = if named_session(d.high_session@) { 1 } else { 0 };
        let nl: int = if named_session(d.low_session@) { 1 } else { 0 };
        &&& r.len() >= nh + nl
        &&& session_extreme_bases_of(r.take(r.len() - nh - nl), days.drop_last())
        &&& nh == 1 ==> is_session_extreme_base(r[r.len() - nh - nl], d, true)
        &&& nl == 1 ==> is_session_extreme_base(r[r.len() - 1], d, false)
    }
}

pub fn session_extreme_base_contexts(days: &Vec<DailyContextData>) -> (r: Vec<SessionExtremeBaseContext>)
    ensures
        session_extreme_bases_of(r@, days@),
{
    let mut r: Vec<SessionExtremeBaseContext> = Vec::new();
    let mut i: usize = 0;
    while i < days.len()
        invariant
            i <= days.len(),
            session_extreme_bases_of(r@, days@.take(i as int)),
        decreases days.len() - i,
    {
        let ghost pre = days@.take(i + 1);
        let ghost r0 = r@;
        assert(pre.drop_last() =~= days@.take(i as int));
        assert(pre.last() == days@[i as int]);
        let d = &days[i];
        let high_named = !d.high_session.as_str().is_empty() && !str_is(d.high_session.as_str(), "Other");
        if high_named {
            r.push(SessionExtremeBaseContext {
                trading_date: d.trading_date,
                asset_id: d.asset_id.clone(),
                extreme_type: "High".to_owned(),
                extreme_session_name: d.high_session.clone(),
            });
        }
        let low_named = !d.low_session.as_str().is_empty() && !str_is(d.low_session.as_str(), "Other");
        if low_named {
            r.push(SessionExtremeBaseContext {
                trading_date: d.trading_date,
                asset_id: d.asset_id.clone(),
                extreme_type: "Low".to_owned(),
                extreme_session_name: d.low_session.clone(),
            });
        }
        proof {
            let nh: int = if high_named { 1 } else { 0 };
            let nl: int = if low_named { 1 } else { 0 };
            assert(r@.take(r@.len() - nh - nl) =~= r0);
        }
        i = i + 1;
    }
    assert(days@.take(days.len() as int) =~= days@);
    r
}

/// Whether `c` is the `high` (or else low) bar-extreme base context of day `d`.
pub open spec fn is_bar_extreme_base(c: BarExtremeBaseContext, d: DailyContextData, high: bool) -> bool {
    &&& c.trading_date == d.trading_date
    &&& c.asset_id@ == d.asset_id@
    &&& c.extreme_type@ == if high { "High"@ } else { "Low"@ }
    &&& c.extreme_cb_num == if high { d.high_bar } else { d.low_bar }
}

/// `r` holds, in order, a "High" and a "Low" context for every day.
pub open spec fn bar_extreme_bases_of(r: Seq<BarExtremeBaseContext>, days: Seq<DailyContextData>) -> bool {
    &&& r.len() == 2 * days.len()
    &&& forall|k: int| 0 <= k < days.len() ==> is_bar_extreme_base(#[trigger] r[2 * k], days[k], true) && is_bar_extreme_base(r[2 * k + 1], days[k], false)
}

/// A "High" and a "Low" context for every day, naming the bars that made
/// its high and its low.
pub fn bar_extreme_base_contexts(days: &Vec<DailyContextData>) -> (r: Vec<BarExtremeBaseContext>)
    ensures
        bar_extreme_bases_of(r@, days@),
{
    let mut r: Vec<BarExtremeBaseContext> = Vec::new();
    let mut i: usize = 0;
    while i < days.len()
        invariant
            i <= days.len(),
            r@.len() == 2 * i,
            forall|k: int| 0 <= k < i ==> is_bar_extreme_base(#[trigger] r@[2 * k], days@[k], true) && is_bar_extreme_base(r@[2 * k + 1], days@[k], false),
        decreases days.len() - i,
    {
        let d = &days[i];
        let ghost r0 = r@;
        r.push(BarExtremeBaseContext { trading_date: d.trading_date, asset_id: d.asset_id.clone(), extreme_type: "High".to_owned(), extreme_cb_num: d.high_bar });
        r.push(BarExtremeBaseContext { trading_date: d.trading_date, asset_id: d.asset_id.clone(), extreme_type: "Low".to_owned(), extreme_cb_num: d.low_bar });
        assert forall|k: int| 0 <= k < i + 1 implies is_bar_extreme_base(#[trigger] r@[2 * k], days@[k], true) && is_bar_extreme_base(r@[2 * k + 1], days@[k], false) by {
            if k < i {
                assert(r@[2 * k] == r0[2 * k]);
                assert(r@[2 * k + 1] == r0[2 * k + 1]);
                assert(is_bar_extreme_base(r0[2 * k], days@[k], true));
            } else {
                assert(r@[2 * k] == r@[2 * i]);
            }
        }
        i = i + 1;
    }
    r
}

} // verus!
