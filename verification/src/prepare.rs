use vstd::prelude::*;
use crate::models::{DayNumber, SessionContextData, EightContextData, DailyContextData, DayContext};
use crate::contexts::{SessionExtremeContext, HighLowContext, BarExtremeContext, PcsContext};

verus! {

/// The index of the last day record of `asset` on `date`, if there is one.
pub open spec fn last_daily(dailies: Seq<DailyContextData>, date: int, asset: Seq<char>) -> Option<int>
    decreases dailies.len(),
{
    if dailies.len() == 0 {
        None
    } else if dailies.last().trading_date as int == date && dailies.last().asset_id@ == asset {
        Some(dailies.len() - 1)
    } else {
        last_daily(dailies.drop_last(), date, asset)
    }
}

proof fn lemma_last_daily_bounds(dailies: Seq<DailyContextData>, date: int, asset: Seq<char>)
    ensures
        last_daily(dailies, date, asset) matches Some(k) ==> 0 <= k < dailies.len()
            && dailies[k].trading_date as int == date && dailies[k].asset_id@ == asset,
    decreases dailies.len(),
{
    if dailies.len() > 0 {
        lemma_last_daily_bounds(dailies.drop_last(), date, asset);
    }
}

/// The last day record of `asset` on `date` (a later record of the same day
/// replaces an earlier one).
pub fn find_daily(dailies: &Vec<DailyContextData>, date: DayNumber, asset: &String) -> (r: Option<usize>)
    ensures
        r matches Some(k) ==> k < dailies.len(),
        match r {
            Some(k) => last_daily(dailies@, date as int, asset@) == Some(k as int),
            None => last_daily(dailies@, date as int, asset@) is None,
        },
{
    let mut k = dailies.len();
    assert(dailies@.take(k as int) =~= dailies@);
    while k > 0
        invariant
            k <= dailies.len(),
            last_daily(dailies@, date as int, asset@) == last_daily(dailies@.take(k as int), date as int, asset@),
        decreases k,
    {
        let ghost pre = dailies@.take(k as int);
        assert(pre.drop_last() =~= dailies@.take(k - 1));
        assert(pre.last() == dailies@[k - 1]);
        if dailies[k - 1].trading_date == date && dailies[k - 1].asset_id == *asset {
            return Some(k - 1);
        }
        k = k - 1;
    }
    assert(dailies@.take(0).len() == 0);
    None
}

/// Whether `c` is the `high` (or else low) extreme context made from session
/// record `s` and day record `d`.
pub open spec fn is_session_extreme(c: SessionExtremeContext, s: SessionContextData, d: DailyContextData, high: bool) -> bool {
    &&& c.trading_date == s.trading_date
    &&& c.asset_id@ == s.asset_id@
    &&& s.ps2_name matches Some(x) && c.ps2_name@ == x@
    &&& s.ps2_bias matches Some(x) && c.ps2_bias@ == x@
    &&& s.ps1_name matches Some(x) && c.ps1_name@ == x@
    &&& s.ps1_bias matches Some(x) && c.ps1_bias@ == x@
    &&& c.extreme_type@ == if high { "High"@ } else { "Low"@ }
    &&& c.extreme_session_name@ == if high { d.high_session@ } else { d.low_session@ }
}

/// Whether a session record yields extreme contexts: it has its day record
/// and its whole session pattern.
pub open spec fn yields_extremes(s: SessionContextData, dailies: Seq<DailyContextData>) -> bool {
    &&& last_daily(dailies, s.trading_date as int, s.asset_id@) is Some
    &&& s.ps2_name is Some && s.ps2_bias is Some && s.ps1_name is Some && s.ps1_bias is Some
}

/// `r` holds, in order, a high and a low context for each session record that
/// yields extremes.
pub open spec fn session_extremes_of(r: Seq<SessionExtremeContext>, sessions: Seq<SessionContextData>, dailies: Seq<DailyContextData>) -> bool
    decreases sessions.len(),
{
    if sessions.len() == 0 {
        r.len() == 0
    } else {
        let s = sessions.last();
        if yields_extremes(s, dailies) {
            let d = dailies[last_daily(dailies, s.trading_date as int, s.asset_id@)->0];
            &&& r.len() >= 2
            &&& session_extremes_of(r.take(r.len() - 2), sessions.drop_last(), dailies)
            &&& is_session_extreme(r[r.len() - 2], s, d, true)
            &&& is_session_extreme(r[r.len() - 1], s, d, false)
        } else {
            session_extremes_of(r, sessions.drop_last(), dailies)
        }
    }
}

/// For every session record with its day record and its whole session
/// pattern, one context for the session that made the day's high and one for
/// the session that made its low.
pub fn prepare_session_extreme_contexts(
    session_contexts: &Vec<SessionContextData>,
    daily_extremes: &Vec<DailyContextData>,
) -> (r: Vec<SessionExtremeContext>)
    ensures
        session_extremes_of(r@, session_contexts@, daily_extremes@),
{
    let mut r: Vec<SessionExtremeContext> = Vec::new();
    let mut i: usize = 0;
    while i < session_contexts.len()
        invariant
            i <= session_contexts.len(),
            session_extremes_of(r@, session_contexts@.take(i as int), daily_extremes@),
        decreases session_contexts.len() - i,
    {
        let ghost pre = session_contexts@.take(i + 1);
        let ghost r0 = r@;
        assert(pre.drop_last() =~= session_contexts@.take(i as int));
        assert(pre.last() == session_contexts@[i as int]);
        let sc = &session_contexts[i];
        let found = find_daily(daily_extremes, sc.trading_date, &sc.asset_id);
        if let Some(k) = found {
            proof { lemma_last_daily_bounds(daily_extremes@, sc.trading_date as int, sc.asset_id@); }
            if let (Some(ps2n), Some(ps2b), Some(ps1n), Some(ps1b)) = (&sc.ps2_name, &sc.ps2_bias, &sc.ps1_name, &sc.ps1_bias) {
                let daily = &daily_extremes[k];
                r.push(SessionExtremeContext {
                    trading_date: sc.trading_date,
                    asset_id: sc.asset_id.clone(),
                    ps2_name: ps2n.clone(),
                    ps2_bias: ps2b.clone(),
                    ps1_name: ps1n.clone(),
                    ps1_bias: ps1b.clone(),
                    extreme_type: "High".to_owned(),
                    extreme_session_name: daily.high_session.clone(),
                });
                r.push(SessionExtremeContext {
                    trading_date: sc.trading_date,
                    asset_id: sc.asset_id.clone(),
                    ps2_name: ps2n.clone(),
                    ps2_bias: ps2b.clone(),
                    ps1_name: ps1n.clone(),
                    ps1_bias: ps1b.clone(),
                    extreme_type: "Low".to_owned(),
                    extreme_session_name: daily.low_session.clone(),
                });
                assert(r@.take(r@.len() - 2) =~= r0);
            }
        }
        i = i + 1;
    }
    assert(session_contexts@.take(session_contexts.len() as int) =~= session_contexts@);
    r
}

/// Whether `c` is the `high` (or else low) context made from session record
/// `s` and day record `d`.
pub open spec fn is_high_low(c: HighLowContext, s: SessionContextData, d: DailyContextData, high: bool) -> bool {
    &&& c.trading_date == s.trading_date
    &&& c.asset_id@ == s.asset_id@
    &&& s.ps2_name matches Some(x) && c.ps2_name@ == x@
    &&& s.ps2_bias matches Some(x) && c.ps2_bias@ == x@
    &&& s.ps1_name matches Some(x) && c.ps1_name@ == x@
    &&& s.ps1_bias matches Some(x) && c.ps1_bias@ == x@
    &&& c.session_extreme@ == if high { "High"@ } else { "Low"@ }
    &&& c.extreme_session_name@ == if high { d.high_session@ } else { d.low_session@ }
}

pub open spec fn high_lows_of(r: Seq<HighLowContext>, sessions: Seq<SessionContextData>, dailies: Seq<DailyContextData>) -> bool
    decreases sessions.len(),
{
    if sessions.len() == 0 {
        r.len() == 0
    } else {
        let s = sessions.last();
        if yields_extremes(s, dailies) {
            let d = dailies[last_daily(dailies, s.trading_date as int, s.asset_id@)->0];
            &&& r.len() >= 2
            &&& high_lows_of(r.take(r.len() - 2), sessions.drop_last(), dailies)
            &&& is_high_low(r[r.len() - 2], s, d, true)
            &&& is_high_low(r[r.len() - 1], s, d, false)
        } else {
            high_lows_of(r, sessions.drop_last(), dailies)
        }
    }
}

/// For every session record with its day record and its whole session
/// pattern, a "High" context and a "Low" context naming the sessions that made
/// the day's high and low.
pub fn prepare_high_low_contexts(
    session_contexts: &Vec<SessionContextData>,
    daily_extremes: &Vec<DailyContextData>,
) -> (r: Vec<HighLowContext>)
    ensures
        high_lows_of(r@, session_contexts@, daily_extremes@),
{
    let mut r: Vec<HighLowContext> = Vec::new();
    let mut i: usize = 0;
    while i < session_contexts.len()
        invariant
            i <= session_contexts.len(),
            high_lows_of(r@, session_contexts@.take(i as int), daily_extremes@),
        decreases session_contexts.len() - i,
    {
        let ghost pre = session_contexts@.take(i + 1);
        let ghost r0 = r@;
        assert(pre.drop_last() =~= session_contexts@.take(i as int));
        assert(pre.last() == session_contexts@[i as int]);
        let sc = &session_contexts[i];
        let found = find_daily(daily_extremes, sc.trading_date, &sc.asset_id);
        if let Some(k) = found {
            proof { lemma_last_daily_bounds(daily_extremes@, sc.trading_date as int, sc.asset_id@); }
            if let (Some(ps2n), Some(ps2b), Some(ps1n), Some(ps1b)) = (&sc.ps2_name, &sc.ps2_bias, &sc.ps1_name, &sc.ps1_bias) {
                let daily = &daily_extremes[k];
                r.push(HighLowContext {
                    trading_date: sc.trading_date,
                    asset_id: sc.asset_id.clone(),
                    ps2_name: ps2n.clone(),
                    ps2_bias: ps2b.clone(),
                    ps1_name: ps1n.clone(),
                    ps1_bias: ps1b.clone(),
                    session_extreme: "High".to_owned(),
                    extreme_session_name: daily.high_session.clone(),
                });
                r.push(HighLowContext {
                    trading_date: sc.trading_date,
                    asset_id: sc.asset_id.clone(),
                    ps2_name: ps2n.clone(),
                    ps2_bias: ps2b.clone(),
                    ps1_name: ps1n.clone(),
                    ps1_bias: ps1b.clone(),
                    session_extreme: "Low".to_owned(),
                    extreme_session_name: daily.low_session.clone(),
                });
                assert(r@.take(r@.len() - 2) =~= r0);
            }
        }
        i = i + 1;
    }
    assert(session_contexts@.take(session_contexts.len() as int) =~= session_contexts@);
    r
}

/// Whether `c` is the `high` (or else low) context made from bar record `b`
/// and day record `d`.
pub open spec fn is_bar_extreme(c: BarExtremeContext, b: EightContextData, d: DailyContextData, high: bool) -> bool {
    &&& c.trading_date == b.trading_date
    &&& c.asset_id@ == b.asset_id@
    &&& b.pb2_num == Some(c.pb2_num)
    &&& b.pb2_bias matches Some(x) && c.pb2_bias@ == x@
    &&& b.pb1_num == Some(c.pb1_num)
    &&& b.pb1_bias matches Some(x) && c.pb1_bias@ == x@
    &&& c.extreme_type@ == if high { "High"@ } else { "Low"@ }
    &&& c.extreme_cb_num == if high { d.high_bar } else { d.low_bar }
}

pub open spec fn bar_yields_extremes(b: EightContextData, dailies: Seq<DailyContextData>) -> bool {
    &&& last_daily(dailies, b.trading_date as int, b.asset_id@) is Some
    &&& b.pb2_num is Some && b.pb2_bias is Some && b.pb1_num is Some && b.pb1_bias is Some
}

pub open spec fn bar_extremes_of(r: Seq<BarExtremeContext>, bars: Seq<EightContextData>, dailies: Seq<DailyContextData>) -> bool
    decreases bars.len(),
{
    if bars.len() == 0 {
        r.len() == 0
    } else {
        let b = bars.last();
        if bar_yields_extremes(b, dailies) {
            let d = dailies[last_daily(dailies, b.trading_date as int, b.asset_id@)->0];
            &&& r.len() >= 2
            &&& bar_extremes_of(r.take(r.len() - 2), bars.drop_last(), dailies)
            &&& is_bar_extreme(r[r.len() - 2], b, d, true)
            &&& is_bar_extreme(r[r.len() - 1], b, d, false)
        } else {
            bar_extremes_of(r, bars.drop_last(), dailies)
        }
    }
}

/// For every bar record with its day record and its whole bar pattern, one
/// context for the bar that made the day's high and one for the bar that made
/// its low.
pub fn prepare_bar_extreme_contexts(
    bar_data: &Vec<EightContextData>,
    daily_extremes: &Vec<DailyContextData>,
) -> (r: Vec<BarExtremeContext>)
    ensures
        bar_extremes_of(r@, bar_data@, daily_extremes@),
{
    let mut r: Vec<BarExtremeContext> = Vec::new();
    let mut i: usize = 0;
    while i < bar_data.len()
        invariant
            i <= bar_data.len(),
            bar_extremes_of(r@, bar_data@.take(i as int), daily_extremes@),
        decreases bar_data.len() - i,
    {
        let ghost pre = bar_data@.take(i + 1);
        let ghost r0 = r@;
        assert(pre.drop_last() =~= bar_data@.take(i as int));
        assert(pre.last() == bar_data@[i as int]);
        let b = &bar_data[i];
        let found = find_daily(daily_extremes, b.trading_date, &b.asset_id);
        if let Some(k) = found {
            proof { lemma_last_daily_bounds(daily_extremes@, b.trading_date as int, b.asset_id@); }
            if let (Some(pb2n), Some(pb2b), Some(pb1n), Some(pb1b)) = (b.pb2_num, &b.pb2_bias, b.pb1_num, &b.pb1_bias) {
                let daily = &daily_extremes[k];
                r.push(BarExtremeContext {
                    trading_date: b.trading_date,
                    asset_id: b.asset_id.clone(),
                    pb2_num: pb2n,
                    pb2_bias: pb2b.clone(),
                    pb1_num: pb1n,
                    pb1_bias: pb1b.clone(),
                    extreme_type: "High".to_owned(),
                    extreme_cb_num: daily.high_bar,
                });
                r.push(BarExtremeContext {
                    trading_date: b.trading_date,
                    asset_id: b.asset_id.clone(),
                    pb2_num: pb2n,
                    pb2_bias: pb2b.clone(),
                    pb1_num: pb1n,
                    pb1_bias: pb1b.clone(),
                    extreme_type: "Low".to_owned(),
                    extreme_cb_num: daily.low_bar,
                });
                assert(r@.take(r@.len() - 2) =~= r0);
            }
        }
        i = i + 1;
    }
    assert(bar_data@.take(bar_data.len() as int) =~= bar_data@);
    r
}

/// The index of the last day context of `asset` on `date`, if any.
pub open spec fn last_day_context(days: Seq<DayContext>, date: int, asset: Seq<char>) -> Option<int>
    decreases days.len(),
{
    if days.len() == 0 {
        None
    } else if days.last().trading_date as int == date && days.last().asset_id@ == asset {
        Some(days.len() - 1)
    } else {
        last_day_context(days.drop_last(), date, asset)
    }
}

fn find_day_context(days: &Vec<DayContext>, date: DayNumber, asset: &String) -> (r: Option<usize>)
    ensures
        match r {
            Some(k) => k < days.len() && last_day_context(days@, date as int, asset@) == Some(k as int),
            None => last_day_context(days@, date as int, asset@) is None,
        },
{
    let mut k = days.len();
    assert(days@.take(k as int) =~= days@);
    while k > 0
        invariant
            k <= days.len(),
            last_day_context(days@, date as int, asset@) == last_day_context(days@.take(k as int), date as int, asset@),
        decreases k,
    {
        let ghost pre = days@.take(k as int);
        assert(pre.drop_last() =~= days@.take(k - 1));
        assert(pre.last() == days@[k - 1]);
        if days[k - 1].trading_date == date && days[k - 1].asset_id == *asset {
            return Some(k - 1);
        }
        k = k - 1;
    }
    assert(days@.take(0).len() == 0);
    None
}

/// Each session record with its whole session pattern, joined with the
/// actual bias of the last day context of its asset and date; records without
/// either are left out.
pub open spec fn pcs_contexts_of(sessions: Seq<SessionContextData>, days: Seq<DayContext>) -> Seq<PcsContext>
    decreases sessions.len(),
{
    if sessions.len() == 0 {
        seq![]
    } else {
        let rest = pcs_contexts_of(sessions.drop_last(), days);
        let s = sessions.last();
        match last_day_context(days, s.trading_date as int, s.asset_id@) {
            Some(k) => if s.ps2_name is Some && s.ps2_bias is Some && s.ps1_name is Some && s.ps1_bias is Some {
                rest.push(PcsContext { inner: s, actual_daily_bias: days[k].c_day_bias })
            } else {
                rest
            },
            None => rest,
        }
    }
}

/// The contexts of the PCS rates: every session record with its whole session
/// pattern, with the actual bias of its day.
pub fn prepare_pcs_contexts(session_contexts: &Vec<SessionContextData>, day_contexts: &Vec<DayContext>) -> (r: Vec<PcsContext>)
    ensures
        r@ == pcs_contexts_of(session_contexts@, day_contexts@),
{
    let mut r: Vec<PcsContext> = Vec::new();
    let mut i: usize = 0;
    while i < session_contexts.len()
        invariant
            i <= session_contexts.len(),
            r@ == pcs_contexts_of(session_contexts@.take(i as int), day_contexts@),
        decreases session_contexts.len() - i,
    {
        let ghost pre = session_contexts@.take(i + 1);
        assert(pre.drop_last() =~= session_contexts@.take(i as int));
        assert(pre.last() == session_contexts@[i as int]);
        let sc = &session_contexts[i];
        if let Some(k) = find_day_context(day_contexts, sc.trading_date, &sc.asset_id) {
            if sc.ps2_name.is_some() && sc.ps2_bias.is_some() && sc.ps1_name.is_some() && sc.ps1_bias.is_some() {
                r.push(PcsContext { inner: sc.copy(), actual_daily_bias: day_contexts[k].c_day_bias.clone() });
            }
        }
        i = i + 1;
    }
    assert(session_contexts@.take(session_contexts.len() as int) =~= session_contexts@);
    r
}

} // verus!
