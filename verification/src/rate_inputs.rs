use vstd::prelude::*;
use vstd::string::StrSliceExecFns;
use crate::keys::{KeyPart, KeyVal, key_view};
use crate::labels::{opt_view, continues, str_is, is_continuation};
use crate::calculator::{RateInput, InputView, input_views, dates_valid};
use crate::models::valid_day;
use crate::view_contexts::{DailyViewContext, WeeklyViewContext, SessionContext, DayContext, WeeklyContext, DayContextView, WeeklyContextView, day_context_views, weekly_context_views, day_outcome_of, get_daily_outcome_7};

verus! {

pub open spec fn tx(s: Seq<char>) -> KeyVal {
    KeyVal::Text(s)
}

/// The text of an optional label, empty where there is none.
pub open spec fn or_empty(o: Option<String>) -> Seq<char> {
    match o {
        Some(x) => x@,
        None => seq![],
    }
}

fn or_empty_string(o: &Option<String>) -> (r: String)
    ensures
        r@ == or_empty(*o),
{
    match o {
        Some(x) => x.clone(),
        None => String::new(),
    }
}

/// The inputs of a list of per-entry input lists, in order.
pub open spec fn joined(s: Seq<Seq<InputView>>) -> Seq<InputView>
    decreases s.len(),
{
    if s.len() == 0 {
        seq![]
    } else {
        joined(s.drop_last()) + s.last()
    }
}

pub open spec fn one(key: Seq<KeyVal>, event: bool, date: int) -> Seq<InputView> {
    seq![InputView { key: Some(key), event, date }]
}

proof fn lemma_joined_step(s: Seq<Seq<InputView>>, i: int)
    requires
        0 <= i < s.len(),
    ensures
        joined(s.take(i + 1)) == joined(s.take(i)) + s[i],
{
    assert(s.take(i + 1).drop_last() =~= s.take(i));
}

// ---------------------------------------------------------------- daily base

/// Daily base rate input: every classified day under (asset, outcome).
pub open spec fn daily_base_item(v: DailyViewContext) -> Seq<InputView> {
    one(seq![tx(v.asset_id@), tx(day_outcome_of(v))], true, v.trading_date as int)
}

pub open spec fn daily_base_items(v: Seq<DailyViewContext>) -> Seq<InputView> {
    joined(v.map_values(|x: DailyViewContext| daily_base_item(x)))
}

pub fn daily_base_inputs(views: &Vec<DailyViewContext>) -> (r: Vec<RateInput>)
    requires
        forall|i: int| 0 <= i < views.len() ==> valid_day(#[trigger] views@[i].trading_date as int),
    ensures
        input_views(r@) == daily_base_items(views@),
        r.len() == views.len(),
        dates_valid(r@),
{
    let ghost l = views@.map_values(|x: DailyViewContext| daily_base_item(x));
    let mut r: Vec<RateInput> = Vec::new();
    let mut i: usize = 0;
    while i < views.len()
        invariant
            i <= views.len(),
            l == views@.map_values(|x: DailyViewContext| daily_base_item(x)),
            input_views(r@) == joined(l.take(i as int)),
            forall|q: int| 0 <= q < views.len() ==> valid_day(#[trigger] views@[q].trading_date as int),
            r.len() == i,
            dates_valid(r@),
        decreases views.len() - i,
    {
        let ghost r0 = r@;
        proof { lemma_joined_step(l, i as int); }
        let v = &views[i];
        let key = vec![KeyPart::Text(v.asset_id.clone()), KeyPart::Text(get_daily_outcome_7(v))];
        assert(key_view(key@) =~= seq![tx(v.asset_id@), tx(day_outcome_of(*v))]);
        r.push(RateInput { key: Some(key), is_event: true, date: v.trading_date });
        assert(input_views(r@) =~= input_views(r0) + l[i as int]);
        i = i + 1;
    }
    assert(l.take(views.len() as int) =~= l);
    r
}

// ------------------------------------------------------------ session base

/// Session base rate input: each session with a bias other than "Other",
/// under (asset, bias).
pub open spec fn cs_base_item(c: SessionContext) -> Seq<InputView> {
    match c.cs_bias_7 {
        Some(b) => if b@ != "Other"@ {
            one(seq![tx(c.asset_id@), tx(b@)], true, c.trading_date as int)
        } else {
            seq![]
        },
        None => seq![],
    }
}

pub open spec fn cs_base_items(s: Seq<SessionContext>) -> Seq<InputView> {
    joined(s.map_values(|x: SessionContext| cs_base_item(x)))
}

pub fn cs_base_inputs(sessions: &Vec<SessionContext>) -> (r: Vec<RateInput>)
    requires
        forall|i: int| 0 <= i < sessions.len() ==> valid_day(#[trigger] sessions@[i].trading_date as int),
    ensures
        input_views(r@) == cs_base_items(sessions@),
        dates_valid(r@),
{
    let ghost l = sessions@.map_values(|x: SessionContext| cs_base_item(x));
    let mut r: Vec<RateInput> = Vec::new();
    let mut i: usize = 0;
    while i < sessions.len()
        invariant
            i <= sessions.len(),
            l == sessions@.map_values(|x: SessionContext| cs_base_item(x)),
            input_views(r@) == joined(l.take(i as int)),
            forall|q: int| 0 <= q < sessions.len() ==> valid_day(#[trigger] sessions@[q].trading_date as int),
            dates_valid(r@),
        decreases sessions.len() - i,
    {
        let ghost r0 = r@;
        proof { lemma_joined_step(l, i as int); }
        let c = &sessions[i];
        if let Some(b) = &c.cs_bias_7 {
            if !str_is(b.as_str(), "Other") {
                let key = vec![KeyPart::Text(c.asset_id.clone()), KeyPart::Text(b.clone())];
                assert(key_view(key@) =~= seq![tx(c.asset_id@), tx(b@)]);
                r.push(RateInput { key: Some(key), is_event: true, date: c.trading_date });
            }
        }
        assert(input_views(r@) =~= input_views(r0) + l[i as int]);
        i = i + 1;
    }
    assert(l.take(sessions.len() as int) =~= l);
    r
}

// ------------------------------------------------------------- weekly rates

/// Weekly base rate input: every week under (asset, outcome).
pub open spec fn weekly_base_item(w: WeeklyContextView) -> Seq<InputView> {
    one(seq![tx(w.asset), tx(w.week0)], true, w.week_start)
}

/// Weekly continuation input: weeks with both previous outcomes, under
/// (asset, PW2, PW1); a success when the week's outcome is not empty.
pub open spec fn wcs_item(w: WeeklyContextView) -> Seq<InputView> {
    if w.pw1 is Some && w.pw2 is Some {
        one(seq![tx(w.asset), tx(w.pw2->0), tx(w.pw1->0)], w.week0.len() > 0, w.week_start)
    } else {
        seq![]
    }
}

/// Weekly seasonality input: every week under (asset, week of month, outcome).
pub open spec fn wms_item(w: WeeklyContextView) -> Seq<InputView> {
    one(seq![tx(w.asset), KeyVal::Num(w.week_of_month), tx(w.week0)], true, w.week_start)
}

pub open spec fn weekly_base_items(s: Seq<WeeklyContextView>) -> Seq<InputView> {
    joined(s.map_values(|x: WeeklyContextView| weekly_base_item(x)))
}

pub open spec fn wcs_items(s: Seq<WeeklyContextView>) -> Seq<InputView> {
    joined(s.map_values(|x: WeeklyContextView| wcs_item(x)))
}

pub open spec fn wms_items(s: Seq<WeeklyContextView>) -> Seq<InputView> {
    joined(s.map_values(|x: WeeklyContextView| wms_item(x)))
}

/// The three weekly inputs: base rates, continuation and seasonality.
pub fn weekly_inputs(weeks: &Vec<WeeklyContext>) -> (r: (Vec<RateInput>, Vec<RateInput>, Vec<RateInput>))
    requires
        forall|i: int| 0 <= i < weeks.len() ==> valid_day(#[trigger] weeks@[i].week_start as int),
    ensures
        input_views(r.0@) == weekly_base_items(weekly_context_views(weeks@)),
        input_views(r.1@) == wcs_items(weekly_context_views(weeks@)),
        input_views(r.2@) == wms_items(weekly_context_views(weeks@)),
        dates_valid(r.0@),
        dates_valid(r.1@),
        dates_valid(r.2@),
{
    let ghost wv = weekly_context_views(weeks@);
    let ghost l0 = wv.map_values(|x: WeeklyContextView| weekly_base_item(x));
    let ghost l1 = wv.map_values(|x: WeeklyContextView| wcs_item(x));
    let ghost l2 = wv.map_values(|x: WeeklyContextView| wms_item(x));
    let mut r0: Vec<RateInput> = Vec::new();
    let mut r1: Vec<RateInput> = Vec::new();
    let mut r2: Vec<RateInput> = Vec::new();
    let mut i: usize = 0;
    while i < weeks.len()
        invariant
            i <= weeks.len(),
            wv == weekly_context_views(weeks@),
            l0 == wv.map_values(|x: WeeklyContextView| weekly_base_item(x)),
            l1 == wv.map_values(|x: WeeklyContextView| wcs_item(x)),
            l2 == wv.map_values(|x: WeeklyContextView| wms_item(x)),
            input_views(r0@) == joined(l0.take(i as int)),
            input_views(r1@) == joined(l1.take(i as int)),
            input_views(r2@) == joined(l2.take(i as int)),
            forall|q: int| 0 <= q < weeks.len() ==> valid_day(#[trigger] weeks@[q].week_start as int),
            dates_valid(r0@),
            dates_valid(r1@),
            dates_valid(r2@),
        decreases weeks.len() - i,
    {
        let ghost s0 = r0@;
        let ghost s1 = r1@;
        let ghost s2 = r2@;
        proof {
            lemma_joined_step(l0, i as int);
            lemma_joined_step(l1, i as int);
            lemma_joined_step(l2, i as int);
        }
        let w = &weeks[i];
        assert(wv[i as int] == w@);
        let k0 = vec![KeyPart::Text(w.asset_id.clone()), KeyPart::Text(w.week0_outcome_7.clone())];
        assert(key_view(k0@) =~= seq![tx(w@.asset), tx(w@.week0)]);
        r0.push(RateInput { key: Some(k0), is_event: true, date: w.week_start });
        if let (Some(p1), Some(p2)) = (&w.pw1_outcome_7, &w.pw2_outcome_7) {
            let k1 = vec![KeyPart::Text(w.asset_id.clone()), KeyPart::Text(p2.clone()), KeyPart::Text(p1.clone())];
            assert(key_view(k1@) =~= seq![tx(w@.asset), tx(w@.pw2->0), tx(w@.pw1->0)]);
            r1.push(RateInput { key: Some(k1), is_event: w.week0_outcome_7.as_str().unicode_len() > 0, date: w.week_start });
        }
        let k2 = vec![
            KeyPart::Text(w.asset_id.clone()),
            KeyPart::Num(w.week0_week_of_month),
            KeyPart::Text(w.week0_outcome_7.clone()),
        ];
        assert(key_view(k2@) =~= seq![tx(w@.asset), KeyVal::Num(w@.week_of_month), tx(w@.week0)]);
        r2.push(RateInput { key: Some(k2), is_event: true, date: w.week_start });
        assert(input_views(r0@) =~= input_views(s0) + l0[i as int]);
        assert(input_views(r1@) =~= input_views(s1) + l1[i as int]);
        assert(input_views(r2@) =~= input_views(s2) + l2[i as int]);
        i = i + 1;
    }
    assert(l0.take(weeks.len() as int) =~= l0);
    assert(l1.take(weeks.len() as int) =~= l1);
    assert(l2.take(weeks.len() as int) =~= l2);
    (r0, r1, r2)
}

// ------------------------------------------------------------ day contexts

/// Whether an outcome is excluded from the 3rd-order daily rates.
pub open spec fn vague_outcome(o: Seq<char>) -> bool {
    o == "Other"@ || o == "Consolidation-Other"@
}

/// 3rd-order daily input: days with both previous outcomes and PD1's weekday
/// whose own outcome is specific, under (asset, PD2, PD1, PD1 weekday, outcome).
pub open spec fn dci_item(d: DayContextView) -> Seq<InputView> {
    if d.pd2 is Some && d.pd1 is Some && d.pd1_dow is Some && !vague_outcome(d.day0) {
        one(seq![tx(d.asset), tx(d.pd2->0), tx(d.pd1->0), tx(d.pd1_dow->0), tx(d.day0)], true, d.date)
    } else {
        seq![]
    }
}

/// Daily trend input: days with both previous directions and PD1's weekday,
/// under (asset, PD2 direction, PD1 direction, PD1 weekday, direction).
pub open spec fn dtcr_item(d: DayContextView) -> Seq<InputView> {
    if d.pd2_dir is Some && d.pd1_dir is Some && d.pd1_dow is Some {
        one(seq![tx(d.asset), tx(d.pd2_dir->0), tx(d.pd1_dir->0), tx(d.pd1_dow->0), tx(d.day0_dir)], true, d.date)
    } else {
        seq![]
    }
}

pub open spec fn dci_items(s: Seq<DayContextView>) -> Seq<InputView> {
    joined(s.map_values(|x: DayContextView| dci_item(x)))
}

pub open spec fn dtcr_items(s: Seq<DayContextView>) -> Seq<InputView> {
    joined(s.map_values(|x: DayContextView| dtcr_item(x)))
}

fn is_vague_outcome(o: &String) -> (r: bool)
    ensures
        r == vague_outcome(o@),
{
    str_is(o.as_str(), "Other") || str_is(o.as_str(), "Consolidation-Other")
}

/// The 3rd-order daily and daily trend inputs.
pub fn day_inputs(days: &Vec<DayContext>) -> (r: (Vec<RateInput>, Vec<RateInput>))
    requires
        forall|i: int| 0 <= i < days.len() ==> valid_day(#[trigger] days@[i].trading_date as int),
    ensures
        input_views(r.0@) == dci_items(day_context_views(days@)),
        input_views(r.1@) == dtcr_items(day_context_views(days@)),
        r.0.len() <= days.len(),
        dates_valid(r.0@),
        dates_valid(r.1@),
{
    let ghost dv = day_context_views(days@);
    let ghost l0 = dv.map_values(|x: DayContextView| dci_item(x));
    let ghost l1 = dv.map_values(|x: DayContextView| dtcr_item(x));
    let mut r0: Vec<RateInput> = Vec::new();
    let mut r1: Vec<RateInput> = Vec::new();
    let mut i: usize = 0;
    while i < days.len()
        invariant
            i <= days.len(),
            dv == day_context_views(days@),
            l0 == dv.map_values(|x: DayContextView| dci_item(x)),
            l1 == dv.map_values(|x: DayContextView| dtcr_item(x)),
            input_views(r0@) == joined(l0.take(i as int)),
            input_views(r1@) == joined(l1.take(i as int)),
            forall|q: int| 0 <= q < days.len() ==> valid_day(#[trigger] days@[q].trading_date as int),
            r0.len() <= i,
            dates_valid(r0@),
            dates_valid(r1@),
        decreases days.len() - i,
    {
        let ghost s0 = r0@;
        let ghost s1 = r1@;
        proof {
            lemma_joined_step(l0, i as int);
            lemma_joined_step(l1, i as int);
        }
        let d = &days[i];
        assert(dv[i as int] == d@);
        if let (Some(p2), Some(p1), Some(dow)) = (&d.pd2_outcome_7, &d.pd1_outcome_7, &d.pd1_dow) {
            if !is_vague_outcome(&d.day0_outcome_7) {
                let k = vec![
                    KeyPart::Text(d.asset_id.clone()),
                    KeyPart::Text(p2.clone()),
                    KeyPart::Text(p1.clone()),
                    KeyPart::Text(dow.clone()),
                    KeyPart::Text(d.day0_outcome_7.clone()),
                ];
                assert(key_view(k@) =~= seq![tx(d@.asset), tx(d@.pd2->0), tx(d@.pd1->0), tx(d@.pd1_dow->0), tx(d@.day0)]);
                r0.push(RateInput { key: Some(k), is_event: true, date: d.trading_date });
            }
        }
        if let (Some(p2), Some(p1), Some(dow)) = (&d.pd2_direction, &d.pd1_direction, &d.pd1_dow) {
            let k = vec![
                KeyPart::Text(d.asset_id.clone()),
                KeyPart::Text(p2.clone()),
                KeyPart::Text(p1.clone()),
                KeyPart::Text(dow.clone()),
                KeyPart::Text(d.day0_direction.clone()),
            ];
            assert(key_view(k@) =~= seq![tx(d@.asset), tx(d@.pd2_dir->0), tx(d@.pd1_dir->0), tx(d@.pd1_dow->0), tx(d@.day0_dir)]);
            r1.push(RateInput { key: Some(k), is_event: true, date: d.trading_date });
        }
        assert(input_views(r0@) =~= input_views(s0) + l0[i as int]);
        assert(input_views(r1@) =~= input_views(s1) + l1[i as int]);
        i = i + 1;
    }
    assert(l0.take(days.len() as int) =~= l0);
    assert(l1.take(days.len() as int) =~= l1);
    (r0, r1)
}

/// The earliest week start of `asset` after day `date`, if any.
pub open spec fn next_week_start(weeks: Seq<WeeklyViewContext>, asset: Seq<char>, date: int) -> Option<int>
    decreases weeks.len(),
{
    if weeks.len() == 0 {
        None
    } else {
        let rest = next_week_start(weeks.drop_last(), asset, date);
        let w = weeks.last();
        if w.asset_id@ == asset && w.week_start > date {
            match rest {
                Some(m) => if w.week_start < m { Some(w.week_start as int) } else { Some(m) },
                None => Some(w.week_start as int),
            }
        } else {
            rest
        }
    }
}

fn find_next_week_start(weeks: &Vec<WeeklyViewContext>, asset: &String, date: i32) -> (r: Option<i32>)
    ensures
        match r {
            Some(v) => next_week_start(weeks@, asset@, date as int) == Some(v as int),
            None => next_week_start(weeks@, asset@, date as int) is None,
        },
{
    let mut best: Option<i32> = None;
    let mut i: usize = 0;
    while i < weeks.len()
        invariant
            i <= weeks.len(),
            match best {
                Some(v) => next_week_start(weeks@.take(i as int), asset@, date as int) == Some(v as int),
                None => next_week_start(weeks@.take(i as int), asset@, date as int) is None,
            },
        decreases weeks.len() - i,
    {
        assert(weeks@.take(i + 1).drop_last() =~= weeks@.take(i as int));
        let w = &weeks[i];
        if w.asset_id == *asset && w.week_start > date {
            best = match best {
                Some(m) => if w.week_start < m { Some(w.week_start) } else { Some(m) },
                None => Some(w.week_start),
            };
        }
        i = i + 1;
    }
    assert(weeks@.take(weeks.len() as int) =~= weeks@);
    best
}

/// The outcome of the first weekly context of `asset` starting on `start`.
pub open spec fn first_week_outcome(weeks: Seq<WeeklyContextView>, asset: Seq<char>, start: int) -> Option<Seq<char>>
    decreases weeks.len(),
{
    if weeks.len() == 0 {
        None
    } else {
        match first_week_outcome(weeks.drop_last(), asset, start) {
            Some(o) => Some(o),
            None => if weeks.last().asset == asset && weeks.last().week_start == start {
                Some(weeks.last().week0)
            } else {
                None
            },
        }
    }
}

fn find_week_outcome(weeks: &Vec<WeeklyContext>, asset: &String, start: i32) -> (r: Option<String>)
    ensures
        opt_view(r) == first_week_outcome(weekly_context_views(weeks@), asset@, start as int),
{
    let ghost wv = weekly_context_views(weeks@);
    let mut i: usize = 0;
    while i < weeks.len()
        invariant
            i <= weeks.len(),
            wv == weekly_context_views(weeks@),
            first_week_outcome(wv.take(i as int), asset@, start as int) is None,
        decreases weeks.len() - i,
    {
        assert(wv.take(i + 1).drop_last() =~= wv.take(i as int));
        assert(wv.take(i + 1).last() == weeks@[i as int]@);
        let w = &weeks[i];
        if w.asset_id == *asset && w.week_start == start {
            proof { lemma_first_week_prefix(wv, asset@, start as int, i + 1); }
            return Some(w.week0_outcome_7.clone());
        }
        i = i + 1;
    }
    assert(wv.take(weeks.len() as int) =~= wv);
    None
}

proof fn lemma_first_week_prefix(s: Seq<WeeklyContextView>, asset: Seq<char>, start: int, n: int)
    requires
        0 <= n <= s.len(),
        first_week_outcome(s.take(n), asset, start) is Some,
    ensures
        first_week_outcome(s, asset, start) == first_week_outcome(s.take(n), asset, start),
    decreases s.len() - n,
{
    if n < s.len() {
        assert(s.take(n + 1).drop_last() =~= s.take(n));
        lemma_first_week_prefix(s, asset, start, n + 1);
    } else {
        assert(s.take(n) =~= s);
    }
}

/// Weekly-from-daily input: days with both previous outcomes, under (asset,
/// PD2, PD1), where a week of the asset starts after the day and the first
/// weekly context of that start exists; a success when its outcome is not
/// empty.
pub open spec fn wocs_item(d: DayContextView, wv: Seq<WeeklyViewContext>, wc: Seq<WeeklyContextView>) -> Seq<InputView> {
    match next_week_start(wv, d.asset, d.date) {
        Some(ws) => if d.pd1 is Some && d.pd2 is Some {
            match first_week_outcome(wc, d.asset, ws) {
                Some(o) => one(seq![tx(d.asset), tx(d.pd2->0), tx(d.pd1->0)], o.len() > 0, d.date),
                None => seq![],
            }
        } else {
            seq![]
        },
        None => seq![],
    }
}

pub open spec fn wocs_items(s: Seq<DayContextView>, wv: Seq<WeeklyViewContext>, wc: Seq<WeeklyContextView>) -> Seq<InputView> {
    joined(s.map_values(|x: DayContextView| wocs_item(x, wv, wc)))
}

/// The weekly-from-daily inputs.
pub fn wocs_inputs(days: &Vec<DayContext>, weekly_views: &Vec<WeeklyViewContext>, weeks: &Vec<WeeklyContext>) -> (r: Vec<RateInput>)
    requires
        forall|i: int| 0 <= i < days.len() ==> valid_day(#[trigger] days@[i].trading_date as int),
    ensures
        input_views(r@) == wocs_items(day_context_views(days@), weekly_views@, weekly_context_views(weeks@)),
        dates_valid(r@),
{
    let ghost dv = day_context_views(days@);
    let ghost wc = weekly_context_views(weeks@);
    let ghost l = dv.map_values(|x: DayContextView| wocs_item(x, weekly_views@, wc));
    let mut r: Vec<RateInput> = Vec::new();
    let mut i: usize = 0;
    while i < days.len()
        invariant
            i <= days.len(),
            dv == day_context_views(days@),
            wc == weekly_context_views(weeks@),
            l == dv.map_values(|x: DayContextView| wocs_item(x, weekly_views@, wc)),
            input_views(r@) == joined(l.take(i as int)),
            forall|q: int| 0 <= q < days.len() ==> valid_day(#[trigger] days@[q].trading_date as int),
            dates_valid(r@),
        decreases days.len() - i,
    {
        let ghost s0 = r@;
        proof { lemma_joined_step(l, i as int); }
        let d = &days[i];
        assert(dv[i as int] == d@);
        let ws = find_next_week_start(weekly_views, &d.asset_id, d.trading_date);
        if let (Some(ws), Some(p1), Some(p2)) = (ws, &d.pd1_outcome_7, &d.pd2_outcome_7) {
            let target = find_week_outcome(weeks, &d.asset_id, ws);
            if let Some(o) = target {
                let k = vec![KeyPart::Text(d.asset_id.clone()), KeyPart::Text(p2.clone()), KeyPart::Text(p1.clone())];
                assert(key_view(k@) =~= seq![tx(d@.asset), tx(d@.pd2->0), tx(d@.pd1->0)]);
                r.push(RateInput { key: Some(k), is_event: o.as_str().unicode_len() > 0, date: d.trading_date });
            }
        }
        assert(input_views(r@) =~= input_views(s0) + l[i as int]);
        i = i + 1;
    }
    assert(l.take(days.len() as int) =~= l);
    r
}

// ---------------------------------------------------------------- sessions

/// The position of the first classified day of `asset` on `date`, if any.
pub open spec fn first_day_view(days: Seq<DailyViewContext>, asset: Seq<char>, date: int) -> Option<int>
    decreases days.len(),
{
    if days.len() == 0 {
        None
    } else {
        match first_day_view(days.drop_last(), asset, date) {
            Some(j) => Some(j),
            None => if days.last().asset_id@ == asset && days.last().trading_date == date {
                Some(days.len() - 1)
            } else {
                None
            },
        }
    }
}

/// The position of the first session of `asset` on `date`, if any.
pub open spec fn first_session(sessions: Seq<SessionContext>, asset: Seq<char>, date: int) -> Option<int>
    decreases sessions.len(),
{
    if sessions.len() == 0 {
        None
    } else {
        match first_session(sessions.drop_last(), asset, date) {
            Some(j) => Some(j),
            None => if sessions.last().asset_id@ == asset && sessions.last().trading_date == date {
                Some(sessions.len() - 1)
            } else {
                None
            },
        }
    }
}

proof fn lemma_first_day_view(days: Seq<DailyViewContext>, asset: Seq<char>, date: int, n: int)
    requires
        0 <= n <= days.len(),
        first_day_view(days.take(n), asset, date) is Some,
    ensures
        first_day_view(days, asset, date) == first_day_view(days.take(n), asset, date),
    decreases days.len() - n,
{
    if n < days.len() {
        assert(days.take(n + 1).drop_last() =~= days.take(n));
        lemma_first_day_view(days, asset, date, n + 1);
    } else {
        assert(days.take(n) =~= days);
    }
}

proof fn lemma_first_session(s: Seq<SessionContext>, asset: Seq<char>, date: int, n: int)
    requires
        0 <= n <= s.len(),
        first_session(s.take(n), asset, date) is Some,
    ensures
        first_session(s, asset, date) == first_session(s.take(n), asset, date),
    decreases s.len() - n,
{
    if n < s.len() {
        assert(s.take(n + 1).drop_last() =~= s.take(n));
        lemma_first_session(s, asset, date, n + 1);
    } else {
        assert(s.take(n) =~= s);
    }
}

fn find_day_view(days: &Vec<DailyViewContext>, asset: &String, date: i32) -> (r: Option<usize>)
    ensures
        match r {
            Some(j) => first_day_view(days@, asset@, date as int) == Some(j as int) && j < days.len(),
            None => first_day_view(days@, asset@, date as int) is None,
        },
{
    let mut i: usize = 0;
    while i < days.len()
        invariant
            i <= days.len(),
            first_day_view(days@.take(i as int), asset@, date as int) is None,
        decreases days.len() - i,
    {
        assert(days@.take(i + 1).drop_last() =~= days@.take(i as int));
        if days[i].asset_id == *asset && days[i].trading_date == date {
            proof { lemma_first_day_view(days@, asset@, date as int, i + 1); }
            return Some(i);
        }
        i = i + 1;
    }
    assert(days@.take(days.len() as int) =~= days@);
    None
}

pub fn find_session(sessions: &Vec<SessionContext>, asset: &String, date: i32) -> (r: Option<usize>)
    ensures
        match r {
            Some(j) => first_session(sessions@, asset@, date as int) == Some(j as int) && j < sessions.len(),
            None => first_session(sessions@, asset@, date as int) is None,
        },
{
    let mut i: usize = 0;
    while i < sessions.len()
        invariant
            i <= sessions.len(),
            first_session(sessions@.take(i as int), asset@, date as int) is None,
        decreases sessions.len() - i,
    {
        assert(sessions@.take(i + 1).drop_last() =~= sessions@.take(i as int));
        if sessions[i].asset_id == *asset && sessions[i].trading_date == date {
            proof { lemma_first_session(sessions@, asset@, date as int, i + 1); }
            return Some(i);
        }
        i = i + 1;
    }
    assert(sessions@.take(sessions.len() as int) =~= sessions@);
    None
}

/// Whether the current session's bias continues the previous one: both in the
/// bullish family, both in the bearish family, or the same consolidation
/// ("Consolidation-Down", "-Up" or "-Other").
pub open spec fn strong_continuation(prev: Seq<char>, cur: Seq<char>) -> bool {
    continues(prev, cur) || (prev == cur && (prev == "Consolidation-Down"@ || prev == "Consolidation-Up"@
        || prev == "Consolidation-Other"@))
}

pub fn is_strong_continuation(prev: &String, cur: &String) -> (r: bool)
    ensures
        r == strong_continuation(prev@, cur@),
{
    is_continuation(prev.as_str(), cur.as_str()) || (*prev == *cur && (str_is(prev.as_str(), "Consolidation-Down")
        || str_is(prev.as_str(), "Consolidation-Up") || str_is(prev.as_str(), "Consolidation-Other")))
}

/// Day-type-after-sessions input: sessions with both previous session names
/// whose day is classified, under (asset, PS2 name, PS2 bias, PS1 name, PS1
/// bias, day outcome); a missing bias reads as empty.
pub open spec fn pcs_item(c: SessionContext, days: Seq<DailyViewContext>) -> Seq<InputView> {
    if c.ps2_name is Some && c.ps1_name is Some {
        match first_day_view(days, c.asset_id@, c.trading_date as int) {
            Some(j) => one(
                seq![
                    tx(c.asset_id@),
                    tx(or_empty(c.ps2_name)),
                    tx(or_empty(c.ps2_bias_7)),
                    tx(or_empty(c.ps1_name)),
                    tx(or_empty(c.ps1_bias_7)),
                    tx(day_outcome_of(days[j])),
                ],
                true,
                c.trading_date as int,
            ),
            None => seq![],
        }
    } else {
        seq![]
    }
}

/// Session transition input: sessions with both previous names and a named,
/// classified current session, under (asset, PS2 name, PS2 bias, PS1 name,
/// PS1 bias, CS name, CS bias).
pub open spec fn tcs_item(c: SessionContext) -> Seq<InputView> {
    if c.ps2_name is Some && c.ps1_name is Some && c.cs_name is Some && c.cs_bias_7 is Some {
        one(
            seq![
                tx(c.asset_id@),
                tx(or_empty(c.ps2_name)),
                tx(or_empty(c.ps2_bias_7)),
                tx(or_empty(c.ps1_name)),
                tx(or_empty(c.ps1_bias_7)),
                tx(or_empty(c.cs_name)),
                tx(or_empty(c.cs_bias_7)),
            ],
            true,
            c.trading_date as int,
        )
    } else {
        seq![]
    }
}

/// Session continuation input: sessions with PS1 and CS biases, under (asset,
/// PS2 name, PS2 bias, PS1 name, PS1 bias); a success when CS continues PS1.
pub open spec fn tcs_continuation_item(c: SessionContext) -> Seq<InputView> {
    if c.ps1_bias_7 is Some && c.cs_bias_7 is Some {
        one(
            seq![
                tx(c.asset_id@),
                tx(or_empty(c.ps2_name)),
                tx(or_empty(c.ps2_bias_7)),
                tx(or_empty(c.ps1_name)),
                tx(or_empty(c.ps1_bias_7)),
            ],
            strong_continuation(or_empty(c.ps1_bias_7), or_empty(c.cs_bias_7)),
            c.trading_date as int,
        )
    } else {
        seq![]
    }
}

pub open spec fn pcs_items(s: Seq<SessionContext>, days: Seq<DailyViewContext>) -> Seq<InputView> {
    joined(s.map_values(|x: SessionContext| pcs_item(x, days)))
}

pub open spec fn tcs_items(s: Seq<SessionContext>) -> Seq<InputView> {
    joined(s.map_values(|x: SessionContext| tcs_item(x)))
}

pub open spec fn tcs_continuation_items(s: Seq<SessionContext>) -> Seq<InputView> {
    joined(s.map_values(|x: SessionContext| tcs_continuation_item(x)))
}

/// The session inputs: day type after sessions, transitions and continuation.
pub fn session_inputs(sessions: &Vec<SessionContext>, days: &Vec<DailyViewContext>) -> (r: (Vec<RateInput>, Vec<RateInput>, Vec<RateInput>))
    requires
        forall|i: int| 0 <= i < sessions.len() ==> valid_day(#[trigger] sessions@[i].trading_date as int),
    ensures
        input_views(r.0@) == pcs_items(sessions@, days@),
        input_views(r.1@) == tcs_items(sessions@),
        input_views(r.2@) == tcs_continuation_items(sessions@),
        dates_valid(r.0@),
        dates_valid(r.1@),
        dates_valid(r.2@),
{
    let ghost l0 = sessions@.map_values(|x: SessionContext| pcs_item(x, days@));
    let ghost l1 = sessions@.map_values(|x: SessionContext| tcs_item(x));
    let ghost l2 = sessions@.map_values(|x: SessionContext| tcs_continuation_item(x));
    let mut r0: Vec<RateInput> = Vec::new();
    let mut r1: Vec<RateInput> = Vec::new();
    let mut r2: Vec<RateInput> = Vec::new();
    let mut i: usize = 0;
    while i < sessions.len()
        invariant
            i <= sessions.len(),
            l0 == sessions@.map_values(|x: SessionContext| pcs_item(x, days@)),
            l1 == sessions@.map_values(|x: SessionContext| tcs_item(x)),
            l2 == sessions@.map_values(|x: SessionContext| tcs_continuation_item(x)),
            input_views(r0@) == joined(l0.take(i as int)),
            input_views(r1@) == joined(l1.take(i as int)),
            input_views(r2@) == joined(l2.take(i as int)),
            forall|q: int| 0 <= q < sessions.len() ==> valid_day(#[trigger] sessions@[q].trading_date as int),
            dates_valid(r0@),
            dates_valid(r1@),
            dates_valid(r2@),
        decreases sessions.len() - i,
    {
        let ghost s0 = r0@;
        let ghost s1 = r1@;
        let ghost s2 = r2@;
        proof {
            lemma_joined_step(l0, i as int);
            lemma_joined_step(l1, i as int);
            lemma_joined_step(l2, i as int);
        }
        let c = &sessions[i];
        let ps2n = or_empty_string(&c.ps2_name);
        let ps2b = or_empty_string(&c.ps2_bias_7);
        let ps1n = or_empty_string(&c.ps1_name);
        let ps1b = or_empty_string(&c.ps1_bias_7);
        let csn = or_empty_string(&c.cs_name);
        let csb = or_empty_string(&c.cs_bias_7);
        if c.ps2_name.is_some() && c.ps1_name.is_some() {
            if let Some(j) = find_day_view(days, &c.asset_id, c.trading_date) {
                let k = vec![
                    KeyPart::Text(c.asset_id.clone()),
                    KeyPart::Text(ps2n.clone()),
                    KeyPart::Text(ps2b.clone()),
                    KeyPart::Text(ps1n.clone()),
                    KeyPart::Text(ps1b.clone()),
                    KeyPart::Text(get_daily_outcome_7(&days[j])),
                ];
                assert(key_view(k@) =~= seq![
                    tx(c.asset_id@),
                    tx(or_empty(c.ps2_name)),
                    tx(or_empty(c.ps2_bias_7)),
                    tx(or_empty(c.ps1_name)),
                    tx(or_empty(c.ps1_bias_7)),
                    tx(day_outcome_of(days@[j as int])),
                ]);
                r0.push(RateInput { key: Some(k), is_event: true, date: c.trading_date });
            }
        }
        if c.ps2_name.is_some() && c.ps1_name.is_some() && c.cs_name.is_some() && c.cs_bias_7.is_some() {
            let k = vec![
                KeyPart::Text(c.asset_id.clone()),
                KeyPart::Text(ps2n.clone()),
                KeyPart::Text(ps2b.clone()),
                KeyPart::Text(ps1n.clone()),
                KeyPart::Text(ps1b.clone()),
                KeyPart::Text(csn),
                KeyPart::Text(csb.clone()),
            ];
            assert(key_view(k@) =~= seq![
                tx(c.asset_id@),
                tx(or_empty(c.ps2_name)),
                tx(or_empty(c.ps2_bias_7)),
                tx(or_empty(c.ps1_name)),
                tx(or_empty(c.ps1_bias_7)),
                tx(or_empty(c.cs_name)),
                tx(or_empty(c.cs_bias_7)),
            ]);
            r1.push(RateInput { key: Some(k), is_event: true, date: c.trading_date });
        }
        if c.ps1_bias_7.is_some() && c.cs_bias_7.is_some() {
            let event = is_strong_continuation(&ps1b, &csb);
            let k = vec![
                KeyPart::Text(c.asset_id.clone()),
                KeyPart::Text(ps2n),
                KeyPart::Text(ps2b),
                KeyPart::Text(ps1n),
                KeyPart::Text(ps1b),
            ];
            assert(key_view(k@) =~= seq![
                tx(c.asset_id@),
                tx(or_empty(c.ps2_name)),
                tx(or_empty(c.ps2_bias_7)),
                tx(or_empty(c.ps1_name)),
                tx(or_empty(c.ps1_bias_7)),
            ]);
            r2.push(RateInput { key: Some(k), is_event: event, date: c.trading_date });
        }
        assert(input_views(r0@) =~= input_views(s0) + l0[i as int]);
        assert(input_views(r1@) =~= input_views(s1) + l1[i as int]);
        assert(input_views(r2@) =~= input_views(s2) + l2[i as int]);
        i = i + 1;
    }
    assert(l0.take(sessions.len() as int) =~= l0);
    assert(l1.take(sessions.len() as int) =~= l1);
    assert(l2.take(sessions.len() as int) =~= l2);
    (r0, r1, r2)
}

/// Extreme-session input: each day with both a high and a low session whose
/// session context exists gives two items, under (asset, PS2 name, PS2 bias,
/// PS1 name, PS1 bias, "High", high session) and the same with "Low" and the
/// low session; missing names and biases read as empty.
pub open spec fn high_low_item(v: DailyViewContext, sessions: Seq<SessionContext>) -> Seq<InputView> {
    if v.high_session is Some && v.low_session is Some {
        match first_session(sessions, v.asset_id@, v.trading_date as int) {
            Some(j) => {
                let c = sessions[j];
                one(
                    seq![
                        tx(v.asset_id@),
                        tx(or_empty(c.ps2_name)),
                        tx(or_empty(c.ps2_bias_7)),
                        tx(or_empty(c.ps1_name)),
                        tx(or_empty(c.ps1_bias_7)),
                        tx("High"@),
                        tx(or_empty(v.high_session)),
                    ],
                    true,
                    v.trading_date as int,
                ) + one(
                    seq![
                        tx(v.asset_id@),
                        tx(or_empty(c.ps2_name)),
                        tx(or_empty(c.ps2_bias_7)),
                        tx(or_empty(c.ps1_name)),
                        tx(or_empty(c.ps1_bias_7)),
                        tx("Low"@),
                        tx(or_empty(v.low_session)),
                    ],
                    true,
                    v.trading_date as int,
                )
            },
            None => seq![],
        }
    } else {
        seq![]
    }
}

pub open spec fn high_low_items(days: Seq<DailyViewContext>, sessions: Seq<SessionContext>) -> Seq<InputView> {
    joined(days.map_values(|x: DailyViewContext| high_low_item(x, sessions)))
}

/// The extreme-session inputs.
pub fn high_low_inputs(days: &Vec<DailyViewContext>, sessions: &Vec<SessionContext>) -> (r: Vec<RateInput>)
    requires
        forall|i: int| 0 <= i < days.len() ==> valid_day(#[trigger] days@[i].trading_date as int),
    ensures
        input_views(r@) == high_low_items(days@, sessions@),
        dates_valid(r@),
{
    let ghost l = days@.map_values(|x: DailyViewContext| high_low_item(x, sessions@));
    let mut r: Vec<RateInput> = Vec::new();
    let mut i: usize = 0;
    while i < days.len()
        invariant
            i <= days.len(),
            l == days@.map_values(|x: DailyViewContext| high_low_item(x, sessions@)),
            input_views(r@) == joined(l.take(i as int)),
            forall|q: int| 0 <= q < days.len() ==> valid_day(#[trigger] days@[q].trading_date as int),
            dates_valid(r@),
        decreases days.len() - i,
    {
        let ghost s0 = r@;
        proof { lemma_joined_step(l, i as int); }
        let v = &days[i];
        if let (Some(high), Some(low)) = (&v.high_session, &v.low_session) {
            if let Some(j) = find_session(sessions, &v.asset_id, v.trading_date) {
                let c = &sessions[j];
                let ps2n = or_empty_string(&c.ps2_name);
                let ps2b = or_empty_string(&c.ps2_bias_7);
                let ps1n = or_empty_string(&c.ps1_name);
                let ps1b = or_empty_string(&c.ps1_bias_7);
                let kh = vec![
                    KeyPart::Text(v.asset_id.clone()),
                    KeyPart::Text(ps2n.clone()),
                    KeyPart::Text(ps2b.clone()),
                    KeyPart::Text(ps1n.clone()),
                    KeyPart::Text(ps1b.clone()),
                    KeyPart::Text("High".to_owned()),
                    KeyPart::Text(high.clone()),
                ];
                let kl = vec![
                    KeyPart::Text(v.asset_id.clone()),
                    KeyPart::Text(ps2n),
                    KeyPart::Text(ps2b),
                    KeyPart::Text(ps1n),
                    KeyPart::Text(ps1b),
                    KeyPart::Text("Low".to_owned()),
                    KeyPart::Text(low.clone()),
                ];
                let ghost cj = sessions@[j as int];
                assert(key_view(kh@) =~= seq![
                    tx(v.asset_id@),
                    tx(or_empty(cj.ps2_name)),
                    tx(or_empty(cj.ps2_bias_7)),
                    tx(or_empty(cj.ps1_name)),
                    tx(or_empty(cj.ps1_bias_7)),
                    tx("High"@),
                    tx(or_empty(v.high_session)),
                ]);
                assert(key_view(kl@) =~= seq![
                    tx(v.asset_id@),
                    tx(or_empty(cj.ps2_name)),
                    tx(or_empty(cj.ps2_bias_7)),
                    tx(or_empty(cj.ps1_name)),
                    tx(or_empty(cj.ps1_bias_7)),
                    tx("Low"@),
                    tx(or_empty(v.low_session)),
                ]);
                r.push(RateInput { key: Some(kh), is_event: true, date: v.trading_date });
                r.push(RateInput { key: Some(kl), is_event: true, date: v.trading_date });
            }
        }
        assert(input_views(r@) =~= input_views(s0) + l[i as int]);
        i = i + 1;
    }
    assert(l.take(days.len() as int) =~= l);
    r
}

} // verus!
