use vstd::prelude::*;
use vstd::string::StringExecFns;
use crate::keys::{KeyPart, KeyVal, key1, key2, key3, key4, key5, text};
use crate::models::{DayNumber, SessionContextData, EightContextData, DailyContextData, DayContext, WeeklyContext};
use crate::aggregate::{Observation, ObsView, opt_key_view, obs_views};
use crate::labels::{continues, excluded_bias, is_excluded_bias, is_continuation, short_weekday, short_weekday_name, weekday_index};

verus! {

/// A record that the metrics count: it names its asset and date, and the
/// pattern it follows and the outcome it shows, where it has them.
pub trait MetricsContext {
    spec fn asset_of(&self) -> Seq<char>;

    spec fn date_of(&self) -> int;

    spec fn pattern_of(&self) -> Option<Seq<KeyVal>>;

    spec fn outcome_of(&self) -> Option<Seq<KeyVal>>;

    fn get_date(&self) -> (r: DayNumber)
        ensures
            r as int == self.date_of(),
    ;

    fn get_asset_id(&self) -> (r: String)
        ensures
            r@ == self.asset_of(),
    ;

    fn get_pattern_key(&self) -> (r: Option<Vec<KeyPart>>)
        ensures
            opt_key_view(r) == self.pattern_of(),
    ;

    fn get_outcome_key(&self) -> (r: Option<Vec<KeyPart>>)
        ensures
            opt_key_view(r) == self.outcome_of(),
    ;
}

pub open spec fn observation_of<T: MetricsContext>(t: T) -> ObsView {
    ObsView { asset: t.asset_of(), date: t.date_of(), pattern: t.pattern_of(), outcome: t.outcome_of() }
}

pub open spec fn observations_of<T: MetricsContext>(data: Seq<T>) -> Seq<ObsView> {
    data.map_values(|t: T| observation_of(t))
}

/// What one context contributes to the counts.
pub fn observe<T: MetricsContext>(t: &T) -> (r: Observation)
    ensures
        r@ == observation_of(*t),
{
    Observation {
        asset_id: t.get_asset_id(),
        date: t.get_date(),
        pattern: t.get_pattern_key(),
        outcome: t.get_outcome_key(),
    }
}

/// What each context contributes to the counts, in order.
pub fn observations<T: MetricsContext>(data: &Vec<T>) -> (r: Vec<Observation>)
    ensures
        obs_views(r@) == observations_of(data@),
{
    let mut r: Vec<Observation> = Vec::new();
    let mut i: usize = 0;
    while i < data.len()
        invariant
            i <= data.len(),
            r@.len() == i,
            forall|k: int| 0 <= k < i ==> #[trigger] r@[k]@ == observation_of(data@[k]),
        decreases data.len() - i,
    {
        r.push(observe(&data[i]));
        i = i + 1;
    }
    assert(obs_views(r@) =~= observations_of(data@));
    r
}

pub open spec fn tv(s: String) -> KeyVal {
    KeyVal::Text(s@)
}

pub open spec fn nv(n: i32) -> KeyVal {
    KeyVal::Num(n as int)
}

/// The session pattern (PS2 name, PS2 bias, PS1 name, PS1 bias), where all four are known.
pub open spec fn session_pattern(s: SessionContextData) -> Option<Seq<KeyVal>> {
    match (s.ps2_name, s.ps2_bias, s.ps1_name, s.ps1_bias) {
        (Some(a), Some(b), Some(c), Some(d)) => Some(seq![tv(a), tv(b), tv(c), tv(d)]),
        _ => None,
    }
}

pub fn session_pattern_key(s: &SessionContextData) -> (r: Option<Vec<KeyPart>>)
    ensures
        opt_key_view(r) == session_pattern(*s),
{
    match (&s.ps2_name, &s.ps2_bias, &s.ps1_name, &s.ps1_bias) {
        (Some(a), Some(b), Some(c), Some(d)) => Some(key4(text(a), text(b), text(c), text(d))),
        _ => None,
    }
}

/// The bar pattern (PB2 number, PB2 bias, PB1 number, PB1 bias), where all four are known.
pub open spec fn bar_pattern(e: EightContextData) -> Option<Seq<KeyVal>> {
    match (e.pb2_num, e.pb2_bias, e.pb1_num, e.pb1_bias) {
        (Some(a), Some(b), Some(c), Some(d)) => Some(seq![nv(a), tv(b), nv(c), tv(d)]),
        _ => None,
    }
}

pub fn bar_pattern_key(e: &EightContextData) -> (r: Option<Vec<KeyPart>>)
    ensures
        opt_key_view(r) == bar_pattern(*e),
{
    match (&e.pb2_num, &e.pb2_bias, &e.pb1_num, &e.pb1_bias) {
        (Some(a), Some(b), Some(c), Some(d)) => Some(key4(KeyPart::Num(*a), text(b), KeyPart::Num(*c), text(d))),
        _ => None,
    }
}

/// A key of one optional label.
pub open spec fn opt_text(s: Option<String>) -> Option<Seq<KeyVal>> {
    match s {
        Some(x) => Some(seq![tv(x)]),
        None => None,
    }
}

pub fn opt_text_key(s: &Option<String>) -> (r: Option<Vec<KeyPart>>)
    ensures
        opt_key_view(r) == opt_text(*s),
{
    match s {
        Some(x) => Some(key1(text(x))),
        None => None,
    }
}

/// A key of one optional label, left out where the label is an excluded bias.
pub open spec fn opt_kept_text(s: Option<String>) -> Option<Seq<KeyVal>> {
    match s {
        Some(x) => if excluded_bias(x@) { None } else { Some(seq![tv(x)]) },
        None => None,
    }
}

pub fn opt_kept_text_key(s: &Option<String>) -> (r: Option<Vec<KeyPart>>)
    ensures
        opt_key_view(r) == opt_kept_text(*s),
{
    match s {
        Some(x) => if is_excluded_bias(x.as_str()) { None } else { Some(key1(text(x))) },
        None => None,
    }
}

// ---------------------------------------------------------------------------
// Session records

impl MetricsContext for SessionContextData {
    open spec fn asset_of(&self) -> Seq<char> { self.asset_id@ }
    open spec fn date_of(&self) -> int { self.trading_date as int }
    open spec fn pattern_of(&self) -> Option<Seq<KeyVal>> { session_pattern(*self) }
    open spec fn outcome_of(&self) -> Option<Seq<KeyVal>> { opt_text(self.cs_bias) }

    fn get_date(&self) -> (r: DayNumber) { self.trading_date }
    fn get_asset_id(&self) -> (r: String) { self.asset_id.clone() }
    fn get_pattern_key(&self) -> (r: Option<Vec<KeyPart>>) { session_pattern_key(self) }
    fn get_outcome_key(&self) -> (r: Option<Vec<KeyPart>>) { opt_text_key(&self.cs_bias) }
}

/// A session record counted for the base rate of its bias, per session name.
#[derive(Debug)]
pub struct BaseRateSessionContext {
    pub inner: SessionContextData,
}

impl MetricsContext for BaseRateSessionContext {
    open spec fn asset_of(&self) -> Seq<char> { self.inner.asset_id@ }
    open spec fn date_of(&self) -> int { self.inner.trading_date as int }
    open spec fn pattern_of(&self) -> Option<Seq<KeyVal>> { opt_text(self.inner.cs_name) }
    open spec fn outcome_of(&self) -> Option<Seq<KeyVal>> { opt_text(self.inner.cs_bias) }

    fn get_date(&self) -> (r: DayNumber) { self.inner.trading_date }
    fn get_asset_id(&self) -> (r: String) { self.inner.asset_id.clone() }
    fn get_pattern_key(&self) -> (r: Option<Vec<KeyPart>>) { opt_text_key(&self.inner.cs_name) }
    fn get_outcome_key(&self) -> (r: Option<Vec<KeyPart>>) { opt_text_key(&self.inner.cs_bias) }
}

/// A session record counted for its transition: (CS name, CS bias) after the
/// session pattern, leaving out excluded biases.
#[derive(Debug)]
pub struct Transition2ndOrderContext {
    pub inner: SessionContextData,
}

pub open spec fn named_kept_bias(name: Option<String>, bias: Option<String>) -> Option<Seq<KeyVal>> {
    match (name, bias) {
        (Some(n), Some(b)) => if excluded_bias(b@) { None } else { Some(seq![tv(n), tv(b)]) },
        _ => None,
    }
}

impl MetricsContext for Transition2ndOrderContext {
    open spec fn asset_of(&self) -> Seq<char> { self.inner.asset_id@ }
    open spec fn date_of(&self) -> int { self.inner.trading_date as int }
    open spec fn pattern_of(&self) -> Option<Seq<KeyVal>> { session_pattern(self.inner) }
    open spec fn outcome_of(&self) -> Option<Seq<KeyVal>> { named_kept_bias(self.inner.cs_name, self.inner.cs_bias) }

    fn get_date(&self) -> (r: DayNumber) { self.inner.trading_date }
    fn get_asset_id(&self) -> (r: String) { self.inner.asset_id.clone() }
    fn get_pattern_key(&self) -> (r: Option<Vec<KeyPart>>) { session_pattern_key(&self.inner) }
    fn get_outcome_key(&self) -> (r: Option<Vec<KeyPart>>) {
        match (&self.inner.cs_name, &self.inner.cs_bias) {
            (Some(n), Some(b)) => if is_excluded_bias(b.as_str()) { None } else { Some(key2(text(n), text(b))) },
            _ => None,
        }
    }
}

/// A session record counted for the day type that followed its pattern.
#[derive(Debug)]
pub struct DayType2ndOrderContext {
    pub inner: SessionContextData,
    pub outcome: DailyContextData,
}

impl MetricsContext for DayType2ndOrderContext {
    open spec fn asset_of(&self) -> Seq<char> { self.inner.asset_id@ }
    open spec fn date_of(&self) -> int { self.inner.trading_date as int }
    open spec fn pattern_of(&self) -> Option<Seq<KeyVal>> { session_pattern(self.inner) }
    open spec fn outcome_of(&self) -> Option<Seq<KeyVal>> { opt_text(self.outcome.day_type) }

    fn get_date(&self) -> (r: DayNumber) { self.inner.trading_date }
    fn get_asset_id(&self) -> (r: String) { self.inner.asset_id.clone() }
    fn get_pattern_key(&self) -> (r: Option<Vec<KeyPart>>) { session_pattern_key(&self.inner) }
    fn get_outcome_key(&self) -> (r: Option<Vec<KeyPart>>) { opt_text_key(&self.outcome.day_type) }
}

/// A session record counted for the day type of its day.
#[derive(Debug)]
pub struct DayType2ndOrderSessionContext {
    pub inner: SessionContextData,
    pub outcome: DailyContextData,
}

impl MetricsContext for DayType2ndOrderSessionContext {
    open spec fn asset_of(&self) -> Seq<char> { self.inner.asset_id@ }
    open spec fn date_of(&self) -> int { self.inner.trading_date as int }
    open spec fn pattern_of(&self) -> Option<Seq<KeyVal>> { session_pattern(self.inner) }
    open spec fn outcome_of(&self) -> Option<Seq<KeyVal>> { opt_text(self.outcome.day_type) }

    fn get_date(&self) -> (r: DayNumber) { self.inner.trading_date }
    fn get_asset_id(&self) -> (r: String) { self.inner.asset_id.clone() }
    fn get_pattern_key(&self) -> (r: Option<Vec<KeyPart>>) { session_pattern_key(&self.inner) }
    fn get_outcome_key(&self) -> (r: Option<Vec<KeyPart>>) { opt_text_key(&self.outcome.day_type) }
}

/// A session record counted for whether the current session continued the
/// previous session's direction, after the session pattern and CS name.
#[derive(Debug)]
pub struct SessionContinuationContext {
    pub inner: SessionContextData,
}

pub open spec fn continuation_flag(prev: Option<String>, cur: Option<String>) -> Option<Seq<KeyVal>> {
    match (prev, cur) {
        (Some(p), Some(c)) => Some(seq![KeyVal::Flag(continues(p@, c@))]),
        _ => None,
    }
}

pub fn continuation_flag_key(prev: &Option<String>, cur: &Option<String>) -> (r: Option<Vec<KeyPart>>)
    ensures
        opt_key_view(r) == continuation_flag(*prev, *cur),
{
    match (prev, cur) {
        (Some(p), Some(c)) => Some(key1(KeyPart::Flag(is_continuation(p.as_str(), c.as_str())))),
        _ => None,
    }
}

impl MetricsContext for SessionContinuationContext {
    open spec fn asset_of(&self) -> Seq<char> { self.inner.asset_id@ }
    open spec fn date_of(&self) -> int { self.inner.trading_date as int }
    open spec fn pattern_of(&self) -> Option<Seq<KeyVal>> {
        match (self.inner.ps2_name, self.inner.ps2_bias, self.inner.ps1_name, self.inner.ps1_bias, self.inner.cs_name) {
            (Some(a), Some(b), Some(c), Some(d), Some(e)) => Some(seq![tv(a), tv(b), tv(c), tv(d), tv(e)]),
            _ => None,
        }
    }
    open spec fn outcome_of(&self) -> Option<Seq<KeyVal>> { continuation_flag(self.inner.ps1_bias, self.inner.cs_bias) }

    fn get_date(&self) -> (r: DayNumber) { self.inner.trading_date }
    fn get_asset_id(&self) -> (r: String) { self.inner.asset_id.clone() }
    fn get_pattern_key(&self) -> (r: Option<Vec<KeyPart>>) {
        match (&self.inner.ps2_name, &self.inner.ps2_bias, &self.inner.ps1_name, &self.inner.ps1_bias, &self.inner.cs_name) {
            (Some(a), Some(b), Some(c), Some(d), Some(e)) => Some(key5(text(a), text(b), text(c), text(d), text(e))),
            _ => None,
        }
    }
    fn get_outcome_key(&self) -> (r: Option<Vec<KeyPart>>) { continuation_flag_key(&self.inner.ps1_bias, &self.inner.cs_bias) }
}

// ---------------------------------------------------------------------------
// Eight-hour bar records

/// A bar record counted for the base rate of its bias, per bar number.
#[derive(Debug)]
pub struct BarBaseRateContext {
    pub inner: EightContextData,
}

pub open spec fn opt_num(n: Option<i32>) -> Option<Seq<KeyVal>> {
    match n {
        Some(x) => Some(seq![nv(x)]),
        None => None,
    }
}

impl MetricsContext for BarBaseRateContext {
    open spec fn asset_of(&self) -> Seq<char> { self.inner.asset_id@ }
    open spec fn date_of(&self) -> int { self.inner.trading_date as int }
    open spec fn pattern_of(&self) -> Option<Seq<KeyVal>> { opt_num(self.inner.cb_num) }
    open spec fn outcome_of(&self) -> Option<Seq<KeyVal>> { opt_text(self.inner.cb_bias) }

    fn get_date(&self) -> (r: DayNumber) { self.inner.trading_date }
    fn get_asset_id(&self) -> (r: String) { self.inner.asset_id.clone() }
    fn get_pattern_key(&self) -> (r: Option<Vec<KeyPart>>) {
        match self.inner.cb_num {
            Some(n) => Some(key1(KeyPart::Num(n))),
            None => None,
        }
    }
    fn get_outcome_key(&self) -> (r: Option<Vec<KeyPart>>) { opt_text_key(&self.inner.cb_bias) }
}

/// (bar number, bar bias), left out where the bias is excluded.
pub open spec fn numbered_kept_bias(num: Option<i32>, bias: Option<String>) -> Option<Seq<KeyVal>> {
    match (num, bias) {
        (Some(n), Some(b)) => if excluded_bias(b@) { None } else { Some(seq![nv(n), tv(b)]) },
        _ => None,
    }
}

pub fn numbered_kept_bias_key(num: &Option<i32>, bias: &Option<String>) -> (r: Option<Vec<KeyPart>>)
    ensures
        opt_key_view(r) == numbered_kept_bias(*num, *bias),
{
    match (num, bias) {
        (Some(n), Some(b)) => if is_excluded_bias(b.as_str()) { None } else { Some(key2(KeyPart::Num(*n), text(b))) },
        _ => None,
    }
}

/// A bar record counted for its transition: (CB number, CB bias) after the
/// bar pattern, leaving out excluded biases.
#[derive(Debug)]
pub struct Transition2ndOrderBarContext {
    pub inner: EightContextData,
}

impl MetricsContext for Transition2ndOrderBarContext {
    open spec fn asset_of(&self) -> Seq<char> { self.inner.asset_id@ }
    open spec fn date_of(&self) -> int { self.inner.trading_date as int }
    open spec fn pattern_of(&self) -> Option<Seq<KeyVal>> { bar_pattern(self.inner) }
    open spec fn outcome_of(&self) -> Option<Seq<KeyVal>> { numbered_kept_bias(self.inner.cb_num, self.inner.cb_bias) }

    fn get_date(&self) -> (r: DayNumber) { self.inner.trading_date }
    fn get_asset_id(&self) -> (r: String) { self.inner.asset_id.clone() }
    fn get_pattern_key(&self) -> (r: Option<Vec<KeyPart>>) { bar_pattern_key(&self.inner) }
    fn get_outcome_key(&self) -> (r: Option<Vec<KeyPart>>) { numbered_kept_bias_key(&self.inner.cb_num, &self.inner.cb_bias) }
}

/// A bar record counted for the day type of its day.
#[derive(Debug)]
pub struct DayType2ndOrderBarContext {
    pub inner: EightContextData,
    pub outcome: DailyContextData,
}

impl MetricsContext for DayType2ndOrderBarContext {
    open spec fn asset_of(&self) -> Seq<char> { self.inner.asset_id@ }
    open spec fn date_of(&self) -> int { self.inner.trading_date as int }
    open spec fn pattern_of(&self) -> Option<Seq<KeyVal>> { bar_pattern(self.inner) }
    open spec fn outcome_of(&self) -> Option<Seq<KeyVal>> { opt_text(self.outcome.day_type) }

    fn get_date(&self) -> (r: DayNumber) { self.inner.trading_date }
    fn get_asset_id(&self) -> (r: String) { self.inner.asset_id.clone() }
    fn get_pattern_key(&self) -> (r: Option<Vec<KeyPart>>) { bar_pattern_key(&self.inner) }
    fn get_outcome_key(&self) -> (r: Option<Vec<KeyPart>>) { opt_text_key(&self.outcome.day_type) }
}

/// A session record counted for the bar that followed it: (bar number, bar
/// bias), leaving out excluded biases.
#[derive(Debug)]
pub struct BarType2ndOrderSessionContext {
    pub inner: SessionContextData,
    pub bar_outcome: EightContextData,
}

impl MetricsContext for BarType2ndOrderSessionContext {
    open spec fn asset_of(&self) -> Seq<char> { self.inner.asset_id@ }
    open spec fn date_of(&self) -> int { self.inner.trading_date as int }
    open spec fn pattern_of(&self) -> Option<Seq<KeyVal>> { session_pattern(self.inner) }
    open spec fn outcome_of(&self) -> Option<Seq<KeyVal>> { numbered_kept_bias(self.bar_outcome.cb_num, self.bar_outcome.cb_bias) }

    fn get_date(&self) -> (r: DayNumber) { self.inner.trading_date }
    fn get_asset_id(&self) -> (r: String) { self.inner.asset_id.clone() }
    fn get_pattern_key(&self) -> (r: Option<Vec<KeyPart>>) { session_pattern_key(&self.inner) }
    fn get_outcome_key(&self) -> (r: Option<Vec<KeyPart>>) { numbered_kept_bias_key(&self.bar_outcome.cb_num, &self.bar_outcome.cb_bias) }
}

/// A bar record counted for whether the current bar continued the previous
/// bar's direction, after the bar pattern and the current bar number.
#[derive(Debug)]
pub struct BarContinuationContext {
    pub inner: EightContextData,
}

impl MetricsContext for BarContinuationContext {
    open spec fn asset_of(&self) -> Seq<char> { self.inner.asset_id@ }
    open spec fn date_of(&self) -> int { self.inner.trading_date as int }
    open spec fn pattern_of(&self) -> Option<Seq<KeyVal>> {
        match (self.inner.pb2_num, self.inner.pb2_bias, self.inner.pb1_num, self.inner.pb1_bias, self.inner.cb_num) {
            (Some(a), Some(b), Some(c), Some(d), Some(e)) => Some(seq![nv(a), tv(b), nv(c), tv(d), nv(e)]),
            _ => None,
        }
    }
    open spec fn outcome_of(&self) -> Option<Seq<KeyVal>> { continuation_flag(self.inner.pb1_bias, self.inner.cb_bias) }

    fn get_date(&self) -> (r: DayNumber) { self.inner.trading_date }
    fn get_asset_id(&self) -> (r: String) { self.inner.asset_id.clone() }
    fn get_pattern_key(&self) -> (r: Option<Vec<KeyPart>>) {
        match (&self.inner.pb2_num, &self.inner.pb2_bias, &self.inner.pb1_num, &self.inner.pb1_bias, &self.inner.cb_num) {
            (Some(a), Some(b), Some(c), Some(d), Some(e)) =>
                Some(key5(KeyPart::Num(*a), text(b), KeyPart::Num(*c), text(d), KeyPart::Num(*e))),
            _ => None,
        }
    }
    fn get_outcome_key(&self) -> (r: Option<Vec<KeyPart>>) { continuation_flag_key(&self.inner.pb1_bias, &self.inner.cb_bias) }
}

// ---------------------------------------------------------------------------
// Daily records

/// A day counted for the base rate of its day type, per asset.
#[derive(Debug)]
pub struct DailyBaseRateContext {
    pub inner: DailyContextData,
}

impl MetricsContext for DailyBaseRateContext {
    open spec fn asset_of(&self) -> Seq<char> { self.inner.asset_id@ }
    open spec fn date_of(&self) -> int { self.inner.trading_date as int }
    open spec fn pattern_of(&self) -> Option<Seq<KeyVal>> { Some(seq![tv(self.inner.asset_id)]) }
    open spec fn outcome_of(&self) -> Option<Seq<KeyVal>> { opt_text(self.inner.day_type) }

    fn get_date(&self) -> (r: DayNumber) { self.inner.trading_date }
    fn get_asset_id(&self) -> (r: String) { self.inner.asset_id.clone() }
    fn get_pattern_key(&self) -> (r: Option<Vec<KeyPart>>) { Some(key1(text(&self.inner.asset_id))) }
    fn get_outcome_key(&self) -> (r: Option<Vec<KeyPart>>) { opt_text_key(&self.inner.day_type) }
}

/// A day with the biases of the two days before it and the weekday of the
/// day before, counted for its own bias (leaving out excluded biases).
#[derive(Debug)]
pub struct Daily3rdOrderContext {
    pub trading_date: DayNumber,
    pub asset_id: String,
    pub pd2_bias: Option<String>,
    pub pd1_bias: Option<String>,
    pub pd1_dow: Option<String>,
    pub c_day_bias: Option<String>,
}

pub open spec fn opt_text3(a: Option<String>, b: Option<String>, c: Option<String>) -> Option<Seq<KeyVal>> {
    match (a, b, c) {
        (Some(x), Some(y), Some(z)) => Some(seq![tv(x), tv(y), tv(z)]),
        _ => None,
    }
}

pub fn opt_text3_key(a: &Option<String>, b: &Option<String>, c: &Option<String>) -> (r: Option<Vec<KeyPart>>)
    ensures
        opt_key_view(r) == opt_text3(*a, *b, *c),
{
    match (a, b, c) {
        (Some(x), Some(y), Some(z)) => Some(key3(text(x), text(y), text(z))),
        _ => None,
    }
}

impl MetricsContext for Daily3rdOrderContext {
    open spec fn asset_of(&self) -> Seq<char> { self.asset_id@ }
    open spec fn date_of(&self) -> int { self.trading_date as int }
    open spec fn pattern_of(&self) -> Option<Seq<KeyVal>> { opt_text3(self.pd2_bias, self.pd1_bias, self.pd1_dow) }
    open spec fn outcome_of(&self) -> Option<Seq<KeyVal>> { opt_kept_text(self.c_day_bias) }

    fn get_date(&self) -> (r: DayNumber) { self.trading_date }
    fn get_asset_id(&self) -> (r: String) { self.asset_id.clone() }
    fn get_pattern_key(&self) -> (r: Option<Vec<KeyPart>>) { opt_text3_key(&self.pd2_bias, &self.pd1_bias, &self.pd1_dow) }
    fn get_outcome_key(&self) -> (r: Option<Vec<KeyPart>>) { opt_kept_text_key(&self.c_day_bias) }
}

/// A day with its 3rd-order pattern, counted for (its bias, whether it
/// continued or reversed the previous day).
#[derive(Debug)]
pub struct DailyTrendContinuationContext {
    pub trading_date: DayNumber,
    pub asset_id: String,
    pub pd2_bias: Option<String>,
    pub pd1_bias: Option<String>,
    pub pd1_dow: Option<String>,
    pub c_day_bias: String,
    pub continuation_outcome: String,
}

impl MetricsContext for DailyTrendContinuationContext {
    open spec fn asset_of(&self) -> Seq<char> { self.asset_id@ }
    open spec fn date_of(&self) -> int { self.trading_date as int }
    open spec fn pattern_of(&self) -> Option<Seq<KeyVal>> { opt_text3(self.pd2_bias, self.pd1_bias, self.pd1_dow) }
    open spec fn outcome_of(&self) -> Option<Seq<KeyVal>> { Some(seq![tv(self.c_day_bias), tv(self.continuation_outcome)]) }

    fn get_date(&self) -> (r: DayNumber) { self.trading_date }
    fn get_asset_id(&self) -> (r: String) { self.asset_id.clone() }
    fn get_pattern_key(&self) -> (r: Option<Vec<KeyPart>>) { opt_text3_key(&self.pd2_bias, &self.pd1_bias, &self.pd1_dow) }
    fn get_outcome_key(&self) -> (r: Option<Vec<KeyPart>>) { Some(key2(text(&self.c_day_bias), text(&self.continuation_outcome))) }
}

/// Three consecutive days, counted for whether the third continued the
/// second's direction, after (PD2 type, PD1 type, PD1 weekday).
#[derive(Debug)]
pub struct DailyContinuationContext {
    pub pd2: DailyContextData,
    pub pd1: DailyContextData,
    pub cd: DailyContextData,
}

impl MetricsContext for DailyContinuationContext {
    open spec fn asset_of(&self) -> Seq<char> { self.cd.asset_id@ }
    open spec fn date_of(&self) -> int { self.cd.trading_date as int }
    open spec fn pattern_of(&self) -> Option<Seq<KeyVal>> {
        match (self.pd2.day_type, self.pd1.day_type) {
            (Some(a), Some(b)) => Some(seq![tv(a), tv(b), KeyVal::Text(short_weekday_name(weekday_index(self.pd1.trading_date as int)))]),
            _ => None,
        }
    }
    open spec fn outcome_of(&self) -> Option<Seq<KeyVal>> { continuation_flag(self.pd1.day_type, self.cd.day_type) }

    fn get_date(&self) -> (r: DayNumber) { self.cd.trading_date }
    fn get_asset_id(&self) -> (r: String) { self.cd.asset_id.clone() }
    fn get_pattern_key(&self) -> (r: Option<Vec<KeyPart>>) {
        let dow = short_weekday(self.pd1.trading_date);
        match (&self.pd2.day_type, &self.pd1.day_type) {
            (Some(a), Some(b)) => Some(key3(text(a), text(b), KeyPart::Text(dow))),
            _ => None,
        }
    }
    fn get_outcome_key(&self) -> (r: Option<Vec<KeyPart>>) { continuation_flag_key(&self.pd1.day_type, &self.cd.day_type) }
}

// ---------------------------------------------------------------------------
// Session and bar extremes

/// A session pattern counted for the session that made the day's high or low.
#[derive(Debug)]
pub struct HighLowContext {
    pub trading_date: DayNumber,
    pub asset_id: String,
    pub ps2_bias: String,
    pub ps1_bias: String,
    pub ps2_name: String,
    pub ps1_name: String,
    pub session_extreme: String,
    pub extreme_session_name: String,
}

impl MetricsContext for HighLowContext {
    open spec fn asset_of(&self) -> Seq<char> { self.asset_id@ }
    open spec fn date_of(&self) -> int { self.trading_date as int }
    open spec fn pattern_of(&self) -> Option<Seq<KeyVal>> {
        Some(seq![tv(self.ps2_name), tv(self.ps2_bias), tv(self.ps1_name), tv(self.ps1_bias), tv(self.session_extreme)])
    }
    open spec fn outcome_of(&self) -> Option<Seq<KeyVal>> { Some(seq![tv(self.extreme_session_name)]) }

    fn get_date(&self) -> (r: DayNumber) { self.trading_date }
    fn get_asset_id(&self) -> (r: String) { self.asset_id.clone() }
    fn get_pattern_key(&self) -> (r: Option<Vec<KeyPart>>) {
        Some(key5(text(&self.ps2_name), text(&self.ps2_bias), text(&self.ps1_name), text(&self.ps1_bias), text(&self.session_extreme)))
    }
    fn get_outcome_key(&self) -> (r: Option<Vec<KeyPart>>) { Some(key1(text(&self.extreme_session_name))) }
}

/// A session pattern counted for the session that made the day's high or low
/// ("High" or "Low" in `extreme_type`).
#[derive(Debug)]
pub struct SessionExtremeContext {
    pub trading_date: DayNumber,
    pub asset_id: String,
    pub ps2_name: String,
    pub ps2_bias: String,
    pub ps1_name: String,
    pub ps1_bias: String,
    pub extreme_type: String,
    pub extreme_session_name: String,
}

impl MetricsContext for SessionExtremeContext {
    open spec fn asset_of(&self) -> Seq<char> { self.asset_id@ }
    open spec fn date_of(&self) -> int { self.trading_date as int }
    open spec fn pattern_of(&self) -> Option<Seq<KeyVal>> {
        Some(seq![tv(self.ps2_name), tv(self.ps2_bias), tv(self.ps1_name), tv(self.ps1_bias), tv(self.extreme_type)])
    }
    open spec fn outcome_of(&self) -> Option<Seq<KeyVal>> { Some(seq![tv(self.extreme_session_name)]) }

    fn get_date(&self) -> (r: DayNumber) { self.trading_date }
    fn get_asset_id(&self) -> (r: String) { self.asset_id.clone() }
    fn get_pattern_key(&self) -> (r: Option<Vec<KeyPart>>) {
        Some(key5(text(&self.ps2_name), text(&self.ps2_bias), text(&self.ps1_name), text(&self.ps1_bias), text(&self.extreme_type)))
    }
    fn get_outcome_key(&self) -> (r: Option<Vec<KeyPart>>) { Some(key1(text(&self.extreme_session_name))) }
}

/// A day's high or low counted for the session that made it.
#[derive(Debug)]
pub struct SessionExtremeBaseContext {
    pub trading_date: DayNumber,
    pub asset_id: String,
    pub extreme_type: String,
    pub extreme_session_name: String,
}

impl MetricsContext for SessionExtremeBaseContext {
    open spec fn asset_of(&self) -> Seq<char> { self.asset_id@ }
    open spec fn date_of(&self) -> int { self.trading_date as int }
    open spec fn pattern_of(&self) -> Option<Seq<KeyVal>> { Some(seq![tv(self.extreme_type)]) }
    open spec fn outcome_of(&self) -> Option<Seq<KeyVal>> { Some(seq![tv(self.extreme_session_name)]) }

    fn get_date(&self) -> (r: DayNumber) { self.trading_date }
    fn get_asset_id(&self) -> (r: String) { self.asset_id.clone() }
    fn get_pattern_key(&self) -> (r: Option<Vec<KeyPart>>) { Some(key1(text(&self.extreme_type))) }
    fn get_outcome_key(&self) -> (r: Option<Vec<KeyPart>>) { Some(key1(text(&self.extreme_session_name))) }
}

/// A day's high or low counted for the bar (1, 2 or 3) that made it.
#[derive(Debug)]
pub struct BarExtremeBaseContext {
    pub trading_date: DayNumber,
    pub asset_id: String,
    pub extreme_type: String,
    pub extreme_cb_num: i32,
}

impl MetricsContext for BarExtremeBaseContext {
    open spec fn asset_of(&self) -> Seq<char> { self.asset_id@ }
    open spec fn date_of(&self) -> int { self.trading_date as int }
    open spec fn pattern_of(&self) -> Option<Seq<KeyVal>> { Some(seq![tv(self.extreme_type)]) }
    open spec fn outcome_of(&self) -> Option<Seq<KeyVal>> { Some(seq![nv(self.extreme_cb_num)]) }

    fn get_date(&self) -> (r: DayNumber) { self.trading_date }
    fn get_asset_id(&self) -> (r: String) { self.asset_id.clone() }
    fn get_pattern_key(&self) -> (r: Option<Vec<KeyPart>>) { Some(key1(text(&self.extreme_type))) }
    fn get_outcome_key(&self) -> (r: Option<Vec<KeyPart>>) { Some(key1(KeyPart::Num(self.extreme_cb_num))) }
}

/// A bar pattern counted for the bar that made the day's high or low.
#[derive(Debug)]
pub struct BarExtremeContext {
    pub trading_date: DayNumber,
    pub asset_id: String,
    pub pb2_num: i32,
    pub pb2_bias: String,
    pub pb1_num: i32,
    pub pb1_bias: String,
    pub extreme_type: String,
    pub extreme_cb_num: i32,
}

impl MetricsContext for BarExtremeContext {
    open spec fn asset_of(&self) -> Seq<char> { self.asset_id@ }
    open spec fn date_of(&self) -> int { self.trading_date as int }
    open spec fn pattern_of(&self) -> Option<Seq<KeyVal>> {
        Some(seq![nv(self.pb2_num), tv(self.pb2_bias), nv(self.pb1_num), tv(self.pb1_bias), tv(self.extreme_type)])
    }
    open spec fn outcome_of(&self) -> Option<Seq<KeyVal>> { Some(seq![nv(self.extreme_cb_num)]) }

    fn get_date(&self) -> (r: DayNumber) { self.trading_date }
    fn get_asset_id(&self) -> (r: String) { self.asset_id.clone() }
    fn get_pattern_key(&self) -> (r: Option<Vec<KeyPart>>) {
        Some(key5(KeyPart::Num(self.pb2_num), text(&self.pb2_bias), KeyPart::Num(self.pb1_num), text(&self.pb1_bias), text(&self.extreme_type)))
    }
    fn get_outcome_key(&self) -> (r: Option<Vec<KeyPart>>) { Some(key1(KeyPart::Num(self.extreme_cb_num))) }
}

// ---------------------------------------------------------------------------
// Day and week contexts

/// A day counted for the base rate of its bias, over all patterns (leaving
/// out excluded biases).
#[derive(Debug)]
pub struct BaseRateDayContext {
    pub inner: DayContext,
}

pub open spec fn kept_text(s: String) -> Option<Seq<KeyVal>> {
    if excluded_bias(s@) { None } else { Some(seq![tv(s)]) }
}

pub fn kept_text_key(s: &String) -> (r: Option<Vec<KeyPart>>)
    ensures
        opt_key_view(r) == kept_text(*s),
{
    if is_excluded_bias(s.as_str()) { None } else { Some(key1(text(s))) }
}

impl MetricsContext for BaseRateDayContext {
    open spec fn asset_of(&self) -> Seq<char> { self.inner.asset_id@ }
    open spec fn date_of(&self) -> int { self.inner.trading_date as int }
    open spec fn pattern_of(&self) -> Option<Seq<KeyVal>> { Some(seq![KeyVal::Flag(true)]) }
    open spec fn outcome_of(&self) -> Option<Seq<KeyVal>> { kept_text(self.inner.c_day_bias) }

    fn get_date(&self) -> (r: DayNumber) { self.inner.trading_date }
    fn get_asset_id(&self) -> (r: String) { self.inner.asset_id.clone() }
    fn get_pattern_key(&self) -> (r: Option<Vec<KeyPart>>) { Some(key1(KeyPart::Flag(true))) }
    fn get_outcome_key(&self) -> (r: Option<Vec<KeyPart>>) { kept_text_key(&self.inner.c_day_bias) }
}

/// A week counted for the base rate of its bias, over all patterns.
#[derive(Debug)]
pub struct BaseRateWeeklyContext {
    pub inner: WeeklyContext,
}

impl MetricsContext for BaseRateWeeklyContext {
    open spec fn asset_of(&self) -> Seq<char> { self.inner.asset_id@ }
    open spec fn date_of(&self) -> int { self.inner.week_start as int }
    open spec fn pattern_of(&self) -> Option<Seq<KeyVal>> { Some(seq![KeyVal::Flag(true)]) }
    open spec fn outcome_of(&self) -> Option<Seq<KeyVal>> { Some(seq![tv(self.inner.week_bias)]) }

    fn get_date(&self) -> (r: DayNumber) { self.inner.week_start }
    fn get_asset_id(&self) -> (r: String) { self.inner.asset_id.clone() }
    fn get_pattern_key(&self) -> (r: Option<Vec<KeyPart>>) { Some(key1(KeyPart::Flag(true))) }
    fn get_outcome_key(&self) -> (r: Option<Vec<KeyPart>>) { Some(key1(text(&self.inner.week_bias))) }
}

impl MetricsContext for DayContext {
    open spec fn asset_of(&self) -> Seq<char> { self.asset_id@ }
    open spec fn date_of(&self) -> int { self.trading_date as int }
    open spec fn pattern_of(&self) -> Option<Seq<KeyVal>> { opt_text3(self.pd2_bias, self.pd1_bias, self.pd1_dow) }
    open spec fn outcome_of(&self) -> Option<Seq<KeyVal>> { kept_text(self.c_day_bias) }

    fn get_date(&self) -> (r: DayNumber) { self.trading_date }
    fn get_asset_id(&self) -> (r: String) { self.asset_id.clone() }
    fn get_pattern_key(&self) -> (r: Option<Vec<KeyPart>>) { opt_text3_key(&self.pd2_bias, &self.pd1_bias, &self.pd1_dow) }
    fn get_outcome_key(&self) -> (r: Option<Vec<KeyPart>>) { kept_text_key(&self.c_day_bias) }
}

pub open spec fn opt_text2(a: Option<String>, b: Option<String>) -> Option<Seq<KeyVal>> {
    match (a, b) {
        (Some(x), Some(y)) => Some(seq![tv(x), tv(y)]),
        _ => None,
    }
}

impl MetricsContext for WeeklyContext {
    open spec fn asset_of(&self) -> Seq<char> { self.asset_id@ }
    open spec fn date_of(&self) -> int { self.week_start as int }
    open spec fn pattern_of(&self) -> Option<Seq<KeyVal>> { opt_text2(self.pw2_bias, self.pw1_bias) }
    open spec fn outcome_of(&self) -> Option<Seq<KeyVal>> { Some(seq![tv(self.week_bias)]) }

    fn get_date(&self) -> (r: DayNumber) { self.week_start }
    fn get_asset_id(&self) -> (r: String) { self.asset_id.clone() }
    fn get_pattern_key(&self) -> (r: Option<Vec<KeyPart>>) {
        match (&self.pw2_bias, &self.pw1_bias) {
            (Some(a), Some(b)) => Some(key2(text(a), text(b))),
            _ => None,
        }
    }
    fn get_outcome_key(&self) -> (r: Option<Vec<KeyPart>>) { Some(key1(text(&self.week_bias))) }
}

/// A week counted for its bias after its week of the month.
#[derive(Debug)]
pub struct WmsContext {
    pub inner: WeeklyContext,
}

impl MetricsContext for WmsContext {
    open spec fn asset_of(&self) -> Seq<char> { self.inner.asset_id@ }
    open spec fn date_of(&self) -> int { self.inner.week_start as int }
    open spec fn pattern_of(&self) -> Option<Seq<KeyVal>> { Some(seq![nv(self.inner.week_of_month)]) }
    open spec fn outcome_of(&self) -> Option<Seq<KeyVal>> { Some(seq![tv(self.inner.week_bias)]) }

    fn get_date(&self) -> (r: DayNumber) { self.inner.week_start }
    fn get_asset_id(&self) -> (r: String) { self.inner.asset_id.clone() }
    fn get_pattern_key(&self) -> (r: Option<Vec<KeyPart>>) { Some(key1(KeyPart::Num(self.inner.week_of_month))) }
    fn get_outcome_key(&self) -> (r: Option<Vec<KeyPart>>) { Some(key1(text(&self.inner.week_bias))) }
}

/// A day counted for its direction after its 3rd-order pattern.
#[derive(Debug)]
pub struct TrendRateContext {
    pub inner: DayContext,
}

impl MetricsContext for TrendRateContext {
    open spec fn asset_of(&self) -> Seq<char> { self.inner.asset_id@ }
    open spec fn date_of(&self) -> int { self.inner.trading_date as int }
    open spec fn pattern_of(&self) -> Option<Seq<KeyVal>> { opt_text3(self.inner.pd2_bias, self.inner.pd1_bias, self.inner.pd1_dow) }
    open spec fn outcome_of(&self) -> Option<Seq<KeyVal>> { Some(seq![tv(self.inner.day0_direction)]) }

    fn get_date(&self) -> (r: DayNumber) { self.inner.trading_date }
    fn get_asset_id(&self) -> (r: String) { self.inner.asset_id.clone() }
    fn get_pattern_key(&self) -> (r: Option<Vec<KeyPart>>) { opt_text3_key(&self.inner.pd2_bias, &self.inner.pd1_bias, &self.inner.pd1_dow) }
    fn get_outcome_key(&self) -> (r: Option<Vec<KeyPart>>) { Some(key1(text(&self.inner.day0_direction))) }
}

/// A daily pattern (PD2, PD1) counted for the weekly outcome observed after it.
#[derive(Debug)]
pub struct WocsContext {
    pub trading_date: DayNumber,
    pub asset_id: String,
    pub pd2_outcome: String,
    pub pd1_outcome: String,
    pub week0_outcome: String,
}

impl MetricsContext for WocsContext {
    open spec fn asset_of(&self) -> Seq<char> { self.asset_id@ }
    open spec fn date_of(&self) -> int { self.trading_date as int }
    open spec fn pattern_of(&self) -> Option<Seq<KeyVal>> { Some(seq![tv(self.pd2_outcome), tv(self.pd1_outcome)]) }
    open spec fn outcome_of(&self) -> Option<Seq<KeyVal>> { Some(seq![tv(self.week0_outcome)]) }

    fn get_date(&self) -> (r: DayNumber) { self.trading_date }
    fn get_asset_id(&self) -> (r: String) { self.asset_id.clone() }
    fn get_pattern_key(&self) -> (r: Option<Vec<KeyPart>>) { Some(key2(text(&self.pd2_outcome), text(&self.pd1_outcome))) }
    fn get_outcome_key(&self) -> (r: Option<Vec<KeyPart>>) { Some(key1(text(&self.week0_outcome))) }
}

/// A session record counted for the actual bias of its day (leaving out
/// excluded biases), after the session pattern.
#[derive(Debug)]
pub struct PcsContext {
    pub inner: SessionContextData,
    pub actual_daily_bias: String,
}

impl MetricsContext for PcsContext {
    open spec fn asset_of(&self) -> Seq<char> { self.inner.asset_id@ }
    open spec fn date_of(&self) -> int { self.inner.trading_date as int }
    open spec fn pattern_of(&self) -> Option<Seq<KeyVal>> { session_pattern(self.inner) }
    open spec fn outcome_of(&self) -> Option<Seq<KeyVal>> { kept_text(self.actual_daily_bias) }

    fn get_date(&self) -> (r: DayNumber) { self.inner.trading_date }
    fn get_asset_id(&self) -> (r: String) { self.inner.asset_id.clone() }
    fn get_pattern_key(&self) -> (r: Option<Vec<KeyPart>>) { session_pattern_key(&self.inner) }
    fn get_outcome_key(&self) -> (r: Option<Vec<KeyPart>>) { kept_text_key(&self.actual_daily_bias) }
}

/// The decimal digits of a natural number.
pub open spec fn nat_text(n: nat) -> Seq<char>
    decreases n,
{
    if n < 10 {
        seq![(48 + n) as char]
    } else {
        nat_text(n / 10) + seq![(48 + n % 10) as char]
    }
}

/// The decimal text of an integer, with a leading '-' when negative.
pub open spec fn int_text(n: int) -> Seq<char> {
    if n < 0 {
        seq!['-'] + nat_text((-n) as nat)
    } else {
        nat_text(n as nat)
    }
}

/// The text of one decimal digit.
fn digit_text(d: u32) -> (r: &'static str)
    requires
        d < 10,
    ensures
        r@ == seq![(48 + d) as char],
{
    proof {
        reveal_strlit("0");
        reveal_strlit("1");
        reveal_strlit("2");
        reveal_strlit("3");
        reveal_strlit("4");
        reveal_strlit("5");
        reveal_strlit("6");
        reveal_strlit("7");
        reveal_strlit("8");
        reveal_strlit("9");
    }
    if d == 0 {
        "0"
    } else if d == 1 {
        "1"
    } else if d == 2 {
        "2"
    } else if d == 3 {
        "3"
    } else if d == 4 {
        "4"
    } else if d == 5 {
        "5"
    } else if d == 6 {
        "6"
    } else if d == 7 {
        "7"
    } else if d == 8 {
        "8"
    } else {
        "9"
    }
}

/// The decimal digits of a natural number.
fn nat_to_text(n: u32) -> (r: String)
    ensures
        r@ == nat_text(n as nat),
    decreases n,
{
    if n < 10 {
        let mut s = String::new();
        s.append(digit_text(n));
        assert(s@ =~= nat_text(n as nat));
        s
    } else {
        let mut s = nat_to_text(n / 10);
        s.append(digit_text(n % 10));
        assert(s@ =~= nat_text(n as nat));
        s
    }
}

/// "number:bias" for a bar, e.g. "3:Bullish" or "-2:Bearish".
fn format_bar_outcome(num: i32, bias: &String) -> (r: String)
    ensures
        r@ == int_text(num as int) + seq![':'] + bias@,
{
    proof {
        reveal_strlit("-");
        reveal_strlit(":");
    }
    let mut s = String::new();
    let magnitude: u32 = if num < 0 {
        s.append("-");
        (0i64 - num as i64) as u32
    } else {
        num as u32
    };
    let digits = nat_to_text(magnitude);
    s.append(digits.as_str());
    s.append(":");
    s.append(bias.as_str());
    assert(s@ =~= int_text(num as int) + seq![':'] + bias@);
    s
}

/// A session pattern counted for the bar that followed it, written
/// "number:bias".
#[derive(Debug)]
pub struct SessionToBar2ndOrderContext {
    pub inner: SessionContextData,
    pub target_bar: EightContextData,
}

impl MetricsContext for SessionToBar2ndOrderContext {
    open spec fn asset_of(&self) -> Seq<char> { self.inner.asset_id@ }
    open spec fn date_of(&self) -> int { self.inner.trading_date as int }
    open spec fn pattern_of(&self) -> Option<Seq<KeyVal>> { session_pattern(self.inner) }
    open spec fn outcome_of(&self) -> Option<Seq<KeyVal>> {
        match (self.target_bar.cb_num, self.target_bar.cb_bias) {
            (Some(n), Some(b)) => Some(seq![KeyVal::Text(int_text(n as int) + seq![':'] + b@)]),
            _ => None,
        }
    }

    fn get_date(&self) -> (r: DayNumber) { self.inner.trading_date }
    fn get_asset_id(&self) -> (r: String) { self.inner.asset_id.clone() }
    fn get_pattern_key(&self) -> (r: Option<Vec<KeyPart>>) { session_pattern_key(&self.inner) }
    fn get_outcome_key(&self) -> (r: Option<Vec<KeyPart>>) {
        match (self.target_bar.cb_num, &self.target_bar.cb_bias) {
            (Some(n), Some(b)) => Some(key1(KeyPart::Text(format_bar_outcome(n, b)))),
            _ => None,
        }
    }
}

} // verus!
