use vstd::prelude::*;

verus! {

/// A calendar day, as its number in the proleptic Gregorian calendar with
/// January 1 of year 1 as day 1.
pub type DayNumber = i32;

/// Whether a day number lies well inside the range of calendar dates that
/// chrono represents (about 95.7 million days either side of day 1).
pub open spec fn valid_day(day: int) -> bool {
    -95_000_000 <= day <= 95_000_000
}

/// One classified trading session, with the two sessions that preceded it.
#[derive(Debug)]
pub struct SessionContextData {
    pub asset_id: String,
    pub trading_date: DayNumber,
    /// End of the session, in seconds since the Unix epoch.
    pub session_end_ts: i64,
    pub ps2_name: Option<String>,
    pub ps2_bias: Option<String>,
    pub ps1_name: Option<String>,
    pub ps1_bias: Option<String>,
    pub cs_name: Option<String>,
    pub cs_bias: Option<String>,
}

/// One classified eight-hour bar, with the two bars that preceded it.
#[derive(Debug)]
pub struct EightContextData {
    pub asset_id: String,
    pub trading_date: DayNumber,
    /// End of the bar, in seconds since the Unix epoch.
    pub session_end_ts: i64,
    pub pb2_num: Option<i32>,
    pub pb2_bias: Option<String>,
    pub pb1_num: Option<i32>,
    pub pb1_bias: Option<String>,
    pub cb_num: Option<i32>,
    pub cb_bias: Option<String>,
}

/// One classified trading day: its type and where its extremes formed.
#[derive(Debug)]
pub struct DailyContextData {
    pub trading_date: DayNumber,
    pub asset_id: String,
    pub day_type: Option<String>,
    pub high_session: String,
    pub low_session: String,
    pub high_bar: i32,
    pub low_bar: i32,
}

/// A lookback window: observations on or after `start_date` fall in it.
/// `weight_pct` is its weight in percent.
#[derive(Debug)]
pub struct LookbackInterval {
    pub name: String,
    pub weight_pct: u32,
    pub start_date: DayNumber,
}

pub fn clone_opt_string(s: &Option<String>) -> (r: Option<String>)
    ensures
        r == *s,
{
    match s {
        Some(x) => Some(x.clone()),
        None => None,
    }
}

impl SessionContextData {
    pub fn copy(&self) -> (r: SessionContextData)
        ensures
            r == *self,
    {
        SessionContextData {
            asset_id: self.asset_id.clone(),
            trading_date: self.trading_date,
            session_end_ts: self.session_end_ts,
            ps2_name: clone_opt_string(&self.ps2_name),
            ps2_bias: clone_opt_string(&self.ps2_bias),
            ps1_name: clone_opt_string(&self.ps1_name),
            ps1_bias: clone_opt_string(&self.ps1_bias),
            cs_name: clone_opt_string(&self.cs_name),
            cs_bias: clone_opt_string(&self.cs_bias),
        }
    }
}

impl EightContextData {
    pub fn copy(&self) -> (r: EightContextData)
        ensures
            r == *self,
    {
        EightContextData {
            asset_id: self.asset_id.clone(),
            trading_date: self.trading_date,
            session_end_ts: self.session_end_ts,
            pb2_num: self.pb2_num,
            pb2_bias: clone_opt_string(&self.pb2_bias),
            pb1_num: self.pb1_num,
            pb1_bias: clone_opt_string(&self.pb1_bias),
            cb_num: self.cb_num,
            cb_bias: clone_opt_string(&self.cb_bias),
        }
    }
}

impl DailyContextData {
    pub fn copy(&self) -> (r: DailyContextData)
        ensures
            r == *self,
    {
        DailyContextData {
            trading_date: self.trading_date,
            asset_id: self.asset_id.clone(),
            day_type: clone_opt_string(&self.day_type),
            high_session: self.high_session.clone(),
            low_session: self.low_session.clone(),
            high_bar: self.high_bar,
            low_bar: self.low_bar,
        }
    }
}

/// A trading day with the biases of the two days before it.
#[derive(Debug)]
pub struct DayContext {
    pub asset_id: String,
    pub trading_date: DayNumber,
    pub pd2_bias: Option<String>,
    pub pd1_bias: Option<String>,
    pub pd1_dow: Option<String>,
    pub c_day_bias: String,
    pub day0_direction: String,
}

/// A trading week with the biases of the two weeks before it.
#[derive(Debug)]
pub struct WeeklyContext {
    pub asset_id: String,
    pub week_start: DayNumber,
    pub pw2_bias: Option<String>,
    pub pw1_bias: Option<String>,
    pub week_bias: String,
    pub week_of_month: i32,
}

} // verus!
