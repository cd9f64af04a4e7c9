use vstd::prelude::*;
use crate::models::DayNumber;

verus! {

/// Whether `s` belongs to the bullish family of biases.
pub open spec fn bullish_family(s: Seq<char>) -> bool {
    s == "Bullish"@ || s == "Bullish_Reversal"@ || s == "Failed_Bullish"@
}

/// Whether `s` belongs to the bearish family of biases.
pub open spec fn bearish_family(s: Seq<char>) -> bool {
    s == "Bearish"@ || s == "Bearish_Reversal"@ || s == "Failed_Bearish"@
}

/// A move continues when the current bias stays in the directional family of
/// the previous one; a bias outside both families never continues.
pub open spec fn continues(prev: Seq<char>, current: Seq<char>) -> bool {
    if bullish_family(prev) {
        bullish_family(current)
    } else if bearish_family(prev) {
        bearish_family(current)
    } else {
        false
    }
}

/// Whether `s` holds exactly the text `lit`.
pub fn str_is(s: &str, lit: &str) -> (r: bool)
    ensures
        r == (s@ == lit@),
{
    let a = s.to_owned();
    let b = lit.to_owned();
    a == b
}

fn is_bullish(s: &str) -> (r: bool)
    ensures
        r == bullish_family(s@),
{
    str_is(s, "Bullish") || str_is(s, "Bullish_Reversal") || str_is(s, "Failed_Bullish")
}

fn is_bearish(s: &str) -> (r: bool)
    ensures
        r == bearish_family(s@),
{
    str_is(s, "Bearish") || str_is(s, "Bearish_Reversal") || str_is(s, "Failed_Bearish")
}

/// Whether the current bias continues the previous one.
pub fn is_continuation(prev_bias: &str, current_bias: &str) -> (r: bool)
    ensures
        r == continues(prev_bias@, current_bias@),
{
    if is_bullish(prev_bias) {
        is_bullish(current_bias)
    } else if is_bearish(prev_bias) {
        is_bearish(current_bias)
    } else {
        false
    }
}

/// Whether the current day's bias continues the previous day's bias.
pub fn iss_continuation(pd1_bias: &str, c_day_bias: &str) -> (r: bool)
    ensures
        r == continues(pd1_bias@, c_day_bias@),
{
    if is_bullish(pd1_bias) {
        is_bullish(c_day_bias)
    } else if is_bearish(pd1_bias) {
        is_bearish(c_day_bias)
    } else {
        false
    }
}

/// A bias excluded from outcome keys: "Other" or "Consolidation-Other".
pub open spec fn excluded_bias(s: Seq<char>) -> bool {
    s == "Other"@ || s == "Consolidation-Other"@
}

pub fn is_excluded_bias(s: &str) -> (r: bool)
    ensures
        r == excluded_bias(s@),
{
    str_is(s, "Other") || str_is(s, "Consolidation-Other")
}

/// The seven-state outcome of a day or week: "Bullish" and "Bearish" stay as
/// they are, a consolidation takes its subtype ("Consolidation-Other" where it
/// has none), and anything else is "Other".
pub open spec fn outcome_7(kind: Seq<char>, subtype: Option<Seq<char>>) -> Seq<char> {
    if kind == "Bullish"@ || kind == "Bearish"@ {
        kind
    } else if kind == "Consolidation"@ {
        match subtype {
            Some(s) => s,
            None => "Consolidation-Other"@,
        }
    } else {
        "Other"@
    }
}

pub open spec fn opt_view(s: Option<String>) -> Option<Seq<char>> {
    match s {
        Some(x) => Some(x@),
        None => None,
    }
}

/// The seven-state outcome of a classified day or week.
pub fn daily_outcome_7(kind: &String, subtype: &Option<String>) -> (r: String)
    ensures
        r@ == outcome_7(kind@, opt_view(*subtype)),
{
    if str_is(kind.as_str(), "Bullish") || str_is(kind.as_str(), "Bearish") {
        kind.clone()
    } else if str_is(kind.as_str(), "Consolidation") {
        match subtype {
            Some(s) => s.clone(),
            None => "Consolidation-Other".to_owned(),
        }
    } else {
        "Other".to_owned()
    }
}

/// The day of the week of a day number, 0 for Monday through 6 for Sunday
/// (day 1, January 1 of year 1, was a Monday).
pub open spec fn weekday_index(day: int) -> int {
    (day + 6) % 7
}

/// The day of the week of a day number, 0 for Monday through 6 for Sunday.
pub fn weekday_of(day: DayNumber) -> (r: u32)
    ensures
        r == weekday_index(day as int),
        r < 7,
{
    let shifted: i64 = day as i64 + 2147483653i64 + 6;
    assert(shifted >= 0);
    let r = ((shifted as u64) % 7) as u32;
    assert(shifted as int == (day as int + 6) + 7 * 306783379);
    assert(((day as int + 6) + 7 * 306783379) % 7 == (day as int + 6) % 7) by (nonlinear_arith);
    r
}

/// The three-letter English name of a weekday index ("Mon" to "Sun").
pub open spec fn short_weekday_name(w: int) -> Seq<char> {
    if w == 0 {
        "Mon"@
    } else if w == 1 {
        "Tue"@
    } else if w == 2 {
        "Wed"@
    } else if w == 3 {
        "Thu"@
    } else if w == 4 {
        "Fri"@
    } else if w == 5 {
        "Sat"@
    } else {
        "Sun"@
    }
}

/// The three-letter name of a day's weekday.
pub fn short_weekday(day: DayNumber) -> (r: String)
    ensures
        r@ == short_weekday_name(weekday_index(day as int)),
{
    let w = weekday_of(day);
    if w == 0 {
        "Mon".to_owned()
    } else if w == 1 {
        "Tue".to_owned()
    } else if w == 2 {
        "Wed".to_owned()
    } else if w == 3 {
        "Thu".to_owned()
    } else if w == 4 {
        "Fri".to_owned()
    } else if w == 5 {
        "Sat".to_owned()
    } else {
        "Sun".to_owned()
    }
}

/// The full name of a trading weekday, "Weekend" for Saturday and Sunday.
pub open spec fn dow_name(w: int) -> Seq<char> {
    if w == 0 {
        "Monday"@
    } else if w == 1 {
        "Tuesday"@
    } else if w == 2 {
        "Wednesday"@
    } else if w == 3 {
        "Thursday"@
    } else if w == 4 {
        "Friday"@
    } else {
        "Weekend"@
    }
}

/// The full name of a day's weekday ("Weekend" on Saturday and Sunday).
pub fn date_to_dow(date: DayNumber) -> (r: String)
    ensures
        r@ == dow_name(weekday_index(date as int)),
{
    let w = weekday_of(date);
    if w == 0 {
        "Monday".to_owned()
    } else if w == 1 {
        "Tuesday".to_owned()
    } else if w == 2 {
        "Wednesday".to_owned()
    } else if w == 3 {
        "Thursday".to_owned()
    } else if w == 4 {
        "Friday".to_owned()
    } else {
        "Weekend".to_owned()
    }
}

/// The trade direction of an outcome, as first defined for the anchor
/// features: the bullish family and "Consolidation-Up" are long, the bearish
/// family and "Consolidation-Down" are short.
pub open spec fn bias_group_spec(s: Seq<char>) -> Option<Seq<char>> {
    if bullish_family(s) || s == "Consolidation-Up"@ {
        Some("Long"@)
    } else if bearish_family(s) || s == "Consolidation-Down"@ {
        Some("Short"@)
    } else {
        None
    }
}

pub fn get_bias_group(day_type: &str) -> (r: Option<String>)
    ensures
        opt_view(r) == bias_group_spec(day_type@),
{
    if is_bullish(day_type) || str_is(day_type, "Consolidation-Up") {
        Some("Long".to_owned())
    } else if is_bearish(day_type) || str_is(day_type, "Consolidation-Down") {
        Some("Short".to_owned())
    } else {
        None
    }
}

/// The trade direction of an outcome for the daily anchor features, where a
/// failed move counts for the opposite side: "Failed_Bearish" is long and
/// "Failed_Bullish" is short.
pub open spec fn anchor_bias_group_spec(s: Seq<char>) -> Option<Seq<char>> {
    if s == "Bullish"@ || s == "Bullish_Reversal"@ || s == "Consolidation-Up"@ || s == "Failed_Bearish"@ {
        Some("Long"@)
    } else if s == "Bearish"@ || s == "Bearish_Reversal"@ || s == "Consolidation-Down"@ || s
        == "Failed_Bullish"@ {
        Some("Short"@)
    } else {
        None
    }
}

pub fn get_anchor_bias_group(outcome: &str) -> (r: Option<String>)
    ensures
        opt_view(r) == anchor_bias_group_spec(outcome@),
{
    if str_is(outcome, "Bullish") || str_is(outcome, "Bullish_Reversal") || str_is(outcome, "Consolidation-Up")
        || str_is(outcome, "Failed_Bearish") {
        Some("Long".to_owned())
    } else if str_is(outcome, "Bearish") || str_is(outcome, "Bearish_Reversal") || str_is(outcome, "Consolidation-Down")
        || str_is(outcome, "Failed_Bullish") {
        Some("Short".to_owned())
    } else {
        None
    }
}

} // verus!
