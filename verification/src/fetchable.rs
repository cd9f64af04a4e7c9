use vstd::prelude::*;
use crate::models::{DailyContextData, EightContextData, SessionContextData};

verus! {

/// A record kind that can be loaded for the ML metrics: each kind names the
/// SQL text that selects its rows for one asset (bound as `$1`), keeping only
/// rows with a usable classification, oldest first.
pub trait FetchableML {
    /// The SQL text of the query, as a sequence of characters.
    spec fn query_text() -> Seq<char>;

    fn query() -> (sql: &'static str)
        ensures
            sql@ == Self::query_text(),
    ;
}

impl FetchableML for SessionContextData {
    open spec fn query_text() -> Seq<char> {
        "
        SELECT *
        FROM session_context
        WHERE asset_id = $1 AND cs_bias IS NOT NULL AND cs_bias != 'Other'
        ORDER BY trading_date ASC, session_end_ts ASC
        "@
    }

    fn query() -> (sql: &'static str) {
        "
        SELECT *
        FROM session_context
        WHERE asset_id = $1 AND cs_bias IS NOT NULL AND cs_bias != 'Other'
        ORDER BY trading_date ASC, session_end_ts ASC
        "
    }
}

impl FetchableML for EightContextData {
    open spec fn query_text() -> Seq<char> {
        "
        SELECT *
        FROM block_context
        WHERE asset_id = $1 AND cb_bias IS NOT NULL AND cb_bias != 'Other'
        ORDER BY trading_date ASC, session_end_ts ASC
        "@
    }

    fn query() -> (sql: &'static str) {
        "
        SELECT *
        FROM block_context
        WHERE asset_id = $1 AND cb_bias IS NOT NULL AND cb_bias != 'Other'
        ORDER BY trading_date ASC, session_end_ts ASC
        "
    }
}

impl FetchableML for DailyContextData {
    open spec fn query_text() -> Seq<char> {
        "
        SELECT trading_date, asset_id, day_type, high_session, low_session, high_bar, low_bar
        FROM daily_views
        WHERE asset_id = $1 AND day_type IS NOT NULL AND day_type != 'Other'
        ORDER BY trading_date ASC
        "@
    }

    fn query() -> (sql: &'static str) {
        "
        SELECT trading_date, asset_id, day_type, high_session, low_session, high_bar, low_bar
        FROM daily_views
        WHERE asset_id = $1 AND day_type IS NOT NULL AND day_type != 'Other'
        ORDER BY trading_date ASC
        "
    }
}

} // verus!
