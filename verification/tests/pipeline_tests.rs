use prediction_engine::keys::KeyPart;
use prediction_engine::models::{DailyContextData, EightContextData, SessionContextData};
use prediction_engine::rates::{lift_rows, BaseLookup, IntervalStat, RateRow};
use prediction_engine::service::{lookback_intervals_from, MetricsService};

fn session(date: i32) -> SessionContextData {
    SessionContextData {
        asset_id: "BTC".to_string(),
        trading_date: date,
        session_end_ts: 1_700_000_000,
        ps2_name: Some("AS".to_string()),
        ps2_bias: Some("Bullish".to_string()),
        ps1_name: Some("LN".to_string()),
        ps1_bias: Some("Bearish".to_string()),
        cs_name: Some("NYAM".to_string()),
        cs_bias: Some("Bullish".to_string()),
    }
}

fn bar(date: i32) -> EightContextData {
    EightContextData {
        asset_id: "BTC".to_string(),
        trading_date: date,
        session_end_ts: 1_700_000_000,
        pb2_num: Some(1),
        pb2_bias: Some("Bullish".to_string()),
        pb1_num: Some(2),
        pb1_bias: Some("Bearish".to_string()),
        cb_num: Some(3),
        cb_bias: Some("Bullish".to_string()),
    }
}

fn daily(date: i32) -> DailyContextData {
    DailyContextData {
        trading_date: date,
        asset_id: "BTC".to_string(),
        day_type: Some("Bullish".to_string()),
        high_session: "LN".to_string(),
        low_session: "AS".to_string(),
        high_bar: 1,
        low_bar: 3,
    }
}

#[test]
fn asset_metrics_need_every_kind_of_context() {
    let service = MetricsService::new(());
    let iv = lookback_intervals_from(738_900);
    assert!(service.compute_asset_metrics(&vec![], &vec![bar(738_890)], &vec![daily(738_890)], &iv).is_none());
    assert!(service.compute_asset_metrics(&vec![session(738_890)], &vec![], &vec![daily(738_890)], &iv).is_none());
    assert!(service.compute_asset_metrics(&vec![session(738_890)], &vec![bar(738_890)], &vec![], &iv).is_none());
}

#[test]
fn asset_metrics_fill_the_base_rates() {
    let service = MetricsService::new(());
    let iv = lookback_intervals_from(738_900);
    let m = service
        .compute_asset_metrics(&vec![session(738_890)], &vec![bar(738_890)], &vec![daily(738_890)], &iv)
        .unwrap();
    assert_eq!(m.session_base_rates.len(), 1);
    assert_eq!(m.bar_base_rates.len(), 1);
    assert_eq!(m.daily_base_rates.len(), 1);
    assert_eq!(m.daily_base_rates[0].all_history.count, 1);
    assert_eq!(m.daily_base_rates[0].all_history.total, 1);
}

fn stat(count: u128, total: u128) -> IntervalStat {
    IntervalStat { count, total }
}

fn row(pattern: &str, outcome: &str, all: IntervalStat) -> RateRow {
    RateRow {
        asset_id: "BTC".to_string(),
        pattern: vec![KeyPart::Text(pattern.to_string())],
        outcome: vec![KeyPart::Text(outcome.to_string())],
        six_month: stat(0, 0),
        one_year: stat(0, 0),
        all_history: all,
    }
}

#[test]
fn lifts_pair_each_outcome_with_its_base() {
    let conds = vec![row("p", "Bullish", stat(3, 4)), row("p", "Bearish", stat(1, 4))];
    let bases = vec![row("", "Bullish", stat(5, 10))];
    let lifts = lift_rows(BaseLookup::SameOutcome, conds, &bases);
    assert_eq!(lifts.len(), 1);
    assert_eq!(lifts[0].row.all_history.count, 3);
    assert_eq!(lifts[0].base_all_history.count, 5);
    assert_eq!(lifts[0].base_all_history.total, 10);
}
