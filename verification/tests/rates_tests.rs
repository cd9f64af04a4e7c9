use prediction_engine::aggregate::Observation;
use prediction_engine::keys::KeyPart;
use prediction_engine::models::{DailyContextData, LookbackInterval};
use prediction_engine::rates::{rate_table, RateRow};
use prediction_engine::service::{lookback_intervals_from, MetricsService, ALL_HISTORY_START};
use prediction_engine::windows::prepare_daily_3rd_order_contexts;

fn obs(date: i32, outcome: &str) -> Observation {
    Observation {
        asset_id: "A".to_string(),
        date,
        pattern: Some(vec![KeyPart::Text("p".to_string())]),
        outcome: Some(vec![KeyPart::Text(outcome.to_string())]),
    }
}

fn outcome_of(r: &RateRow) -> String {
    match &r.outcome[0] {
        KeyPart::Text(s) => s.clone(),
        _ => String::new(),
    }
}

#[test]
fn lookback_windows_end_today() {
    let iv = lookback_intervals_from(800_000);
    assert_eq!(iv.len(), 3);
    assert_eq!(iv[0].name, "6M");
    assert_eq!(iv[0].start_date, 800_000 - 180);
    assert_eq!(iv[0].weight_pct, 60);
    assert_eq!(iv[1].name, "1Y");
    assert_eq!(iv[1].start_date, 800_000 - 365);
    assert_eq!(iv[1].weight_pct, 30);
    assert_eq!(iv[2].name, "ALL");
    assert_eq!(iv[2].start_date, ALL_HISTORY_START);
    assert_eq!(iv[2].weight_pct, 10);
}

#[test]
fn rate_table_counts_each_window() {
    let intervals: Vec<LookbackInterval> = lookback_intervals_from(800_000);
    let data = vec![obs(799_900, "x"), obs(799_700, "y"), obs(700_000, "x")];
    let rows = rate_table(&data, &intervals);
    assert_eq!(rows.len(), 2);
    let x = rows.iter().find(|r| outcome_of(r) == "x").unwrap();
    let y = rows.iter().find(|r| outcome_of(r) == "y").unwrap();
    assert_eq!((x.six_month.count, x.six_month.total), (1, 1));
    assert_eq!((x.one_year.count, x.one_year.total), (1, 2));
    assert_eq!((x.all_history.count, x.all_history.total), (2, 3));
    assert_eq!((y.six_month.count, y.six_month.total), (0, 1));
    assert_eq!((y.one_year.count, y.one_year.total), (1, 2));
    assert_eq!((y.all_history.count, y.all_history.total), (1, 3));
}

#[test]
fn rate_table_ignores_observations_before_every_window() {
    let intervals = lookback_intervals_from(800_000);
    let data = vec![obs(ALL_HISTORY_START - 1, "x")];
    assert!(rate_table(&data, &intervals).is_empty());
}

fn day(date: i32, kind: &str) -> DailyContextData {
    DailyContextData {
        trading_date: date,
        asset_id: "BTC".to_string(),
        day_type: Some(kind.to_string()),
        high_session: "LN".to_string(),
        low_session: "NYAM".to_string(),
        high_bar: 1,
        low_bar: 2,
    }
}

#[test]
fn third_order_contexts_slide_over_three_days() {
    // 738886 is Monday 2024-01-01.
    let days = vec![day(738886, "Bullish"), day(738887, "Bearish"), day(738888, "Consolidation")];
    let ctx = prepare_daily_3rd_order_contexts(&days);
    assert_eq!(ctx.len(), 1);
    assert_eq!(ctx[0].trading_date, 738888);
    assert_eq!(ctx[0].pd2_bias.as_deref(), Some("Bullish"));
    assert_eq!(ctx[0].pd1_bias.as_deref(), Some("Bearish"));
    assert_eq!(ctx[0].pd1_dow.as_deref(), Some("Tue"));
    assert_eq!(ctx[0].c_day_bias.as_deref(), Some("Consolidation"));
}

#[test]
fn daily_base_rates_group_by_day_type() {
    let service = MetricsService::new(());
    let intervals = lookback_intervals_from(738_900);
    let days = vec![day(738886, "Bullish"), day(738887, "Bullish"), day(738888, "Bearish")];
    let rows = service.calculate_daily_base_rates_ml(&days, &intervals);
    assert_eq!(rows.len(), 2);
    for r in &rows {
        assert_eq!(r.all_history.total, 3);
    }
}

#[test]
fn outcome_counts_add_up_to_the_pattern_total() {
    let intervals = lookback_intervals_from(800_000);
    let data = vec![obs(799_900, "x"), obs(799_700, "y"), obs(700_000, "x"), obs(799_950, "z")];
    let rows = rate_table(&data, &intervals);
    let sum_all: u128 = rows.iter().map(|r| r.all_history.count).sum();
    let sum_year: u128 = rows.iter().map(|r| r.one_year.count).sum();
    assert_eq!(sum_all, rows[0].all_history.total);
    assert_eq!(sum_year, rows[0].one_year.total);
}
