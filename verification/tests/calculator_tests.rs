use chrono::{Datelike, NaiveDate};
use prediction_engine::calculator::{calculate_weighted_rate, MetricsCalculator, RateInput};
use prediction_engine::keys::KeyPart;
use prediction_engine::ordering::{stable_order, str_less};
use prediction_engine::tally::WeightedRate;
use prediction_engine::unified::{calculate_pdcs, MIN_PATTERN_ATTEMPTS, MIN_WEEKLY_ATTEMPTS};
use prediction_engine::view_contexts::{get_daily_outcome_7, DailyViewContext, WeeklyViewContext};

fn day(y: i32, m: u32, d: u32) -> i32 {
    NaiveDate::from_ymd_opt(y, m, d).unwrap().num_days_from_ce()
}

fn texts(parts: &[&str]) -> Vec<KeyPart> {
    parts.iter().map(|p| KeyPart::Text(p.to_string())).collect()
}

fn key_texts(k: &[KeyPart]) -> Vec<String> {
    k.iter()
        .map(|p| match p {
            KeyPart::Text(s) => s.clone(),
            KeyPart::Num(n) => n.to_string(),
            KeyPart::Flag(b) => b.to_string(),
        })
        .collect()
}

fn input(parts: &[&str], is_event: bool, date: i32) -> RateInput {
    RateInput { key: Some(texts(parts)), is_event, date }
}

fn daily(asset: &str, date: i32, kind: &str, sub: Option<&str>) -> DailyViewContext {
    DailyViewContext {
        asset_id: asset.to_string(),
        trading_date: date,
        day_type: kind.to_string(),
        consolidation_subtype: sub.map(|s| s.to_string()),
        high_session: None,
        low_session: None,
    }
}

#[test]
fn weighted_rate_uses_all_one_year_and_six_month_weights() {
    let mut data = Vec::new();
    // Five July items (June or later: in the "6M" lookback), two of them successes.
    for d in 1..=5 {
        data.push(input(&["BTC", "Bullish"], d <= 2, day(2024, 7, d)));
    }
    // Seven March items, four of them successes.
    for d in 1..=7 {
        data.push(input(&["BTC", "Bullish"], d <= 4, day(2024, 3, d)));
    }
    let rates = calculate_weighted_rate(&data, MIN_PATTERN_ATTEMPTS);
    assert_eq!(rates.len(), 1);
    assert_eq!(key_texts(&rates[0].key), vec!["BTC", "Bullish"]);
    // 12 attempts: 0.6 * 12 + 0.3 * 12 + 0.1 * 5 = 11.3
    assert_eq!(rates[0].total_tenths, 113);
    // 6 successes: 0.6 * 6 + 0.3 * 6 + 0.1 * 2 = 5.6
    assert_eq!(rates[0].event_tenths, 56);
}

#[test]
fn weighted_rate_drops_all_history_below_ten_attempts() {
    let mut data = Vec::new();
    for d in 1..=9 {
        data.push(input(&["ETH", "Bearish"], true, day(2023, 8, d)));
    }
    // 9 attempts: 0.3 * 9 + 0.1 * 9 = 3.6, enough for the weekly minimum of 3.
    let weekly = calculate_weighted_rate(&data, MIN_WEEKLY_ATTEMPTS);
    assert_eq!(weekly.len(), 1);
    assert_eq!(weekly[0].total_tenths, 36);
    assert_eq!(weekly[0].event_tenths, 36);
    // ... but not for the pattern minimum of 10.
    let pattern = calculate_weighted_rate(&data, MIN_PATTERN_ATTEMPTS);
    assert!(pattern.is_empty());
}

#[test]
fn weighted_rate_ignores_items_without_key() {
    let data = vec![RateInput { key: None, is_event: true, date: day(2024, 9, 1) }];
    assert!(calculate_weighted_rate(&data, 0).is_empty());
}

#[test]
fn string_order_is_lexicographic() {
    assert!(str_less("AB", "B"));
    assert!(!str_less("B", "AB"));
    assert!(str_less("A", "AB"));
    assert!(!str_less("AB", "AB"));
    assert!(str_less("", "A"));
}

#[test]
fn stable_order_sorts_by_asset_then_date_keeping_ties() {
    let assets = vec!["B".to_string(), "A".to_string(), "B".to_string(), "A".to_string()];
    let dates = vec![2, 5, 1, 5];
    assert_eq!(stable_order(&assets, &dates), vec![1, 3, 2, 0]);
}

#[test]
fn daily_outcome_maps_to_seven_states() {
    assert_eq!(get_daily_outcome_7(&daily("A", 1, "Bullish", None)), "Bullish");
    assert_eq!(get_daily_outcome_7(&daily("A", 1, "Consolidation", Some("Consolidation-Up"))), "Consolidation-Up");
    assert_eq!(get_daily_outcome_7(&daily("A", 1, "Consolidation", None)), "Consolidation-Other");
    assert_eq!(get_daily_outcome_7(&daily("A", 1, "Range", None)), "Other");
}

#[test]
fn day_context_skips_weekends_and_links_previous_days() {
    let calc = MetricsCalculator::new(());
    // 2024-01-05 is a Friday; the views arrive out of order.
    let views = vec![
        daily("BTC", day(2024, 1, 9), "Range", None),
        daily("BTC", day(2024, 1, 5), "Bullish", None),
        daily("BTC", day(2024, 1, 8), "Consolidation", Some("Consolidation-Up")),
        daily("BTC", day(2024, 1, 6), "Bearish", None),
    ];
    let ctx = calc.generate_day_context(&views);
    assert_eq!(ctx.len(), 3);
    assert_eq!(ctx[0].trading_date, day(2024, 1, 5));
    assert_eq!(ctx[0].day0_outcome_7, "Bullish");
    assert_eq!(ctx[0].pd1_outcome_7, None);
    assert_eq!(ctx[0].pd2_outcome_7, None);
    assert_eq!(ctx[1].trading_date, day(2024, 1, 8));
    assert_eq!(ctx[1].pd1_outcome_7.as_deref(), Some("Bearish"));
    assert_eq!(ctx[1].pd1_dow.as_deref(), Some("Weekend"));
    assert_eq!(ctx[1].pd2_outcome_7.as_deref(), Some("Bullish"));
    assert_eq!(ctx[2].trading_date, day(2024, 1, 9));
    assert_eq!(ctx[2].day0_outcome_7, "Other");
    assert_eq!(ctx[2].day0_direction, "Other");
    assert_eq!(ctx[2].pd1_outcome_7.as_deref(), Some("Consolidation-Up"));
    assert_eq!(ctx[2].pd1_direction.as_deref(), Some("Consolidation-Up"));
    assert_eq!(ctx[2].pd1_dow.as_deref(), Some("Monday"));
    assert_eq!(ctx[2].pd2_outcome_7.as_deref(), Some("Bearish"));
}

#[test]
fn day_context_does_not_link_across_assets() {
    let calc = MetricsCalculator::new(());
    let views = vec![daily("AAA", day(2024, 1, 8), "Bullish", None), daily("BBB", day(2024, 1, 9), "Bearish", None)];
    let ctx = calc.generate_day_context(&views);
    assert_eq!(ctx.len(), 2);
    assert_eq!(ctx[0].asset_id, "AAA");
    assert_eq!(ctx[1].asset_id, "BBB");
    assert_eq!(ctx[1].pd1_outcome_7, None);
}

#[test]
fn weekly_context_has_week_of_month_and_previous_weeks() {
    let calc = MetricsCalculator::new(());
    let week = |d: i32, kind: &str| WeeklyViewContext {
        asset_id: "BTC".to_string(),
        week_start: d,
        weekly_type: kind.to_string(),
        consolidation_subtype: None,
    };
    let views = vec![
        week(day(2024, 1, 29), "Bearish"),
        week(day(2024, 1, 1), "Bullish"),
        week(day(2024, 1, 8), "Consolidation"),
    ];
    let ctx = calc.generate_weekly_context(&views);
    assert_eq!(ctx.len(), 3);
    assert_eq!(ctx[0].week0_week_of_month, 1);
    assert_eq!(ctx[1].week0_week_of_month, 2);
    assert_eq!(ctx[2].week0_week_of_month, 5);
    assert_eq!(ctx[1].week0_outcome_7, "Consolidation-Other");
    assert_eq!(ctx[2].pw1_outcome_7.as_deref(), Some("Consolidation-Other"));
    assert_eq!(ctx[2].pw2_outcome_7.as_deref(), Some("Bullish"));
    assert_eq!(ctx[0].pw1_outcome_7, None);
}

fn rate(parts: &[&str], events: u128, total: u128) -> WeightedRate {
    WeightedRate { key: texts(parts), event_tenths: events, total_tenths: total }
}

#[test]
fn pdcs_scales_conditional_by_base_probability() {
    let conds = vec![rate(&["BTC", "Bearish", "Bullish", "Monday", "Bullish"], 50, 100)];
    let bases = vec![rate(&["BTC", "Bullish"], 25, 100)];
    let scores = calculate_pdcs(&conds, &bases);
    assert_eq!(scores.len(), 1);
    // (0.5 / 0.25) = 2.00
    assert_eq!(scores[0].pdcs_hundredths, 200);
    assert_eq!(scores[0].insight_label, "High-Confidence Signal (PDCS >= 1.75)");
    assert_eq!(scores[0].pd1_dow, "Monday");
    assert_eq!(scores[0].day0_outcome_7, "Bullish");
}

#[test]
fn pdcs_labels_follow_thresholds() {
    let bases = vec![rate(&["A", "X"], 100, 100)];
    let cases = [
        (23, "Extreme Confidence Signal (PDCS >= 2.25)"),
        (18, "High-Confidence Signal (PDCS >= 1.75)"),
        (10, "Confirmatory/Expected Range"),
        (7, "Contradictory Signal/Failure Risk (PDCS < 0.75)"),
    ];
    for (events, label) in cases {
        // conditional events / 10 over a base of 1.0
        let conds = vec![rate(&["A", "p", "q", "Friday", "X"], events, 10)];
        let scores = calculate_pdcs(&conds, &bases);
        assert_eq!(scores[0].insight_label, label);
    }
}

#[test]
fn pdcs_skips_missing_or_zero_base() {
    let conds = vec![
        rate(&["BTC", "a", "b", "Monday", "Bullish"], 10, 100),
        rate(&["BTC", "a", "b", "Monday", "Bearish"], 10, 100),
    ];
    let bases = vec![rate(&["BTC", "Bullish"], 0, 100)];
    assert!(calculate_pdcs(&conds, &bases).is_empty());
}

#[test]
fn pipeline_computes_daily_base_rates() {
    let calc = MetricsCalculator::new(());
    let mut views = Vec::new();
    // Twelve July days of one asset: all in every lookback.
    for d in 1..=12 {
        views.push(daily("BTC", day(2024, 7, d), "Bullish", None));
    }
    let rates = calc.run_pipeline(&views, &Vec::new(), &Vec::new());
    assert_eq!(rates.daily_base_rates.len(), 1);
    assert_eq!(rates.daily_base_rates[0].total_tenths, 120);
    assert_eq!(rates.daily_base_rates[0].event_tenths, 120);
    assert!(rates.weekly_base_rates.is_empty());
    assert!(rates.cs_base_rates.is_empty());
    assert!(rates.pdcs_scores.is_empty());
}

#[test]
fn pdcs_of_equal_rates_is_one() {
    let conds = vec![rate(&["ETH", "a", "b", "Thursday", "Bearish"], 50, 100)];
    let bases = vec![rate(&["ETH", "Bearish"], 25, 50)];
    let scores = calculate_pdcs(&conds, &bases);
    assert_eq!(scores[0].pdcs_hundredths, 100);
    assert_eq!(scores[0].insight_label, "Confirmatory/Expected Range");
}
