use chrono::{Datelike, NaiveDate};
use prediction_engine::keys::KeyPart;
use prediction_engine::ml_features::FeatureGenerator;
use prediction_engine::rates::RateRow;
use prediction_engine::view_contexts::{DailyViewContext, SessionContext};

fn day(y: i32, m: u32, d: u32) -> i32 {
    NaiveDate::from_ymd_opt(y, m, d).unwrap().num_days_from_ce()
}

fn session(date: i32, ps1_bias: &str, cs_bias: &str) -> SessionContext {
    SessionContext {
        asset_id: "BTC".to_string(),
        trading_date: date,
        ps2_name: Some("AS".to_string()),
        ps2_bias_7: Some("Bullish".to_string()),
        ps1_name: Some("LN".to_string()),
        ps1_bias_7: Some(ps1_bias.to_string()),
        cs_name: Some("NYAM".to_string()),
        cs_bias_7: Some(cs_bias.to_string()),
    }
}

fn outcome_texts(r: &RateRow) -> Vec<String> {
    r.outcome
        .iter()
        .map(|p| match p {
            KeyPart::Text(s) => s.clone(),
            KeyPart::Num(n) => n.to_string(),
            KeyPart::Flag(b) => b.to_string(),
        })
        .collect()
}

#[test]
fn transition_features_need_ten_attempts() {
    let g = FeatureGenerator::new(());
    let mut sessions = Vec::new();
    for d in 1..=9 {
        sessions.push(session(day(2024, 2, d), "Bullish", "Bearish"));
    }
    assert!(g.calculate_tcs_features(&sessions).is_empty());
    sessions.push(session(day(2024, 2, 10), "Bullish", "Bullish"));
    let rows = g.calculate_tcs_features(&sessions);
    assert_eq!(rows.len(), 2);
    let bearish = rows.iter().find(|r| outcome_texts(r) == vec!["NYAM", "Bearish"]).unwrap();
    assert_eq!(bearish.all_history.count, 9);
    assert_eq!(bearish.all_history.total, 10);
}

#[test]
fn continuation_features_count_continuations_only() {
    let g = FeatureGenerator::new(());
    let mut sessions = Vec::new();
    // Four continuations (bullish to failed bullish, or the same consolidation) among twelve.
    for d in 1..=2 {
        sessions.push(session(day(2024, 3, d), "Bullish", "Failed_Bullish"));
    }
    for d in 3..=4 {
        sessions.push(session(day(2024, 3, d), "Bullish", "Bullish_Reversal"));
    }
    for d in 5..=12 {
        sessions.push(session(day(2024, 3, d), "Bullish", "Bearish"));
    }
    let rows = g.calculate_continuation_features(&sessions);
    assert_eq!(rows.len(), 1);
    assert_eq!(rows[0].outcome.len(), 1);
    assert!(matches!(rows[0].outcome[0], KeyPart::Flag(true)));
    assert_eq!(rows[0].all_history.count, 4);
    assert_eq!(rows[0].all_history.total, 12);
}

#[test]
fn high_low_features_split_each_day_in_two() {
    let g = FeatureGenerator::new(());
    let mut days = Vec::new();
    let mut sessions = Vec::new();
    for d in 1..=10 {
        let date = day(2024, 4, d);
        days.push(DailyViewContext {
            asset_id: "BTC".to_string(),
            trading_date: date,
            day_type: "Bullish".to_string(),
            consolidation_subtype: None,
            high_session: Some("NYPM".to_string()),
            low_session: Some("AS".to_string()),
        });
        sessions.push(session(date, "Bearish", "Bullish"));
    }
    let rows = g.calculate_high_low_features(&days, &sessions);
    assert_eq!(rows.len(), 2);
    for r in &rows {
        assert_eq!(r.all_history.count, 10);
        assert_eq!(r.all_history.total, 10);
    }
    assert!(rows.iter().any(|r| outcome_texts(r) == vec!["NYPM"]));
    assert!(rows.iter().any(|r| outcome_texts(r) == vec!["AS"]));
}

#[test]
fn daily_features_come_from_weekday_contexts() {
    let g = FeatureGenerator::new(());
    let mut days = Vec::new();
    // Twelve weeks of Monday to Wednesday, all bullish.
    for w in 0..12 {
        for k in 0..3 {
            days.push(DailyViewContext {
                asset_id: "BTC".to_string(),
                trading_date: day(2024, 1, 1) + 7 * w + k,
                day_type: "Bullish".to_string(),
                consolidation_subtype: None,
                high_session: None,
                low_session: None,
            });
        }
    }
    let ctx = g.generate_day_context(&days);
    assert_eq!(ctx.len(), 36);
    let rows = g.calculate_dci_features(&ctx);
    // Wednesday follows (Monday, Tuesday) twelve times; Monday follows
    // (Tuesday, Wednesday) eleven times; Tuesday follows (Wednesday, Monday) eleven times.
    assert_eq!(rows.len(), 3);
    for r in &rows {
        assert!(r.all_history.total >= 11);
        assert_eq!(r.all_history.count, r.all_history.total);
    }
}
