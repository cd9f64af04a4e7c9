use chrono::Datelike;
use prediction_engine::contexts::{MetricsContext, SessionToBar2ndOrderContext};
use prediction_engine::keys::KeyPart;
use prediction_engine::models::{EightContextData, SessionContextData};
use prediction_engine::service::{MetricsService, ALL_HISTORY_START};

fn session() -> SessionContextData {
    SessionContextData {
        asset_id: "BTC".to_string(),
        trading_date: 738_890,
        session_end_ts: 1_700_000_000,
        ps2_name: Some("AS".to_string()),
        ps2_bias: Some("Bullish".to_string()),
        ps1_name: Some("LN".to_string()),
        ps1_bias: Some("Bearish".to_string()),
        cs_name: Some("NYAM".to_string()),
        cs_bias: Some("Bullish".to_string()),
    }
}

fn bar(num: i32, bias: &str) -> EightContextData {
    EightContextData {
        asset_id: "BTC".to_string(),
        trading_date: 738_890,
        session_end_ts: 1_700_010_000,
        pb2_num: None,
        pb2_bias: None,
        pb1_num: None,
        pb1_bias: None,
        cb_num: Some(num),
        cb_bias: Some(bias.to_string()),
    }
}

fn outcome_text(c: &SessionToBar2ndOrderContext) -> String {
    match c.get_outcome_key() {
        Some(k) => match &k[0] {
            KeyPart::Text(s) => s.clone(),
            _ => String::new(),
        },
        None => String::new(),
    }
}

#[test]
fn bar_outcome_is_number_and_bias() {
    let c = SessionToBar2ndOrderContext { inner: session(), target_bar: bar(3, "Bullish") };
    assert_eq!(outcome_text(&c), "3:Bullish");
    let c = SessionToBar2ndOrderContext { inner: session(), target_bar: bar(-12, "Bearish") };
    assert_eq!(outcome_text(&c), "-12:Bearish");
    let c = SessionToBar2ndOrderContext { inner: session(), target_bar: bar(i32::MIN, "X") };
    assert_eq!(outcome_text(&c), "-2147483648:X");
    let c = SessionToBar2ndOrderContext { inner: session(), target_bar: bar(0, "Y") };
    assert_eq!(outcome_text(&c), "0:Y");
}

#[test]
fn lookback_windows_end_on_the_current_day() {
    let service = MetricsService::new(());
    let iv = service.get_lookback_intervals().unwrap();
    let today = chrono::Utc::now().date_naive().num_days_from_ce();
    assert_eq!(iv.len(), 3);
    assert!(iv[0].start_date == today - 180 || iv[0].start_date == today - 181);
    assert_eq!(iv[1].start_date, iv[0].start_date - 185);
    assert_eq!(iv[2].start_date, ALL_HISTORY_START);
}
