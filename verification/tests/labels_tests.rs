use prediction_engine::labels::{date_to_dow, is_continuation, iss_continuation};

#[test]
fn continuation_within_bullish_family() {
    assert!(is_continuation("Bullish", "Failed_Bullish"));
    assert!(iss_continuation("Bullish_Reversal", "Bullish"));
}

#[test]
fn no_continuation_across_families() {
    assert!(!is_continuation("Bullish", "Bearish"));
    assert!(!is_continuation("Consolidation-Up", "Consolidation-Down"));
}

#[test]
fn day_of_week_names() {
    // 2024-01-01 was a Monday; its day number from the common era is 738886.
    assert_eq!(date_to_dow(738886), "Monday");
    assert_eq!(date_to_dow(738890), "Friday");
    assert_eq!(date_to_dow(738891), "Weekend");
}
