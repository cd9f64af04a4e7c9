use prediction_engine::scores::{
    calculate_pcs_scores, calculate_pdcs_scores, insight_label, scale_ratio, DayOutcome3rdOrder, DayType2ndOrder,
    DayTypeBaseRate, ScaledScore,
};

fn base(asset: &str, bias: &str, p: u64) -> DayTypeBaseRate {
    DayTypeBaseRate { asset_id: asset.to_string(), daily_bias: bias.to_string(), p_day_type_base: p }
}

fn third_order(asset: &str, outcome: &str, p: u64) -> DayOutcome3rdOrder {
    DayOutcome3rdOrder {
        asset_id: asset.to_string(),
        pd2_bias: "Bearish".to_string(),
        pd1_bias: "Bullish".to_string(),
        pd1_dow: "Tuesday".to_string(),
        c_day_bias: outcome.to_string(),
        reliable_total_attempts: 20,
        reliable_success_count: 12,
        p_day_bias_conditional: p,
    }
}

fn second_order(asset: &str, day_type: &str, p: u64) -> DayType2ndOrder {
    DayType2ndOrder {
        asset_id: asset.to_string(),
        ps2_name: "AS".to_string(),
        ps2_bias: "Bullish".to_string(),
        ps1_name: "LN".to_string(),
        ps1_bias: "Bearish".to_string(),
        day_type: day_type.to_string(),
        p_day_type_conditional: p,
    }
}

#[test]
fn ratio_rounds_to_hundredths() {
    assert_eq!(scale_ratio(60, 30), ScaledScore::Finite(200));
    assert_eq!(scale_ratio(45, 40), ScaledScore::Finite(113));
    assert_eq!(scale_ratio(50, 50), ScaledScore::Finite(100));
    assert_eq!(scale_ratio(5, 0), ScaledScore::Infinite);
    assert_eq!(scale_ratio(0, 0), ScaledScore::Undefined);
}

#[test]
fn insight_labels_by_threshold() {
    assert_eq!(insight_label(ScaledScore::Finite(225)), "Extreme Confidence Signal (PCS >= 2.25)");
    assert_eq!(insight_label(ScaledScore::Finite(175)), "High-Confidence Signal (PCS >= 1.75)");
    assert_eq!(insight_label(ScaledScore::Finite(74)), "Contradictory Signal/Failure Risk (PCS < 0.75)");
    assert_eq!(insight_label(ScaledScore::Finite(100)), "Confirmatory/Expected Range");
    assert_eq!(insight_label(ScaledScore::Infinite), "Extreme Confidence Signal (PCS >= 2.25)");
}

#[test]
fn pdcs_scores_keep_rates_with_a_base() {
    let conds = vec![third_order("BTC", "Bullish", 60), third_order("BTC", "Bearish", 20)];
    let bases = vec![base("BTC", "Bullish", 30)];
    let scores = calculate_pdcs_scores(conds, bases);
    assert_eq!(scores.len(), 1);
    assert_eq!(scores[0].day0_outcome, "Bullish");
    assert_eq!(scores[0].pdcs_score, ScaledScore::Finite(200));
    assert_eq!(scores[0].insight_label, "High-Confidence Signal (PCS >= 1.75)");
    assert_eq!(scores[0].p_day_outcome_conditional, 60);
    assert_eq!(scores[0].p_day_type_base, 30);
}

#[test]
fn pdcs_uses_the_last_base_of_a_key() {
    let conds = vec![third_order("BTC", "Bullish", 40)];
    let bases = vec![base("BTC", "Bullish", 10), base("BTC", "Bullish", 40)];
    let scores = calculate_pdcs_scores(conds, bases);
    assert_eq!(scores[0].pdcs_score, ScaledScore::Finite(100));
}

#[test]
fn pcs_keeps_the_strongest_day_type_per_pattern() {
    let conds = vec![
        second_order("BTC", "Bullish", 30),
        second_order("BTC", "Bearish", 50),
        second_order("BTC", "Other", 90),
    ];
    let bases = vec![base("BTC", "Bullish", 20), base("BTC", "Bearish", 25)];
    let scores = calculate_pcs_scores(conds, bases);
    assert_eq!(scores.len(), 1);
    // 50 / 25 = 2.00 beats 30 / 20 = 1.50; "Other" has no base rate.
    assert_eq!(scores[0].pcs_day_type, "Bearish");
    assert_eq!(scores[0].pcs_score, ScaledScore::Finite(200));
}

#[test]
fn higher_conditional_never_scores_lower() {
    let low = scale_ratio(45, 30);
    let high = scale_ratio(60, 30);
    match (low, high) {
        (ScaledScore::Finite(a), ScaledScore::Finite(b)) => {
            assert_eq!(a, 150);
            assert_eq!(b, 200);
            assert!(a <= b);
        }
        _ => panic!("finite scores expected"),
    }
}

#[test]
fn pcs_scores_do_not_depend_on_input_order() {
    let make = || {
        vec![
            second_order("BTC", "Bullish", 30),
            second_order("BTC", "Bearish", 50),
            second_order("ETH", "Bullish", 40),
        ]
    };
    let bases = || vec![base("BTC", "Bullish", 20), base("BTC", "Bearish", 25), base("ETH", "Bullish", 40)];
    let forward = calculate_pcs_scores(make(), bases());
    let mut reversed_input = make();
    reversed_input.reverse();
    let backward = calculate_pcs_scores(reversed_input, bases());
    assert_eq!(forward.len(), backward.len());
    for f in &forward {
        let b = backward.iter().find(|b| b.asset_id == f.asset_id).unwrap();
        assert_eq!(b.pcs_score, f.pcs_score);
    }
}

#[test]
fn finer_fixed_point_scales_give_the_same_scores() {
    // 0.746 over 0.373 in thousandths, and in millionths.
    assert_eq!(scale_ratio(746, 373), ScaledScore::Finite(200));
    assert_eq!(scale_ratio(746_000, 373_000), ScaledScore::Finite(200));
    // 0.746 over 1.0 in thousandths: 0.746 rounds to 0.75.
    assert_eq!(scale_ratio(746, 1000), ScaledScore::Finite(75));
    let conds = vec![third_order("BTC", "Bullish", 746)];
    let bases = vec![base("BTC", "Bullish", 331)];
    let scores = calculate_pdcs_scores(conds, bases);
    // 0.746 / 0.331 = 2.2537...
    assert_eq!(scores[0].pdcs_score, ScaledScore::Finite(225));
    assert_eq!(scores[0].insight_label, "Extreme Confidence Signal (PCS >= 2.25)");
}
