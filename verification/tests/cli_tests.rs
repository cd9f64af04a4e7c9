use prediction_engine::cli::{get_chain_context_names, resolve_tcs_query, ChainError, CurrentSessionContext};

fn context() -> CurrentSessionContext {
    CurrentSessionContext {
        cs_name: Some("NYAM".to_string()),
        cs_bias_7: Some("Bullish".to_string()),
        ps1_name: Some("LN".to_string()),
        ps1_bias_7: Some("Bearish".to_string()),
        ps2_name: Some("AS".to_string()),
        ps2_bias_7: Some("Consolidation-Up".to_string()),
        found_session_end_ts: None,
    }
}

#[test]
fn chain_names_follow_the_session_cycle() {
    let (ps1, ps2) = get_chain_context_names("TCS_LN_NYAM").unwrap();
    assert_eq!(ps1, "LN");
    assert_eq!(ps2.as_deref(), Some("AS"));
    let (ps1, ps2) = get_chain_context_names("TCS_NYPM_AS").unwrap();
    assert_eq!(ps1, "NYPM");
    assert_eq!(ps2.as_deref(), Some("NYL"));
}

#[test]
fn default_chain_uses_default_names() {
    let (ps1, ps2) = get_chain_context_names("TCS_DEFAULT").unwrap();
    assert_eq!(ps1, "DEFAULT_PS1");
    assert_eq!(ps2.as_deref(), Some("DEFAULT_PS2"));
}

#[test]
fn chain_without_ps1_is_refused() {
    assert!(matches!(get_chain_context_names("TCS"), Err(ChainError::MissingPs1Name)));
}

#[test]
fn chain_with_unknown_ps1_is_refused() {
    match get_chain_context_names("TCS_XX_YY") {
        Err(ChainError::UnknownPs1Name { ps1_name, chain }) => {
            assert_eq!(ps1_name, "XX");
            assert_eq!(chain, "TCS_XX_YY");
        }
        _ => panic!("expected an unknown PS1 name"),
    }
}

#[test]
fn auto_biases_come_from_the_context() {
    let plan = resolve_tcs_query(&context(), "AUTO".to_string(), Some("AUTO".to_string()), "TCS_DEFAULT").unwrap();
    assert_eq!(plan.ps1_name, "LN");
    assert_eq!(plan.ps2_name.as_deref(), Some("AS"));
    assert_eq!(plan.ps1_bias, "Bearish");
    assert_eq!(plan.ps2_bias.as_deref(), Some("Consolidation-Up"));
}

#[test]
fn chain_names_override_the_context() {
    let plan = resolve_tcs_query(&context(), "Bullish".to_string(), None, "TCS_NYAM_NYL").unwrap();
    assert_eq!(plan.ps1_name, "NYAM");
    assert_eq!(plan.ps2_name.as_deref(), Some("LN"));
    assert_eq!(plan.ps1_bias, "Bullish");
    assert_eq!(plan.ps2_bias, None);
}
