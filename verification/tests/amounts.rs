use dannesk::amounts::{get_asset_config, is_float_literal, to_xrpl_amount, xrp_str_to_drops, XrplAmount, RLUSD_ISSUER};

fn drops(s: &str) -> Result<String, String> {
    xrp_str_to_drops(s)
}

#[test]
fn whole_and_fraction_become_drops() {
    assert_eq!(drops("1.5"), Ok("1500000".to_string()));
    assert_eq!(drops("12"), Ok("12000000".to_string()));
    assert_eq!(drops("0.000001"), Ok("1".to_string()));
}

#[test]
fn fraction_is_cut_to_six_places() {
    assert_eq!(drops("0.0000019"), Ok("1".to_string()));
    assert_eq!(drops("2.1234567"), Ok("2123456".to_string()));
}

#[test]
fn leading_minus_signs_are_ignored() {
    assert_eq!(drops("-2"), Ok("2000000".to_string()));
    assert_eq!(drops("--3.5"), Ok("3500000".to_string()));
    assert_eq!(drops("---"), Ok("0".to_string()));
}

#[test]
fn odd_shapes_fall_back_to_zero_parts() {
    assert_eq!(drops("1.2.3"), Ok("1000000".to_string()));
    assert_eq!(drops(".5"), Ok("500000".to_string()));
    assert_eq!(drops("1-2"), Ok("0".to_string()));
    assert_eq!(drops("1.-5"), Ok("1000000".to_string()));
    assert_eq!(drops("1234567890123456789012345678901234567890"), Ok("0".to_string()));
}

#[test]
fn invalid_xrp_text_is_refused() {
    assert_eq!(drops(""), Err("Invalid XRP format".to_string()));
    assert_eq!(drops("1a"), Err("Invalid XRP format".to_string()));
    assert_eq!(drops(" 1"), Err("Invalid XRP format".to_string()));
    assert_eq!(drops("+1"), Err("Invalid XRP format".to_string()));
}

#[test]
fn asset_config_knows_three_currencies() {
    assert_eq!(
        get_asset_config("RLUSD"),
        Some(("524C555344000000000000000000000000000000", "rMxCKbEDwqr76QuheSUMdEGf4B9xJ8m5De"))
    );
    assert_eq!(
        get_asset_config("EUROP"),
        Some(("4555524F50000000000000000000000000000000", "rMkEuRii9w9uBMQDnWV5AA43gvYZR9JxVK"))
    );
    assert_eq!(
        get_asset_config("XSGD"),
        Some(("5853474400000000000000000000000000000000", "rK67JczCpaYXVtfw3qJVmqwpSfa1bYTptw"))
    );
    assert_eq!(get_asset_config("rlusd"), None);
    assert_eq!(get_asset_config("USD"), None);
}

#[test]
fn float_literals_follow_std() {
    for ok in ["1", "1.5", ".5", "5.", "-2", "+2", "1e5", "1E-5", "2.5e+10", "inf", "-Infinity", "NaN", "+nan"] {
        assert!(is_float_literal(ok), "{}", ok);
        assert!(ok.parse::<f64>().is_ok(), "{}", ok);
    }
    for bad in ["", ".", "e5", "1e", "+", "-", "1_000", "1.2.3", " 1", "infinit", "0x10", "1e+", "--1"] {
        assert!(!is_float_literal(bad), "{}", bad);
        assert!(bad.parse::<f64>().is_err(), "{}", bad);
    }
}

#[test]
fn xrp_amounts_become_drops() {
    assert_eq!(to_xrpl_amount("2.5", "XRP"), Ok(XrplAmount::Xrp("2500000".to_string())));
    assert_eq!(to_xrpl_amount("x", "XRP"), Err("Invalid XRP format".to_string()));
}

#[test]
fn issued_amounts_keep_their_text() {
    assert_eq!(
        to_xrpl_amount("10.25", "RLUSD"),
        Ok(XrplAmount::Issued {
            currency: "524C555344000000000000000000000000000000".to_string(),
            issuer: RLUSD_ISSUER.to_string(),
            value: "10.25".to_string(),
        })
    );
    assert_eq!(to_xrpl_amount("ten", "RLUSD"), Err("Invalid amount".to_string()));
    assert_eq!(to_xrpl_amount("1", "USD"), Err("Unsupported currency: USD".to_string()));
}
