use dannesk::assets::SendAsset;

#[test]
fn tickers_in_any_case_name_assets() {
    assert_eq!(SendAsset::from_str("rlusd"), SendAsset::Rlusd);
    assert_eq!(SendAsset::from_str("EuroP"), SendAsset::Euro);
    assert_eq!(SendAsset::from_str("xsgd"), SendAsset::Sgd);
    assert_eq!(SendAsset::from_str("XRP"), SendAsset::Xrp);
}

#[test]
fn unknown_tickers_are_xrp() {
    assert_eq!(SendAsset::from_str("BTC"), SendAsset::Xrp);
    assert_eq!(SendAsset::from_str(""), SendAsset::Xrp);
    assert_eq!(SendAsset::from_str("EURO"), SendAsset::Xrp);
}

#[test]
fn unicode_upper_casing_applies() {
    assert_eq!(SendAsset::from_str("rluſd"), SendAsset::Rlusd);
    assert_eq!(SendAsset::from_upper("rlusd"), SendAsset::Xrp);
}

#[test]
fn labels_and_rates() {
    for a in [SendAsset::Xrp, SendAsset::Rlusd, SendAsset::Euro, SendAsset::Sgd] {
        assert_eq!(SendAsset::from_str(a.label()), a);
    }
    assert_eq!(SendAsset::Euro.label(), "EUROP");
    assert!(SendAsset::Xrp.has_usd_equivalent());
    assert!(!SendAsset::Sgd.has_usd_equivalent());
    assert_eq!(SendAsset::Xrp.fiat_rate_key(), Some("XRP/USD"));
    assert_eq!(SendAsset::Rlusd.fiat_rate_key(), None);
}
