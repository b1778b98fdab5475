use dannesk::json::Json;
use dannesk::state::Theme;
use dannesk::wallet::{default_settings, load_wallets, restore_wallet, settings_from_json, theme_from_json};

fn obj(entries: Vec<(&str, Json)>) -> Json {
    Json::Object(entries.into_iter().map(|(k, v)| (k.to_string(), v)).collect())
}

fn s(t: &str) -> Json {
    Json::Str(t.to_string())
}

#[test]
fn themes_read_as_serde_reads_them() {
    assert_eq!(theme_from_json(&s("Light")), Some(Theme::Light));
    assert_eq!(theme_from_json(&s("Dark")), Some(Theme::Dark));
    assert_eq!(theme_from_json(&s("dark")), None);
    assert_eq!(theme_from_json(&obj(vec![("Light", Json::Null)])), Some(Theme::Light));
    assert_eq!(theme_from_json(&obj(vec![("Light", Json::Bool(true))])), None);
    assert_eq!(theme_from_json(&Json::Null), None);
}

#[test]
fn settings_fall_back_to_dark_and_shown() {
    assert_eq!(settings_from_json(&obj(vec![("theme", s("Light")), ("is_hidden", Json::Bool(true))])), (Theme::Light, true));
    assert_eq!(settings_from_json(&obj(vec![("theme", s("Blue"))])), (Theme::Dark, false));
    assert_eq!(settings_from_json(&Json::Null), (Theme::Dark, false));
    assert_eq!(default_settings(), (Theme::Dark, false));
}

#[test]
fn wallets_restore_from_their_files() {
    let r = restore_wallet(&obj(vec![("address", s("rW")), ("private_key_deleted", Json::Bool(true))]), "get_cached_balance").unwrap();
    assert_eq!(r.address, "rW");
    assert!(r.private_key_deleted);
    assert_eq!(r.command.command, "get_cached_balance");
    assert_eq!(r.command.wallet, Some("rW".to_string()));
    let r = restore_wallet(&obj(vec![("address", s("bc1q"))]), "get_bitcoin_cached_balance").unwrap();
    assert!(!r.private_key_deleted);
    assert!(restore_wallet(&obj(vec![("address", s(""))]), "get_cached_balance").is_none());
    assert!(restore_wallet(&obj(vec![]), "get_cached_balance").is_none());
}

#[test]
fn start_up_restores_settings_and_wallets() {
    let settings = Json::Object(vec![
        ("theme".to_string(), Json::Str("Light".to_string())),
        ("is_hidden".to_string(), Json::Bool(true)),
    ]);
    let xrp = Json::Object(vec![("address".to_string(), Json::Str("rXYZ".to_string()))]);
    let btc = Json::Object(vec![("address".to_string(), Json::Str("".to_string()))]);
    let s = load_wallets(Some(&settings), Some(&xrp), Some(&btc));
    assert_eq!(s.theme, Theme::Light);
    assert!(s.hide_balance);
    assert!(!s.write_default_settings);
    let w = s.xrp.unwrap();
    assert_eq!(w.address, "rXYZ");
    assert!(!w.private_key_deleted);
    assert_eq!(w.command.command, "get_cached_balance");
    assert!(s.btc.is_none());
    let s = load_wallets(None, None, None);
    assert_eq!(s.theme, Theme::Dark);
    assert!(!s.hide_balance);
    assert!(s.write_default_settings);
    assert!(s.xrp.is_none() && s.btc.is_none());
}
