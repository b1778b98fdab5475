use dannesk::amounts::XrplAmount;
use dannesk::signing::{offer_flags, offer_plan, trustset_plan, OfferFlag};
use dannesk::ws::WSCommand;

fn cmd() -> WSCommand {
    WSCommand::named("offer_create".to_string())
}

#[test]
fn offer_flags_keep_known_names_in_order() {
    let names = Some(vec!["tfImmediateOrCancel".to_string(), "tfSell".to_string(), "tfFillOrKill".to_string()]);
    assert_eq!(offer_flags(&names), vec![OfferFlag::ImmediateOrCancel, OfferFlag::FillOrKill]);
    assert_eq!(offer_flags(&None), vec![]);
}

#[test]
fn offers_need_both_amounts() {
    let mut c = cmd();
    assert_eq!(offer_plan(&c), Err("Missing taker_pays".to_string()));
    c.taker_pays = Some(("10".to_string(), "RLUSD".to_string()));
    assert_eq!(offer_plan(&c), Err("Missing taker_gets".to_string()));
    c.taker_gets = Some(("1.5".to_string(), "XRP".to_string()));
    let plan = offer_plan(&c).unwrap();
    assert_eq!(plan.taker_gets, XrplAmount::Xrp("1500000".to_string()));
    assert!(plan.flags.is_empty());
    c.taker_pays = Some(("10".to_string(), "BTC".to_string()));
    assert_eq!(offer_plan(&c), Err("Unsupported currency: BTC".to_string()));
}

#[test]
fn trust_lines_default_to_a_million() {
    let mut c = cmd();
    assert_eq!(trustset_plan(&c), Err("Missing asset type for trustset".to_string()));
    c.wallet_type = Some("EUROP".to_string());
    let p = trustset_plan(&c).unwrap();
    assert_eq!(p.limit, "1000000");
    assert_eq!(p.issuer, "rMkEuRii9w9uBMQDnWV5AA43gvYZR9JxVK");
    c.trustline_limit = Some("500".to_string());
    assert_eq!(trustset_plan(&c).unwrap().limit, "500");
    c.wallet_type = Some("DOGE".to_string());
    assert_eq!(trustset_plan(&c), Err("Unsupported asset type for trustset: DOGE".to_string()));
}
