use dannesk::json::{Json, JsonNumber};
use dannesk::ws::balances::{balance_request, balance_update, Asset as BalanceAsset, BalanceUpdate};
use dannesk::ws::bitcoin::{
    checked_fee, cleanup_failed_import as btc_cleanup, delete_wallet_report, import_reply, import_request,
    submit_response, validate_inputs,
};
use dannesk::ws::ledger::{ledger_reply, parse_ledger_response};
use dannesk::ws::trustline::{trustline_update, Asset as TrustAsset, TrustlineUpdate};
use dannesk::ws::utxo::{parse_utxo_response, utxo_reply, Utxo};
use dannesk::ws::xrp::{cleanup_failed_import as xrp_cleanup, import_reply as xrp_import_reply, wallet_request};
use dannesk::ws::{ProgressUpdate, WSCommand};

fn obj(entries: Vec<(&str, Json)>) -> Json {
    Json::Object(entries.into_iter().map(|(k, v)| (k.to_string(), v)).collect())
}

fn s(t: &str) -> Json {
    Json::Str(t.to_string())
}

fn cmd(name: &str) -> WSCommand {
    WSCommand::named(name.to_string())
}

#[test]
fn json_lookups() {
    let v = obj(vec![("a", s("x")), ("a", s("y")), ("n", Json::Number(JsonNumber::PosInt(7)))]);
    assert_eq!(v.get("a"), Some(&s("x")));
    assert_eq!(v.get("b"), None);
    assert_eq!(v.get("n").and_then(|n| n.as_u64()), Some(7));
    assert_eq!(s("q").get("a"), None);
    assert_eq!(Json::Number(JsonNumber::NegInt(-1)).as_u64(), None);
    assert_eq!(Json::Number(JsonNumber::Float).as_u64(), None);
    assert!(Json::Null.is_null());
    assert_eq!(Json::Bool(true).as_bool(), Some(true));
}

#[test]
fn balance_requests_for_issued_currencies() {
    let mut c = cmd("get_rlusd_balance");
    assert_eq!(balance_request(&c), Err("Missing wallet parameter".to_string()));
    c.wallet = Some("rW".to_string());
    let r = balance_request(&c).unwrap().unwrap();
    assert_eq!((r.command.as_str(), r.key.as_str(), r.value.as_str()), ("get_rlusd_balance", "wallet", "rW"));
    let mut c = cmd("xrp_balance");
    c.wallet = Some("rW".to_string());
    assert_eq!(balance_request(&c), Ok(None));
}

#[test]
fn balance_replies() {
    let reply = obj(vec![("wallet", s("rW")), ("command", s("get_euro_balance")), ("euro_balance", s("12.5"))]);
    assert_eq!(
        balance_update(&reply, "rW"),
        Ok(Some(BalanceUpdate { asset: BalanceAsset::Euro, wallet: "rW".to_string(), raw_balance: "12.5".to_string() }))
    );
    assert_eq!(balance_update(&reply, "rOther"), Ok(None));
    let reply = obj(vec![("wallet", s("rW")), ("command", s("xrp_balance"))]);
    assert_eq!(balance_update(&reply, "rW"), Err("Missing balance field".to_string()));
    let reply = obj(vec![("command", s("xrp_balance"))]);
    assert_eq!(balance_update(&reply, "rW"), Err("Missing wallet field".to_string()));
    let reply = obj(vec![("wallet", s("rW"))]);
    assert_eq!(balance_update(&reply, "rW"), Err("Missing command field".to_string()));
    let reply = obj(vec![("wallet", s("rW")), ("command", s("other"))]);
    assert_eq!(balance_update(&reply, "rW"), Ok(None));
    assert_eq!(BalanceAsset::from_command("get_xsgd_balance"), Some(BalanceAsset::Xsgd));
    assert_eq!(BalanceAsset::Xsgd.json_key(), "xsgd_balance");
}

#[test]
fn trustline_replies() {
    let reply = obj(vec![("command", s("get_trustline_euro_limit")), ("trustline_limit", s("5000"))]);
    assert_eq!(trustline_update(&reply), Ok(Some(TrustlineUpdate { asset: TrustAsset::Euro, limit: Some("5000".to_string()) })));
    let reply = obj(vec![("command", s("get_trustline_limit")), ("trustline_limit", s("lots"))]);
    assert_eq!(trustline_update(&reply), Ok(Some(TrustlineUpdate { asset: TrustAsset::Rlusd, limit: None })));
    let reply = obj(vec![("command", s("get_trustline_sgd_limit"))]);
    assert_eq!(trustline_update(&reply), Ok(Some(TrustlineUpdate { asset: TrustAsset::Xsgd, limit: None })));
    assert_eq!(trustline_update(&obj(vec![("command", s("x"))])), Ok(None));
    assert_eq!(trustline_update(&obj(vec![])), Err("Missing command field".to_string()));
}

fn failure_message(r: Result<(u32, String), dannesk::ws::Failure>) -> String {
    let f = r.unwrap_err();
    assert_eq!(f.error, "Error: Failed to process ledger data");
    let p = f.progress.unwrap();
    assert_eq!(p.percent, 100);
    p.message
}

#[test]
fn ledger_replies() {
    let ok = obj(vec![("fee", s("12")), ("sequence", s("4294967295"))]);
    assert_eq!(parse_ledger_response(&ok).unwrap(), (4294967295u32, "12".to_string()));
    let plus = obj(vec![("fee", s("12")), ("sequence", s("+7"))]);
    assert_eq!(parse_ledger_response(&plus).unwrap(), (7u32, "12".to_string()));
    assert_eq!(failure_message(parse_ledger_response(&obj(vec![("error", s("x")), ("fee", s("1"))]))), "Ledger returned error from server");
    assert_eq!(failure_message(parse_ledger_response(&obj(vec![("sequence", s("1"))]))), "Ledger response missing 'fee' field");
    assert_eq!(failure_message(parse_ledger_response(&obj(vec![("fee", s("1"))]))), "Ledger response missing 'sequence' field");
    assert_eq!(failure_message(parse_ledger_response(&obj(vec![("fee", s("1")), ("sequence", s("-1"))]))), "Failed to parse sequence number");
    assert_eq!(failure_message(parse_ledger_response(&obj(vec![("fee", s("1")), ("sequence", s("4294967296"))]))), "Sequence number too large for u32");
    assert_eq!(failure_message(parse_ledger_response(&obj(vec![("fee", s("1")), ("sequence", s("18446744073709551616"))]))), "Failed to parse sequence number");
    assert!(ledger_reply(&obj(vec![("command", s("other"))])).is_none());
    assert!(ledger_reply(&obj(vec![("command", s("get_ledger_data")), ("fee", s("1")), ("sequence", s("2"))])).unwrap().is_ok());
}

fn txid(c: char) -> String {
    std::iter::repeat(c).take(64).collect()
}

fn utxo_entry(id: &str, vout: Json, value: &str) -> Json {
    obj(vec![("txid", s(id)), ("vout", vout), ("value", s(value))])
}

fn utxo_data(items: Vec<Json>) -> Json {
    obj(vec![("utxo_info", obj(vec![("utxos", Json::Array(items))]))])
}

#[test]
fn utxo_lists_keep_usable_entries() {
    let data = utxo_data(vec![
        utxo_entry(&txid('a'), Json::Number(JsonNumber::PosInt(1)), "1000"),
        utxo_entry(&txid('b'), Json::Number(JsonNumber::NegInt(-1)), "5"),
        utxo_entry(&txid('C'), Json::Number(JsonNumber::PosInt(4294967297)), "7"),
        s("junk"),
    ]);
    let us = parse_utxo_response(&data).unwrap();
    assert_eq!(
        us,
        vec![
            Utxo { txid: txid('a'), vout: 1, amount: 1000 },
            Utxo { txid: txid('C'), vout: 1, amount: 7 },
        ]
    );
}

#[test]
fn utxo_problems_are_reported() {
    let err = |d: Json| {
        let f = parse_utxo_response(&d).unwrap_err();
        (f.progress.unwrap().message, f.error)
    };
    let server = obj(vec![("utxo_info", obj(vec![("error", s("node down"))]))]);
    assert_eq!(err(server), ("node down".to_string(), "Server error: node down".to_string()));
    assert_eq!(
        err(obj(vec![])),
        ("Error: Failed to process UTXO data".to_string(), "Error: Failed to process UTXO data".to_string())
    );
    assert_eq!(err(utxo_data(vec![])), ("Error: No UTXOs found".to_string(), "No UTXOs found".to_string()));
    let zero = utxo_data(vec![utxo_entry(&txid('a'), Json::Number(JsonNumber::PosInt(0)), "0")]);
    assert_eq!(err(zero), ("Error: UTXO with zero amount".to_string(), "UTXO with zero amount".to_string()));
    let bad = utxo_data(vec![utxo_entry("abc", Json::Number(JsonNumber::PosInt(0)), "9")]);
    assert_eq!(err(bad), ("Error: Invalid UTXO txid".to_string(), "Invalid UTXO txid: abc".to_string()));
    let data = obj(vec![("command", s("get_bitcoin_utxo_data"))]);
    assert!(utxo_reply(&data).unwrap().is_err());
    assert!(utxo_reply(&obj(vec![])).is_none());
}

#[test]
fn bitcoin_payment_requests_are_checked() {
    let mut c = cmd("bitcoin_submit_transaction");
    assert_eq!(validate_inputs(&c, ""), Err("Missing tx_type".to_string()));
    c.tx_type = Some("BTC".to_string());
    assert_eq!(validate_inputs(&c, ""), Err("Missing wallet".to_string()));
    c.wallet = Some("bc1q".to_string());
    assert_eq!(validate_inputs(&c, ""), Err("Error: Must provide either passphrase or seed".to_string()));
    c.seed = Some("words".to_string());
    assert_eq!(validate_inputs(&c, "bc1x"), Err("Wallet mismatch: bc1q != bc1x".to_string()));
    assert_eq!(validate_inputs(&c, ""), Ok(("BTC".to_string(), "bc1q".to_string(), String::new())));
    assert_eq!(validate_inputs(&c, "bc1q"), Ok(("BTC".to_string(), "bc1q".to_string(), String::new())));
    c.tx_type = Some("XRP".to_string());
    assert_eq!(validate_inputs(&c, ""), Err("Invalid transaction type for Bitcoin".to_string()));
}

#[test]
fn bitcoin_fees_are_u32() {
    let mut c = cmd("x");
    assert_eq!(checked_fee(&c), Err("Error: No transaction fee specified".to_string()));
    c.fee = Some("1500".to_string());
    assert_eq!(checked_fee(&c), Ok("1500".to_string()));
    c.fee = Some("4294967296".to_string());
    assert_eq!(checked_fee(&c), Err("Error: Invalid transaction fee format".to_string()));
    c.fee = Some("1.5".to_string());
    assert_eq!(checked_fee(&c), Err("Error: Invalid transaction fee format".to_string()));
}

#[test]
fn submit_replies() {
    let report = |p: Option<ProgressUpdate>| p.map(|p| (p.percent, p.message));
    let (p, r) = submit_response(None);
    assert_eq!((report(p), r), (Some((100, "Error: Transaction validation failed".to_string())), Err("Error: Transaction validation failed".to_string())));
    let d = obj(vec![("command", s("bitcoin_submit_transaction")), ("status", s("submitted"))]);
    let (p, r) = submit_response(Some(&d));
    assert_eq!((report(p), r), (Some((80, "Almost There. Awaiting confirmation".to_string())), Ok(())));
    let d = obj(vec![("command", s("bitcoin_transaction_ack"))]);
    assert_eq!(submit_response(Some(&d)), (None, Ok(())));
    let d = obj(vec![("command", s("submit_bitcoin_transaction_response"))]);
    let (p, r) = submit_response(Some(&d));
    assert_eq!((report(p), r), (Some((100, "Error: Transaction validation failed".to_string())), Err("Error: Transaction validation failed".to_string())));
    let d = obj(vec![
        ("command", s("submit_bitcoin_transaction_response")),
        ("result", obj(vec![("status", s("error")), ("error", obj(vec![("message", s("fee too low"))]))])),
    ]);
    let (p, r) = submit_response(Some(&d));
    assert_eq!((report(p), r), (Some((100, "fee too low".to_string())), Err("fee too low".to_string())));
    let d = obj(vec![("command", s("submit_bitcoin_transaction_response")), ("result", obj(vec![("status", s("success"))]))]);
    let (p, r) = submit_response(Some(&d));
    assert_eq!((report(p), r), (Some((100, "Transaction added to Mempool. Status Pending".to_string())), Ok(())));
}

#[test]
fn wallet_import_and_deletion() {
    assert_eq!(btc_cleanup(), vec!["btc.json", "btc_encrypt.json"]);
    assert_eq!(xrp_cleanup(), vec!["xrp.json", "xrp_encrypt.json"]);
    let mut c = cmd("import_bitcoin_wallet");
    assert_eq!(import_request(&c), Err("Error: Bitcoin wallet import failed".to_string()));
    c.wallet = Some("bc1q".to_string());
    let r = import_request(&c).unwrap();
    assert_eq!((r.command.as_str(), r.value.as_str()), ("import_bitcoin_wallet", "bc1q"));
    let r = wallet_request(&c, "get_transaction", "Missing wallet parameter").unwrap();
    assert_eq!(r.command, "get_transaction");
    assert_eq!(import_reply(&obj(vec![("wallet", s("bc1q")), ("balance", s("100"))])), Some(("bc1q".to_string(), Some("100".to_string()))));
    assert_eq!(import_reply(&obj(vec![("error", s("x"))])), None);
    let d = obj(vec![("command", s("delete_bitcoin_wallet")), ("error", s("nope"))]);
    assert_eq!(delete_wallet_report(&d).unwrap().message, "Failed to delete wallet: nope");
    let d = obj(vec![("command", s("delete_bitcoin_wallet")), ("status", s("deleted"))]);
    assert_eq!(delete_wallet_report(&d).unwrap().message, "Wallet deleted successfully");
    assert_eq!(delete_wallet_report(&obj(vec![("status", s("deleted"))])), None);
}

#[test]
fn xrp_import_replies() {
    let d = obj(vec![
        ("wallet", s("rW")),
        ("balance", s("25000000")),
        ("has_rlusd", Json::Bool(true)),
        ("rlusd_balance", s("3.5")),
        ("trustline_limit", s("1000")),
        ("has_euro", s("yes")),
        ("euro_balance", s("bad")),
    ]);
    let r = xrp_import_reply(&d).unwrap();
    assert_eq!(r.wallet, "rW");
    assert_eq!(r.balance, Some("25000000".to_string()));
    assert!(r.rlusd.has);
    assert_eq!(r.rlusd.balance, Some("3.5".to_string()));
    assert_eq!(r.rlusd.limit, Some("1000".to_string()));
    assert!(!r.euro.has);
    assert_eq!(r.euro.balance, None);
    assert!(!r.xsgd.has);
    assert_eq!(xrp_import_reply(&obj(vec![])), None);
}

#[test]
fn missing_replies_are_reported() {
    let f = dannesk::ws::ledger::ledger_fetch_failure(dannesk::ws::FetchProblem::TimedOut);
    assert_eq!(f.error, "Timeout");
    let p = f.progress.unwrap();
    assert_eq!((p.percent, p.message.as_str()), (100, "Timeout waiting for ledger response"));
    let f = dannesk::ws::ledger::ledger_fetch_failure(dannesk::ws::FetchProblem::NoReply);
    assert_eq!(f.error, "Oneshot closed");
    assert_eq!(f.progress.unwrap().message, "Oneshot closed - no response received");
    let f = dannesk::ws::ledger::ledger_fetch_failure(dannesk::ws::FetchProblem::SendFailed);
    assert_eq!(f.error, "Error: Unable to fetch fee or sequence");
    let f = dannesk::ws::utxo::utxo_fetch_failure(dannesk::ws::FetchProblem::TimedOut);
    assert_eq!(f.error, "Timeout waiting for UTXO data");
    assert_eq!(f.progress.unwrap().message, "Timeout waiting for UTXO data");
    let f = dannesk::ws::utxo::utxo_fetch_failure(dannesk::ws::FetchProblem::RegistryMissing);
    assert_eq!(f.error, "Internal Error: Registry not initialized");
}
