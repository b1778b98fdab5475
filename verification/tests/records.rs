use dannesk::json::Json;
use dannesk::state::{
    BitcoinTransactionStatus, BtcTransactionData, BtcTransactionState, TransactionData, TransactionState,
    TransactionStatus,
};
use dannesk::ws::transactions::{cached_balance_response, parse_tx, transaction_response};

fn obj(entries: Vec<(&str, Json)>) -> Json {
    Json::Object(entries.into_iter().map(|(k, v)| (k.to_string(), v)).collect())
}

fn s(t: &str) -> Json {
    Json::Str(t.to_string())
}

fn xrp_tx(id: &str, amount: &str) -> TransactionData {
    TransactionData {
        tx_id: id.to_string(),
        status: TransactionStatus::Success,
        execution_price: "0".to_string(),
        order_type: "payment".to_string(),
        timestamp: String::new(),
        amount: amount.to_string(),
        currency: "XRP".to_string(),
        fee: String::new(),
        flags: None,
        receiver: String::new(),
        sender: String::new(),
    }
}

#[test]
fn inserting_a_transaction_replaces_its_id() {
    let mut st = TransactionState::new();
    st.insert(xrp_tx("A", "1"));
    st.insert(xrp_tx("B", "2"));
    st.insert(xrp_tx("A", "3"));
    assert_eq!(st.transactions.len(), 2);
    assert_eq!(st.transactions[0], xrp_tx("A", "3"));
    assert_eq!(st.transactions[1], xrp_tx("B", "2"));
}

#[test]
fn parsed_transactions_take_defaults() {
    let tx = obj(vec![("hash", s("H1")), ("status", s("pending")), ("tx_type", s("OfferCreate")), ("flags", s("tfSell"))]);
    let t = parse_tx(&tx).unwrap();
    assert_eq!(t.tx_id, "H1");
    assert_eq!(t.status, TransactionStatus::Pending);
    assert_eq!(t.execution_price, "0");
    assert_eq!(t.order_type, "offercreate");
    assert_eq!(t.amount, "0");
    assert_eq!(t.currency, "");
    assert_eq!(t.flags, Some("tfSell".to_string()));
    assert_eq!(parse_tx(&obj(vec![("hash", s("H1")), ("status", s("done"))])), None);
    assert_eq!(parse_tx(&obj(vec![("status", s("success"))])), None);
}

#[test]
fn transaction_replies() {
    assert_eq!(transaction_response(&obj(vec![("command", s("other"))])), Ok(None));
    assert_eq!(
        transaction_response(&obj(vec![("command", s("get_transaction"))])),
        Err("Missing transaction field".to_string())
    );
    assert_eq!(transaction_response(&obj(vec![("command", s("get_transaction")), ("transaction", Json::Null)])), Ok(None));
    let r = transaction_response(&obj(vec![
        ("command", s("get_transaction")),
        ("transaction", obj(vec![("hash", s("H")), ("status", s("cancelled"))])),
    ]));
    assert_eq!(r.unwrap().unwrap().status, TransactionStatus::Cancelled);
}

#[test]
fn cached_bitcoin_balances() {
    let d = obj(vec![
        ("command", s("get_bitcoin_cached_balance")),
        ("wallet", s("bc1q")),
        ("balance", s("150000000")),
        (
            "transaction",
            Json::Array(vec![
                obj(vec![("txid", s("T1")), ("status", s("confirmed")), ("receiver_addresses", Json::Array(vec![s("a"), Json::Null, s("b")]))]),
                obj(vec![("txid", s("T2")), ("status", s("weird"))]),
                obj(vec![("status", s("pending"))]),
                obj(vec![("txid", s("T1")), ("status", s("failed")), ("fees", s("12"))]),
            ]),
        ),
    ]);
    let c = cached_balance_response(&d).unwrap().unwrap();
    assert_eq!(c.wallet, "bc1q");
    assert_eq!(c.raw_balance, "150000000");
    assert_eq!(c.transactions.len(), 2);
    assert_eq!(c.transactions[0].status, BitcoinTransactionStatus::Success);
    assert_eq!(c.transactions[0].receiver_addresses, vec!["a".to_string(), "b".to_string()]);
    assert_eq!(c.transactions[0].amount, "0");
    let st = BtcTransactionState::from_list(c.transactions);
    assert_eq!(st.transactions.len(), 1);
    assert_eq!(st.transactions[0].status, BitcoinTransactionStatus::Failed);
    assert_eq!(st.transactions[0].fees, "12");
    let missing = obj(vec![("command", s("get_bitcoin_cached_balance")), ("wallet", s("bc1q"))]);
    assert_eq!(cached_balance_response(&missing), Err("Missing balance field".to_string()));
    let missing = obj(vec![("command", s("get_bitcoin_cached_balance"))]);
    assert_eq!(cached_balance_response(&missing), Err("Missing wallet field".to_string()));
    assert_eq!(cached_balance_response(&obj(vec![])), Ok(None));
}

#[test]
fn btc_state_from_an_empty_list() {
    let st = BtcTransactionState::from_list(Vec::<BtcTransactionData>::new());
    assert!(st.transactions.is_empty());
}
