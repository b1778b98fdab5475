use dannesk::state::{BitcoinTransactionStatus, BtcTransactionData, TransactionData, TransactionStatus};
use dannesk::tx_cards::{btc_card, xrp_card};

fn pairs(ps: &[(&str, &str)]) -> Vec<(String, String)> {
    ps.iter().map(|(a, b)| (a.to_string(), b.to_string())).collect()
}

fn offer() -> TransactionData {
    TransactionData {
        tx_id: "ABC".to_string(),
        status: TransactionStatus::Pending,
        execution_price: "0.52".to_string(),
        order_type: "OfferCreate".to_string(),
        timestamp: "2025-01-01T00:00:00Z".to_string(),
        amount: "10".to_string(),
        currency: "XRP".to_string(),
        fee: "12".to_string(),
        flags: Some("tfSell".to_string()),
        receiver: "".to_string(),
        sender: "rSender".to_string(),
    }
}

#[test]
fn offer_cards_show_the_execution_price() {
    let c = xrp_card(&offer());
    assert_eq!(c.title, "OfferCreate");
    assert_eq!(c.amount, "10 XRP");
    assert_eq!(c.status, "PENDING");
    assert_eq!(c.date, "2025-01-01T00:00:00Z");
    assert_eq!(
        c.details,
        pairs(&[("TX_ID", "ABC"), ("FEE", "12"), ("EXEC_PRICE", "0.52"), ("SENDER", "rSender"), ("FLAGS", "tfSell")])
    );
}

#[test]
fn payment_cards_leave_out_empty_values() {
    let mut t = offer();
    t.order_type = "Payment".to_string();
    t.currency = String::new();
    t.fee = String::new();
    t.flags = Some("---".to_string());
    t.receiver = "rReceiver".to_string();
    t.status = TransactionStatus::Success;
    let c = xrp_card(&t);
    assert_eq!(c.amount, "10");
    assert_eq!(c.status, "SUCCESS");
    assert_eq!(c.details, pairs(&[("TX_ID", "ABC"), ("SENDER", "rSender"), ("RECEIVER", "rReceiver")]));
    t.flags = None;
    t.order_type = "offer_create".to_string();
    let c = xrp_card(&t);
    assert_eq!(c.details[1], ("EXEC_PRICE".to_string(), "0.52".to_string()));
}

#[test]
fn bitcoin_cards_join_addresses() {
    let t = BtcTransactionData {
        txid: "T1".to_string(),
        status: BitcoinTransactionStatus::Cancelled,
        amount: "0.001".to_string(),
        fees: "150".to_string(),
        receiver_addresses: vec!["bc1a".to_string(), "bc1b".to_string()],
        sender_addresses: vec![],
        timestamp: "1431648000".to_string(),
    };
    let c = btc_card(&t);
    assert_eq!(c.title, "BITCOIN");
    assert_eq!(c.amount, "0.001 BTC");
    assert_eq!(c.status, "VOID");
    assert_eq!(c.date, "2015-05-15 00:00");
    assert_eq!(c.details, pairs(&[("TX_ID", "T1"), ("FEE", "150"), ("SENDER", ""), ("RECEIVER", "bc1a, bc1b")]));
}
