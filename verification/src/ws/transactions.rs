//! Transaction reports from the backend: single XRP Ledger transactions,
//! and the cached Bitcoin balance with its transaction list.

use vstd::prelude::*;
use crate::text::{owned, same_text};
use crate::json::{Json, json_get, str_field, get_str};
use crate::crypto::{unicode_lowercase, to_lowercase};
use crate::state::{TransactionData, TransactionStatus, BtcTransactionData, BitcoinTransactionStatus};

verus! {

/// The text of `v`, or `d` when there is none.
pub open spec fn or_default(v: Option<Seq<char>>, d: Seq<char>) -> Seq<char> {
    match v {
        Some(s) => s,
        None => d,
    }
}

fn field_or(v: &Json, key: &str, d: &str) -> (out: String)
    ensures
        out@ == or_default(str_field(*v, key@), d@),
{
    match get_str(v, key) {
        Some(s) => owned(s),
        None => owned(d),
    }
}

/// The status of an XRP Ledger transaction report.
pub open spec fn xrp_status_of(s: Option<Seq<char>>) -> Option<TransactionStatus> {
    match s {
        Some(t) => if t == "success"@ {
            Some(TransactionStatus::Success)
        } else if t == "failed"@ {
            Some(TransactionStatus::Failed)
        } else if t == "pending"@ {
            Some(TransactionStatus::Pending)
        } else if t == "cancelled"@ {
            Some(TransactionStatus::Cancelled)
        } else {
            None
        },
        None => None,
    }
}

/// `t` is what the report `tx` describes: its `hash`, a known `status`,
/// and the other members, with `0` for a missing price or amount, an empty
/// text for other missing members, and the type in lower case.
pub open spec fn is_transaction_of(tx: Json, t: TransactionData) -> bool {
    &&& str_field(tx, "hash"@) == Some(t.tx_id@)
    &&& xrp_status_of(str_field(tx, "status"@)) == Some(t.status)
    &&& t.execution_price@ == or_default(str_field(tx, "price"@), "0"@)
    &&& t.order_type@ == unicode_lowercase(or_default(str_field(tx, "tx_type"@), ""@))
    &&& t.timestamp@ == or_default(str_field(tx, "timestamp"@), ""@)
    &&& t.amount@ == or_default(str_field(tx, "amount"@), "0"@)
    &&& t.currency@ == or_default(str_field(tx, "currency"@), ""@)
    &&& t.fee@ == or_default(str_field(tx, "fee"@), ""@)
    &&& (match t.flags { Some(f) => str_field(tx, "flags"@) == Some(f@), None => str_field(tx, "flags"@) is None })
    &&& t.receiver@ == or_default(str_field(tx, "receiver"@), ""@)
    &&& t.sender@ == or_default(str_field(tx, "sender"@), ""@)
}

/// A transaction read from a report has the status that the report's
/// `status` member names: `success`, `failed`, `pending` and `cancelled`
/// give the status of that name.
pub proof fn xrp_status_named(tx: Json, t: TransactionData)
    requires
        is_transaction_of(tx, t),
    ensures
        (str_field(tx, "status"@) == Some("success"@)) <==> t.status == TransactionStatus::Success,
        (str_field(tx, "status"@) == Some("failed"@)) <==> t.status == TransactionStatus::Failed,
        (str_field(tx, "status"@) == Some("pending"@)) <==> t.status == TransactionStatus::Pending,
        (str_field(tx, "status"@) == Some("cancelled"@)) <==> t.status == TransactionStatus::Cancelled,
{
    reveal_strlit("success");
    reveal_strlit("failed");
    reveal_strlit("pending");
    reveal_strlit("cancelled");
    assert("success"@ != "failed"@ && "success"@ != "pending"@ && "success"@ != "cancelled"@) by {
        assert("success"@[0] != "failed"@[0] && "success"@[0] != "pending"@[0] && "success"@[0] != "cancelled"@[0]);
    }
    assert("failed"@ != "pending"@ && "failed"@ != "cancelled"@ && "pending"@ != "cancelled"@) by {
        assert("failed"@[0] != "pending"@[0] && "failed"@[0] != "cancelled"@[0] && "pending"@[0] != "cancelled"@[0]);
    }
}

/// A report with a `hash` and one of the four status names is read.
pub proof fn xrp_report_with_known_status_is_read(tx: Json)
    requires
        str_field(tx, "hash"@) is Some,
        str_field(tx, "status"@) == Some("success"@) || str_field(tx, "status"@) == Some("failed"@)
            || str_field(tx, "status"@) == Some("pending"@) || str_field(tx, "status"@) == Some("cancelled"@),
    ensures
        xrp_status_of(str_field(tx, "status"@)) is Some,
{
}

/// A Bitcoin transaction read from a report has the status that the
/// report's `status` member names: `confirmed` and `success` give
/// `Success`, `failed`, `pending` and `cancelled` the status of that name.
pub proof fn btc_status_named(tx: Json, t: BtcTransactionData)
    requires
        is_btc_transaction_of(tx, t),
    ensures
        (str_field(tx, "status"@) == Some("success"@) || str_field(tx, "status"@) == Some("confirmed"@))
            <==> t.status == BitcoinTransactionStatus::Success,
        (str_field(tx, "status"@) == Some("failed"@)) <==> t.status == BitcoinTransactionStatus::Failed,
        (str_field(tx, "status"@) == Some("pending"@)) <==> t.status == BitcoinTransactionStatus::Pending,
        (str_field(tx, "status"@) == Some("cancelled"@)) <==> t.status == BitcoinTransactionStatus::Cancelled,
{
    reveal_strlit("success");
    reveal_strlit("confirmed");
    reveal_strlit("failed");
    reveal_strlit("pending");
    reveal_strlit("cancelled");
    assert("success"@ != "failed"@ && "success"@ != "pending"@ && "success"@ != "cancelled"@) by {
        assert("success"@[0] != "failed"@[0] && "success"@[0] != "pending"@[0] && "success"@[0] != "cancelled"@[0]);
    }
    assert("confirmed"@ != "failed"@ && "confirmed"@ != "pending"@ && "confirmed"@ != "cancelled"@) by {
        assert("confirmed"@[0] != "failed"@[0] && "confirmed"@[0] != "pending"@[0] && "confirmed"@[1] != "cancelled"@[1]);
    }
    assert("failed"@ != "pending"@ && "failed"@ != "cancelled"@ && "pending"@ != "cancelled"@) by {
        assert("failed"@[0] != "pending"@[0] && "failed"@[0] != "cancelled"@[0] && "pending"@[0] != "cancelled"@[0]);
    }
}

fn xrp_status(s: Option<&str>) -> (out: Option<TransactionStatus>)
    ensures
        out == xrp_status_of(match s { Some(t) => Some(t@), None => None }),
{
    match s {
        Some(t) => if same_text(t, "success") {
            Some(TransactionStatus::Success)
        } else if same_text(t, "failed") {
            Some(TransactionStatus::Failed)
        } else if same_text(t, "pending") {
            Some(TransactionStatus::Pending)
        } else if same_text(t, "cancelled") {
            Some(TransactionStatus::Cancelled)
        } else {
            None
        },
        None => None,
    }
}

/// Reads one XRP Ledger transaction report; nothing without a `hash` or
/// with an unknown `status`.
pub fn parse_tx(tx: &Json) -> (out: Option<TransactionData>)
    ensures
        out matches Some(t) ==> is_transaction_of(*tx, t),
        out is None ==> str_field(*tx, "hash"@) is None || xrp_status_of(str_field(*tx, "status"@)) is None,
{
    let tx_id = match get_str(tx, "hash") {
        Some(h) => owned(h),
        None => return None,
    };
    let status = match xrp_status(get_str(tx, "status")) {
        Some(s) => s,
        None => return None,
    };
    let kind = field_or(tx, "tx_type", "");
    let flags = match get_str(tx, "flags") {
        Some(f) => Some(owned(f)),
        None => None,
    };
    let t = TransactionData {
        tx_id,
        status,
        execution_price: field_or(tx, "price", "0"),
        order_type: to_lowercase(kind.as_str()),
        timestamp: field_or(tx, "timestamp", ""),
        amount: field_or(tx, "amount", "0"),
        currency: field_or(tx, "currency", ""),
        fee: field_or(tx, "fee", ""),
        flags,
        receiver: field_or(tx, "receiver", ""),
        sender: field_or(tx, "sender", ""),
    };
    Some(t)
}

/// Reads a reply to the transaction request: nothing for other commands,
/// an error without a `transaction` member, nothing for a `null` or
/// unusable transaction, else the transaction to record.
pub fn transaction_response(data: &Json) -> (out: Result<Option<TransactionData>, String>)
    ensures
        str_field(*data, "command"@) != Some("get_transaction"@) ==> out matches Ok(None),
        str_field(*data, "command"@) == Some("get_transaction"@) ==> match json_get(*data, "transaction"@) {
            None => out matches Err(e) && e@ == "Missing transaction field"@,
            Some(Json::Null) => out matches Ok(None),
            Some(tx) => match out {
                Ok(Some(t)) => is_transaction_of(tx, t),
                Ok(None) => str_field(tx, "hash"@) is None || xrp_status_of(str_field(tx, "status"@)) is None,
                Err(_) => false,
            },
        },
{
    match get_str(data, "command") {
        Some(c) => if !same_text(c, "get_transaction") {
            return Ok(None);
        },
        None => return Ok(None),
    }
    match data.get("transaction") {
        None => Err(owned("Missing transaction field")),
        Some(tx) => if tx.is_null() {
            Ok(None)
        } else {
            Ok(parse_tx(tx))
        },
    }
}

/// The status of a Bitcoin transaction report.
pub open spec fn btc_status_of(s: Option<Seq<char>>) -> Option<BitcoinTransactionStatus> {
    match s {
        Some(t) => if t == "pending"@ {
            Some(BitcoinTransactionStatus::Pending)
        } else if t == "confirmed"@ || t == "success"@ {
            Some(BitcoinTransactionStatus::Success)
        } else if t == "failed"@ {
            Some(BitcoinTransactionStatus::Failed)
        } else if t == "cancelled"@ {
            Some(BitcoinTransactionStatus::Cancelled)
        } else {
            None
        },
        None => None,
    }
}

/// The string elements of a list, in order.
pub open spec fn string_items(items: Seq<Json>) -> Seq<Seq<char>>
    decreases items.len(),
{
    if items.len() == 0 {
        Seq::empty()
    } else {
        let rest = string_items(items.drop_last());
        match items.last() {
            Json::Str(s) => rest.push(s@),
            _ => rest,
        }
    }
}

/// The strings of member `key` when it is a list (none otherwise).
pub open spec fn string_list(v: Json, key: Seq<char>) -> Seq<Seq<char>> {
    match json_get(v, key) {
        Some(Json::Array(items)) => string_items(items@),
        _ => Seq::empty(),
    }
}

/// The texts of a list of strings.
pub open spec fn texts(v: Seq<String>) -> Seq<Seq<char>> {
    Seq::new(v.len(), |i: int| v[i]@)
}

fn strings_of(v: &Json, key: &str) -> (out: Vec<String>)
    ensures
        texts(out@) == string_list(*v, key@),
{
    let mut out: Vec<String> = Vec::new();
    match v.get(key) {
        Some(Json::Array(items)) => {
            let n = items.len();
            for i in 0..n
                invariant
                    n == items@.len(),
                    texts(out@) == string_items(items@.take(i as int)),
            {
                proof {
                    assert(items@.take(i + 1).drop_last() == items@.take(i as int));
                    assert(items@.take(i + 1).last() == items@[i as int]);
                }
                match &items[i] {
                    Json::Str(s) => {
                        out.push(s.clone());
                        assert(texts(out@) =~= string_items(items@.take(i as int)).push(s@));
                    },
                    _ => {},
                }
            }
            assert(items@.take(n as int) == items@);
        },
        _ => {
            assert(texts(out@) =~= Seq::<Seq<char>>::empty());
        },
    }
    out
}

/// `t` is what the Bitcoin report `tx` describes.
pub open spec fn is_btc_transaction_of(tx: Json, t: BtcTransactionData) -> bool {
    &&& str_field(tx, "txid"@) == Some(t.txid@)
    &&& btc_status_of(str_field(tx, "status"@)) == Some(t.status)
    &&& t.amount@ == or_default(str_field(tx, "amount"@), "0"@)
    &&& t.fees@ == or_default(str_field(tx, "fees"@), "0"@)
    &&& texts(t.receiver_addresses@) == string_list(tx, "receiver_addresses"@)
    &&& texts(t.sender_addresses@) == string_list(tx, "sender_addresses"@)
    &&& t.timestamp@ == or_default(str_field(tx, "timestamp"@), ""@)
}

/// The Bitcoin report `tx` describes a transaction: it has a `txid` and a
/// known `status`.
pub open spec fn is_btc_report(tx: Json) -> bool {
    str_field(tx, "txid"@) is Some && btc_status_of(str_field(tx, "status"@)) is Some
}

fn btc_status(s: Option<&str>) -> (out: Option<BitcoinTransactionStatus>)
    ensures
        out == btc_status_of(match s { Some(t) => Some(t@), None => None }),
{
    match s {
        Some(t) => if same_text(t, "pending") {
            Some(BitcoinTransactionStatus::Pending)
        } else if same_text(t, "confirmed") || same_text(t, "success") {
            Some(BitcoinTransactionStatus::Success)
        } else if same_text(t, "failed") {
            Some(BitcoinTransactionStatus::Failed)
        } else if same_text(t, "cancelled") {
            Some(BitcoinTransactionStatus::Cancelled)
        } else {
            None
        },
        None => None,
    }
}

/// Reads one Bitcoin transaction report.
pub fn parse_btc_tx(tx: &Json) -> (out: Option<BtcTransactionData>)
    ensures
        out matches Some(t) ==> is_btc_transaction_of(*tx, t),
        out is None <==> !is_btc_report(*tx),
{
    let txid = match get_str(tx, "txid") {
        Some(h) => owned(h),
        None => return None,
    };
    let status = match btc_status(get_str(tx, "status")) {
        Some(s) => s,
        None => return None,
    };
    Some(BtcTransactionData {
        txid,
        status,
        amount: field_or(tx, "amount", "0"),
        fees: field_or(tx, "fees", "0"),
        receiver_addresses: strings_of(tx, "receiver_addresses"),
        sender_addresses: strings_of(tx, "sender_addresses"),
        timestamp: field_or(tx, "timestamp", ""),
    })
}

/// The reports of a list that describe transactions, in order.
pub open spec fn btc_reports(items: Seq<Json>) -> Seq<Json>
    decreases items.len(),
{
    if items.len() == 0 {
        Seq::empty()
    } else {
        let rest = btc_reports(items.drop_last());
        if is_btc_report(items.last()) { rest.push(items.last()) } else { rest }
    }
}

/// The cached Bitcoin balance of a wallet: the wallet, the balance in
/// satoshis as the reply writes it, and the transactions in reply order.
#[derive(Debug, Clone, PartialEq, Eq)]
pub struct CachedBalance {
    pub wallet: String,
    pub raw_balance: String,
    pub transactions: Vec<BtcTransactionData>,
}

/// The transaction reports of a cached-balance reply (none without a list).
pub open spec fn reported_transactions(data: Json) -> Seq<Json> {
    match json_get(data, "transaction"@) {
        Some(Json::Array(items)) => btc_reports(items@),
        _ => Seq::empty(),
    }
}

/// Reads a cached-balance reply: nothing for other commands, an error
/// without a wallet or a balance, else the balance and the transactions
/// that the reports describe.
pub fn cached_balance_response(data: &Json) -> (out: Result<Option<CachedBalance>, String>)
    ensures
        str_field(*data, "command"@) != Some("get_bitcoin_cached_balance"@) ==> out matches Ok(None),
        str_field(*data, "command"@) == Some("get_bitcoin_cached_balance"@) ==> match str_field(*data, "wallet"@) {
            None => out matches Err(e) && e@ == "Missing wallet field"@,
            Some(w) => match str_field(*data, "balance"@) {
                None => out matches Err(e) && e@ == "Missing balance field"@,
                Some(b) => out matches Ok(Some(c)) && c.wallet@ == w && c.raw_balance@ == b
                    && c.transactions@.len() == reported_transactions(*data).len()
                    && forall|i: int| 0 <= i < c.transactions@.len() ==>
                        is_btc_transaction_of(#[trigger] reported_transactions(*data)[i], c.transactions@[i]),
            },
        },
{
    match get_str(data, "command") {
        Some(c) => if !same_text(c, "get_bitcoin_cached_balance") {
            return Ok(None);
        },
        None => return Ok(None),
    }
    let wallet = match get_str(data, "wallet") {
        Some(w) => owned(w),
        None => return Err(owned("Missing wallet field")),
    };
    let raw_balance = match get_str(data, "balance") {
        Some(b) => owned(b),
        None => return Err(owned("Missing balance field")),
    };
    let mut transactions: Vec<BtcTransactionData> = Vec::new();
    match data.get("transaction") {
        Some(Json::Array(items)) => {
            let n = items.len();
            assert(items@.take(0) =~= Seq::<Json>::empty());
            let mut i: usize = 0;
            while i < n
                invariant
                    i <= n,
                    n == items@.len(),
                    transactions@.len() == btc_reports(items@.take(i as int)).len(),
                    forall|k: int| 0 <= k < transactions@.len() ==>
                        is_btc_transaction_of(#[trigger] btc_reports(items@.take(i as int))[k], transactions@[k]),
                decreases n - i,
            {
                proof {
                    assert(items@.take(i + 1).drop_last() == items@.take(i as int));
                    assert(items@.take(i + 1).last() == items@[i as int]);
                }
                let parsed = parse_btc_tx(&items[i]);
                match parsed {
                    Some(t) => {
                        assert(btc_reports(items@.take(i + 1)) == btc_reports(items@.take(i as int)).push(items@[i as int]));
                        let ghost before = transactions@;
                        transactions.push(t);
                        assert forall|k: int| 0 <= k < transactions@.len() implies
                            is_btc_transaction_of(#[trigger] btc_reports(items@.take(i + 1))[k], transactions@[k]) by {
                            if k < before.len() {
                                assert(transactions@[k] == before[k]);
                                assert(btc_reports(items@.take(i + 1))[k] == btc_reports(items@.take(i as int))[k]);
                                assert(is_btc_transaction_of(btc_reports(items@.take(i as int))[k], before[k]));
                            } else {
                                assert(k == before.len());
                                assert(transactions@[k] == t);
                                assert(btc_reports(items@.take(i + 1))[k] == items@[i as int]);
                            }
                        }
                    },
                    None => {
                        assert(btc_reports(items@.take(i + 1)) == btc_reports(items@.take(i as int)));
                    },
                }
                i = i + 1;
            }
            assert(items@.take(n as int) == items@);
        },
        _ => {},
    }
    Ok(Some(CachedBalance { wallet, raw_balance, transactions }))
}

} // verus!
