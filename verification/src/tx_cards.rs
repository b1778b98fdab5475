//! The cards of the transaction lists: the heading, the amount, the status
//! and the date a card shows, and the details it unfolds.

use vstd::prelude::*;
use crate::crypto::{to_uppercase, unicode_uppercase};
use crate::state::{BitcoinTransactionStatus, BtcTransactionData, TransactionData, TransactionStatus};
use crate::text::{append_text, concat, owned, same_text};
use crate::timestamps::{format_timestamp, timestamp_display};

verus! {

/// What a transaction card shows.
#[derive(Debug, Clone, PartialEq, Eq)]
pub struct TxCard {
    /// The heading: the kind of transaction.
    pub title: String,
    /// The amount with its currency.
    pub amount: String,
    /// The status.
    pub status: String,
    /// The date.
    pub date: String,
    /// The labelled details shown when the card unfolds, in order.
    pub details: Vec<(String, String)>,
}

/// The details of a card by their views.
pub open spec fn detail_views(d: Seq<(String, String)>) -> Seq<(Seq<char>, Seq<char>)> {
    d.map_values(|p: (String, String)| (p.0@, p.1@))
}

/// The status of an XRP Ledger transaction as a card shows it.
pub open spec fn xrp_status_text(s: TransactionStatus) -> Seq<char> {
    match s {
        TransactionStatus::Success => "SUCCESS"@,
        TransactionStatus::Failed => "FAILED"@,
        TransactionStatus::Pending => "PENDING"@,
        TransactionStatus::Cancelled => "CANCELLED"@,
    }
}

/// The status of a Bitcoin transaction as a card shows it.
pub open spec fn btc_status_text(s: BitcoinTransactionStatus) -> Seq<char> {
    match s {
        BitcoinTransactionStatus::Success => "OK"@,
        BitcoinTransactionStatus::Failed => "FAIL"@,
        BitcoinTransactionStatus::Pending => "WAIT"@,
        BitcoinTransactionStatus::Cancelled => "VOID"@,
    }
}

/// The detail `(label, value)` when `value` is not empty.
pub open spec fn unless_empty(label: Seq<char>, value: Seq<char>) -> Seq<(Seq<char>, Seq<char>)> {
    if value.len() > 0 {
        seq![(label, value)]
    } else {
        Seq::empty()
    }
}

/// Whether the kind of a transaction, in upper case, is an offer.
pub open spec fn is_offer_kind(upper: Seq<char>) -> bool {
    upper == "OFFERCREATE"@ || upper == "OFFER_CREATE"@
}

/// The details of an XRP Ledger transaction: its id; its fee; for an
/// offer, the execution price; its sender and receiver; its flags unless
/// they are absent or `---`. Empty values are left out.
pub open spec fn xrp_details(t: TransactionData) -> Seq<(Seq<char>, Seq<char>)> {
    seq![("TX_ID"@, t.tx_id@)] + unless_empty("FEE"@, t.fee@) + (if is_offer_kind(
        unicode_uppercase(t.order_type@),
    ) {
        unless_empty("EXEC_PRICE"@, t.execution_price@)
    } else {
        Seq::empty()
    }) + unless_empty("SENDER"@, t.sender@) + unless_empty("RECEIVER"@, t.receiver@) + (match t.flags {
        Some(f) => if f@ != "---"@ {
            seq![("FLAGS"@, f@)]
        } else {
            Seq::empty()
        },
        None => Seq::empty(),
    })
}

/// The amount an XRP Ledger transaction card shows: the amount and its
/// currency, or the amount alone when there is no currency.
pub open spec fn xrp_amount_text(t: TransactionData) -> Seq<char> {
    if t.currency@.len() > 0 {
        t.amount@ + " "@ + t.currency@
    } else {
        t.amount@
    }
}

fn push_detail(details: &mut Vec<(String, String)>, label: &str, value: &str)
    ensures
        detail_views(final(details)@) == detail_views(old(details)@) + unless_empty(label@, value@),
{
    if !value.is_empty() {
        details.push((owned(label), owned(value)));
        assert(detail_views(details@) =~= detail_views(old(details)@) + seq![(label@, value@)]);
    } else {
        assert(detail_views(details@) =~= detail_views(old(details)@) + Seq::<(Seq<char>, Seq<char>)>::empty());
    }
}

/// The card of an XRP Ledger transaction: its kind, amount, status, time
/// as stored, and details.
pub fn xrp_card(t: &TransactionData) -> (card: TxCard)
    ensures
        card.title@ == t.order_type@,
        card.amount@ == xrp_amount_text(*t),
        card.status@ == xrp_status_text(t.status),
        card.date@ == t.timestamp@,
        detail_views(card.details@) == xrp_details(*t),
{
    let amount = if !t.currency.as_str().is_empty() {
        let mut a = concat(t.amount.as_str(), " ");
        append_text(&mut a, t.currency.as_str());
        a
    } else {
        t.amount.clone()
    };
    let status = match t.status {
        TransactionStatus::Success => owned("SUCCESS"),
        TransactionStatus::Failed => owned("FAILED"),
        TransactionStatus::Pending => owned("PENDING"),
        TransactionStatus::Cancelled => owned("CANCELLED"),
    };
    let mut details: Vec<(String, String)> = Vec::new();
    details.push((owned("TX_ID"), t.tx_id.clone()));
    assert(detail_views(details@) =~= seq![("TX_ID"@, t.tx_id@)]);
    push_detail(&mut details, "FEE", t.fee.as_str());
    let kind = to_uppercase(t.order_type.as_str());
    if same_text(kind.as_str(), "OFFERCREATE") || same_text(kind.as_str(), "OFFER_CREATE") {
        push_detail(&mut details, "EXEC_PRICE", t.execution_price.as_str());
    } else {
        assert(detail_views(details@) =~= detail_views(details@) + Seq::<(Seq<char>, Seq<char>)>::empty());
    }
    push_detail(&mut details, "SENDER", t.sender.as_str());
    push_detail(&mut details, "RECEIVER", t.receiver.as_str());
    let ghost before = detail_views(details@);
    match &t.flags {
        Some(f) => {
            if !same_text(f.as_str(), "---") {
                details.push((owned("FLAGS"), f.clone()));
                assert(detail_views(details@) =~= before + seq![("FLAGS"@, f@)]);
            } else {
                assert(before =~= before + Seq::<(Seq<char>, Seq<char>)>::empty());
            }
        },
        None => {
            assert(before =~= before + Seq::<(Seq<char>, Seq<char>)>::empty());
        },
    }
    TxCard { title: t.order_type.clone(), amount, status, date: t.timestamp.clone(), details }
}

/// The texts of `items` joined with `", "`.
pub open spec fn comma_joined(items: Seq<Seq<char>>) -> Seq<char>
    decreases items.len(),
{
    if items.len() == 0 {
        Seq::empty()
    } else if items.len() == 1 {
        items[0]
    } else {
        comma_joined(items.drop_last()) + ", "@ + items.last()
    }
}

fn join_addresses(items: &Vec<String>) -> (out: String)
    ensures
        out@ == comma_joined(items@.map_values(|s: String| s@)),
{
    let mut out = String::new();
    let mut i: usize = 0;
    while i < items.len()
        invariant
            i <= items@.len(),
            out@ == comma_joined(items@.take(i as int).map_values(|s: String| s@)),
        decreases items@.len() - i,
    {
        let ghost prev = items@.take(i as int).map_values(|s: String| s@);
        let ghost next = items@.take(i + 1).map_values(|s: String| s@);
        proof {
            assert(next.drop_last() =~= prev);
            assert(next.last() == items@[i as int]@);
        }
        if i > 0 {
            append_text(&mut out, ", ");
        } else {
            assert(out@ =~= Seq::<char>::empty());
        }
        append_text(&mut out, items[i].as_str());
        proof {
            if i == 0 {
                assert(next.len() == 1);
                assert(out@ =~= next[0]);
            }
        }
        i = i + 1;
    }
    assert(items@.take(items@.len() as int) == items@);
    out
}

/// The details of a Bitcoin transaction: its id, its fee, its senders and
/// its receivers (each list joined with commas).
pub open spec fn btc_details(t: BtcTransactionData) -> Seq<(Seq<char>, Seq<char>)> {
    seq![
        ("TX_ID"@, t.txid@),
        ("FEE"@, t.fees@),
        ("SENDER"@, comma_joined(t.sender_addresses@.map_values(|s: String| s@))),
        ("RECEIVER"@, comma_joined(t.receiver_addresses@.map_values(|s: String| s@))),
    ]
}

/// The card of a Bitcoin transaction: `BITCOIN`, the amount in BTC, its
/// status, its time as `format_timestamp` shows it, and its details.
pub fn btc_card(t: &BtcTransactionData) -> (card: TxCard)
    ensures
        card.title@ == "BITCOIN"@,
        card.amount@ == t.amount@ + " BTC"@,
        card.status@ == btc_status_text(t.status),
        card.date@ == timestamp_display(t.timestamp@),
        detail_views(card.details@) == btc_details(*t),
{
    let status = match t.status {
        BitcoinTransactionStatus::Success => owned("OK"),
        BitcoinTransactionStatus::Failed => owned("FAIL"),
        BitcoinTransactionStatus::Pending => owned("WAIT"),
        BitcoinTransactionStatus::Cancelled => owned("VOID"),
    };
    let mut details: Vec<(String, String)> = Vec::new();
    details.push((owned("TX_ID"), t.txid.clone()));
    details.push((owned("FEE"), t.fees.clone()));
    details.push((owned("SENDER"), join_addresses(&t.sender_addresses)));
    details.push((owned("RECEIVER"), join_addresses(&t.receiver_addresses)));
    assert(detail_views(details@) =~= btc_details(*t));
    TxCard {
        title: owned("BITCOIN"),
        amount: concat(t.amount.as_str(), " BTC"),
        status,
        date: format_timestamp(t.timestamp.as_str()),
        details,
    }
}

/// A Bitcoin card's status label names the transaction's own status:
/// `OK` exactly for a successful one, `FAIL` exactly for a failed one,
/// `WAIT` exactly for a pending one and `VOID` exactly for a cancelled one.
pub proof fn btc_label_names_status(s: BitcoinTransactionStatus)
    ensures
        (btc_status_text(s) == "OK"@) <==> s == BitcoinTransactionStatus::Success,
        (btc_status_text(s) == "FAIL"@) <==> s == BitcoinTransactionStatus::Failed,
        (btc_status_text(s) == "WAIT"@) <==> s == BitcoinTransactionStatus::Pending,
        (btc_status_text(s) == "VOID"@) <==> s == BitcoinTransactionStatus::Cancelled,
{
    reveal_strlit("OK");
    reveal_strlit("FAIL");
    reveal_strlit("WAIT");
    reveal_strlit("VOID");
    assert("OK"@.len() != "FAIL"@.len() && "OK"@.len() != "WAIT"@.len() && "OK"@.len() != "VOID"@.len());
    assert("FAIL"@[0] != "WAIT"@[0] && "FAIL"@[0] != "VOID"@[0] && "WAIT"@[0] != "VOID"@[0]);
}

/// An XRP Ledger card's status label names the transaction's own status:
/// `SUCCESS`, `FAILED`, `PENDING` and `CANCELLED`, each exactly for the
/// status of that name.
pub proof fn xrp_label_names_status(s: TransactionStatus)
    ensures
        (xrp_status_text(s) == "SUCCESS"@) <==> s == TransactionStatus::Success,
        (xrp_status_text(s) == "FAILED"@) <==> s == TransactionStatus::Failed,
        (xrp_status_text(s) == "PENDING"@) <==> s == TransactionStatus::Pending,
        (xrp_status_text(s) == "CANCELLED"@) <==> s == TransactionStatus::Cancelled,
{
    reveal_strlit("SUCCESS");
    reveal_strlit("FAILED");
    reveal_strlit("PENDING");
    reveal_strlit("CANCELLED");
    assert("SUCCESS"@[0] != "FAILED"@[0] && "SUCCESS"@[0] != "PENDING"@[0] && "SUCCESS"@[0] != "CANCELLED"@[0]);
    assert("FAILED"@[0] != "PENDING"@[0] && "FAILED"@[0] != "CANCELLED"@[0] && "PENDING"@[0] != "CANCELLED"@[0]);
}

} // verus!
