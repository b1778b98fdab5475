//! The wallet's shared state: views, dialog steps and transaction lists.

use vstd::prelude::*;
use crate::text::same_text;

verus! {

/// The tabs of the main window.
#[derive(Debug, Clone, Copy, PartialEq, Eq)]
pub enum Tab {
    Balance,
    Xrp,
    Btc,
    Rates,
}

/// The colour theme.
#[derive(Debug, Clone, Copy, PartialEq, Eq)]
pub enum Theme {
    Light,
    Dark,
}

/// The views of the balance tab.
#[derive(Debug, Clone, Copy, PartialEq, Eq)]
pub enum BalanceActiveView {
    Main,
    Settings,
    ChangePin,
}

/// The views of the Bitcoin tab.
#[derive(Debug, Clone, Copy, PartialEq, Eq)]
pub enum BtcActiveView {
    Btc,
    Receive,
    Transactions,
    Import,
    Create,
    Send,
}

impl Default for BtcActiveView {
    fn default() -> (v: Self)
        ensures
            v == BtcActiveView::Btc,
    {
        BtcActiveView::Btc
    }
}

/// The views of the XRP tab.
#[derive(Debug, Clone, Copy, PartialEq, Eq)]
pub enum ActiveView {
    Xrp,
    Rlusd,
    Euro,
    Sgd,
    Receive,
    Transactions,
    Import,
    Create,
    Send,
    Trade,
}

impl Default for ActiveView {
    fn default() -> (v: Self)
        ensures
            v == ActiveView::Xrp,
    {
        ActiveView::Xrp
    }
}

/// The view of the Bitcoin tab and the one it was opened from.
#[derive(Debug, Clone, Copy, PartialEq, Eq)]
pub struct BtcModalState {
    pub view_type: BtcActiveView,
    pub last_view: Option<BtcActiveView>,
}

impl Default for BtcModalState {
    fn default() -> (s: Self)
        ensures
            s.view_type == BtcActiveView::Btc,
            s.last_view is None,
    {
        BtcModalState { view_type: BtcActiveView::Btc, last_view: None }
    }
}

/// The view of the XRP tab and the one it was opened from.
#[derive(Debug, Clone, Copy, PartialEq, Eq)]
pub struct XrpModalState {
    pub view_type: ActiveView,
    pub last_view: Option<ActiveView>,
}

impl Default for XrpModalState {
    fn default() -> (s: Self)
        ensures
            s.view_type == ActiveView::Xrp,
            s.last_view is None,
    {
        XrpModalState { view_type: ActiveView::Xrp, last_view: None }
    }
}

/// A payment being prepared in the XRP tab.
#[derive(Debug, Clone, PartialEq, Eq)]
pub struct SignTransaction {
    pub step: u8,
    pub error: Option<String>,
    pub recipient: Option<String>,
    pub amount: Option<String>,
    pub asset: String,
}

/// The payment dialog of the XRP tab, when open.
#[derive(Debug, Clone, PartialEq, Eq)]
pub struct SignTransactionState {
    pub send_transaction: Option<SignTransaction>,
}

/// A payment being prepared in the Bitcoin tab.
#[derive(Debug, Clone, PartialEq, Eq)]
pub struct BtcSignTransaction {
    pub step: u8,
    pub error: Option<String>,
    pub recipient: Option<String>,
    pub amount: Option<String>,
    pub asset: String,
    pub fee: String,
}

/// The payment dialog of the Bitcoin tab, when open.
#[derive(Debug, Clone, PartialEq, Eq)]
pub struct BtcSignTransactionState {
    pub send_transaction: Option<BtcSignTransaction>,
}

/// The state of a wallet import or creation dialog.
#[derive(Debug, Clone, PartialEq, Eq)]
pub struct WalletSetup {
    pub step: u8,
    pub seed: Option<String>,
    pub error: Option<String>,
}

/// The import and creation dialogs of the Bitcoin tab.
#[derive(Debug, Clone, PartialEq, Eq)]
pub struct BtcWalletProcessState {
    pub import_wallet: Option<WalletSetup>,
    pub create_wallet: Option<WalletSetup>,
}

/// The import and creation dialogs of the XRP tab.
#[derive(Debug, Clone, PartialEq, Eq)]
pub struct XrpWalletProcessState {
    pub import_wallet: Option<WalletSetup>,
    pub create_wallet: Option<WalletSetup>,
}

/// The state of an XRP Ledger transaction.
#[derive(Debug, Clone, Copy, PartialEq, Eq)]
pub enum TransactionStatus {
    Success,
    Failed,
    Pending,
    Cancelled,
}

/// The state of a Bitcoin transaction.
#[derive(Debug, Clone, Copy, PartialEq, Eq)]
pub enum BitcoinTransactionStatus {
    Success,
    Failed,
    Pending,
    Cancelled,
}

/// An XRP Ledger transaction of the wallet, as the backend reports it.
#[derive(Debug, Clone, PartialEq, Eq)]
pub struct TransactionData {
    pub tx_id: String,
    pub status: TransactionStatus,
    pub execution_price: String,
    pub order_type: String,
    pub timestamp: String,
    pub amount: String,
    pub currency: String,
    pub fee: String,
    pub flags: Option<String>,
    pub receiver: String,
    pub sender: String,
}

/// A Bitcoin transaction of the wallet, as the backend reports it.
#[derive(Debug, Clone, PartialEq, Eq)]
pub struct BtcTransactionData {
    pub txid: String,
    pub status: BitcoinTransactionStatus,
    pub amount: String,
    pub fees: String,
    pub receiver_addresses: Vec<String>,
    pub sender_addresses: Vec<String>,
    pub timestamp: String,
}

/// A record found by a text id.
pub trait Keyed {
    /// The id of the record.
    spec fn key_of(&self) -> Seq<char>;

    /// The id of the record.
    fn key(&self) -> (k: &str)
        ensures
            k@ == self.key_of();
}

impl Keyed for TransactionData {
    open spec fn key_of(&self) -> Seq<char> {
        self.tx_id@
    }

    fn key(&self) -> (k: &str) {
        self.tx_id.as_str()
    }
}

impl Keyed for BtcTransactionData {
    open spec fn key_of(&self) -> Seq<char> {
        self.txid@
    }

    fn key(&self) -> (k: &str) {
        self.txid.as_str()
    }
}

/// No id occurs twice in `ts`.
pub open spec fn distinct_keys<T: Keyed>(ts: Seq<T>) -> bool {
    forall|i: int, j: int|
        0 <= i < ts.len() && 0 <= j < ts.len() && i != j ==> #[trigger] ts[i].key_of() != #[trigger] ts[j].key_of()
}

/// The record with id `id` in `ts`, if any.
pub open spec fn find_by_key<T: Keyed>(ts: Seq<T>, id: Seq<char>) -> Option<T> {
    if exists|i: int| 0 <= i < ts.len() && ts[i].key_of() == id {
        let i = choose|i: int| 0 <= i < ts.len() && ts[i].key_of() == id;
        Some(ts[i])
    } else {
        None
    }
}

/// Where ids are distinct, the record found by an id is the one with it.
pub proof fn lemma_find_unique<T: Keyed>(ts: Seq<T>, id: Seq<char>, k: int)
    requires
        distinct_keys(ts),
        0 <= k < ts.len(),
        ts[k].key_of() == id,
    ensures
        find_by_key(ts, id) == Some(ts[k]),
{
    assert(exists|i: int| 0 <= i < ts.len() && ts[i].key_of() == id);
}

/// Records `t` in a list of records with distinct ids: it replaces the
/// record with the same id, or is added at the end.
pub fn upsert<T: Keyed>(list: &mut Vec<T>, t: T)
    requires
        distinct_keys(old(list)@),
    ensures
        distinct_keys(final(list)@),
        find_by_key(final(list)@, t.key_of()) == Some(t),
        forall|id: Seq<char>| id != t.key_of() ==> #[trigger] find_by_key(final(list)@, id) == find_by_key(old(list)@, id),
        old(list)@.len() <= final(list)@.len() <= old(list)@.len() + 1,
{
    let n = list.len();
    let mut i: usize = 0;
    while i < n && !same_text(list[i].key(), t.key())
        invariant
            i <= n,
            n == list@.len(),
            list@ == old(list)@,
            forall|j: int| 0 <= j < i ==> list@[j].key_of() != t.key_of(),
        decreases n - i,
    {
        i = i + 1;
    }
    let ghost before = list@;
    let ghost tk = t.key_of();
    if i < n {
        list.set(i, t);
    } else {
        list.push(t);
    }
    proof {
        let after = list@;
        let k = i as int;
        assert(after[k] == t);
        assert(forall|x: int| 0 <= x < after.len() && x != k ==> after[x] == before[x]);
        assert forall|a: int, b: int|
            0 <= a < after.len() && 0 <= b < after.len() && a != b implies
            #[trigger] after[a].key_of() != #[trigger] after[b].key_of() by {
            if a != k && b != k {
                assert(before[a].key_of() != before[b].key_of());
            } else if a == k {
                if k < before.len() {
                    assert(before[k].key_of() != before[b].key_of());
                } else {
                    assert(before[b].key_of() != tk);
                }
            } else {
                if k < before.len() {
                    assert(before[a].key_of() != before[k].key_of());
                } else {
                    assert(before[a].key_of() != tk);
                }
            }
        }
        lemma_find_unique(after, tk, k);
        assert forall|id: Seq<char>| id != tk implies #[trigger] find_by_key(after, id) == find_by_key(before, id) by {
            if exists|x: int| 0 <= x < before.len() && before[x].key_of() == id {
                let x = choose|x: int| 0 <= x < before.len() && before[x].key_of() == id;
                assert(x != k);
                lemma_find_unique(before, id, x);
                lemma_find_unique(after, id, x);
            } else {
                if exists|y: int| 0 <= y < after.len() && after[y].key_of() == id {
                    let y = choose|y: int| 0 <= y < after.len() && after[y].key_of() == id;
                    assert(y != k);
                    assert(after[y] == before[y]);
                }
            }
        }
    }
}

/// The XRP Ledger transactions of the wallet, at most one per id, in the
/// order in which their ids were first seen.
#[derive(Debug, Clone, PartialEq, Eq)]
pub struct TransactionState {
    pub transactions: Vec<TransactionData>,
}

impl TransactionState {
    /// Every id occurs once.
    pub open spec fn well_formed(&self) -> bool {
        distinct_keys(self.transactions@)
    }

    /// The transaction with id `id`, if any.
    pub open spec fn lookup(&self, id: Seq<char>) -> Option<TransactionData> {
        find_by_key(self.transactions@, id)
    }

    /// No transactions.
    pub fn new() -> (s: TransactionState)
        ensures
            s.transactions@.len() == 0,
            s.well_formed(),
    {
        TransactionState { transactions: Vec::new() }
    }

    /// Records `t`: it replaces the transaction with the same id, or is
    /// added after the others.
    pub fn insert(&mut self, t: TransactionData)
        requires
            old(self).well_formed(),
        ensures
            final(self).well_formed(),
            final(self).lookup(t.tx_id@) == Some(t),
            forall|id: Seq<char>| id != t.tx_id@ ==> #[trigger] final(self).lookup(id) == old(self).lookup(id),
    {
        upsert(&mut self.transactions, t);
    }
}

/// The Bitcoin transactions of the wallet, at most one per id.
#[derive(Debug, Clone, PartialEq, Eq)]
pub struct BtcTransactionState {
    pub transactions: Vec<BtcTransactionData>,
}

impl BtcTransactionState {
    /// Every id occurs once.
    pub open spec fn well_formed(&self) -> bool {
        distinct_keys(self.transactions@)
    }

    /// The transaction with id `id`, if any.
    pub open spec fn lookup(&self, id: Seq<char>) -> Option<BtcTransactionData> {
        find_by_key(self.transactions@, id)
    }

    /// The transactions of a list, one per id: of several with the same
    /// id, the last one counts.
    pub fn from_list(list: Vec<BtcTransactionData>) -> (s: BtcTransactionState)
        ensures
            s.well_formed(),
            forall|id: Seq<char>| #[trigger] s.lookup(id) == last_with_key(list@, id),
    {
        let mut out: Vec<BtcTransactionData> = Vec::new();
        let ghost items = list@;
        for t in it: list
            invariant
                it.seq() == items,
                distinct_keys(out@),
                forall|id: Seq<char>| #[trigger] find_by_key(out@, id) == last_with_key(items.take(it.index() as int), id),
        {
            let ghost i = it.index();
            assert(t == items[i as int]);
            upsert(&mut out, t);
            assert(items.take(i + 1).drop_last() == items.take(i as int));
        }
        assert(items.take(items.len() as int) == items);
        BtcTransactionState { transactions: out }
    }
}

/// The last record with id `id` in `ts`, if any.
pub open spec fn last_with_key<T: Keyed>(ts: Seq<T>, id: Seq<char>) -> Option<T>
    decreases ts.len(),
{
    if ts.len() == 0 {
        None
    } else if ts.last().key_of() == id {
        Some(ts.last())
    } else {
        last_with_key(ts.drop_last(), id)
    }
}

} // verus!
