//! XRP wallet commands: import and deletion, and the transaction request.

use vstd::prelude::*;
use crate::text::{owned, same_text};
use crate::json::{Json, json_get, json_bool, str_field, get_str};
use crate::amounts::{is_float_text, is_float_literal};
use crate::ws::{WSCommand, ProgressUpdate, Request, finished};

verus! {

/// The files of the XRP wallet that a failed import leaves behind.
pub fn cleanup_failed_import() -> (files: Vec<&'static str>)
    ensures
        files@.len() == 2,
        files@[0]@ == "xrp.json"@,
        files@[1]@ == "xrp_encrypt.json"@,
{
    let mut files: Vec<&'static str> = Vec::new();
    files.push("xrp.json");
    files.push("xrp_encrypt.json");
    files
}

/// A request naming the wallet of `cmd`: `command` for the wallet, or
/// `error` when the command names none.
pub fn wallet_request(cmd: &WSCommand, command: &str, error: &str) -> (out: Result<Request, String>)
    ensures
        cmd.wallet matches Some(w) ==> (out matches Ok(r) && r.command@ == command@ && r.key@ == "wallet"@ && r.value@ == w@),
        cmd.wallet is None ==> (out matches Err(e) && e@ == error@),
{
    match &cmd.wallet {
        Some(w) => Ok(Request { command: owned(command), key: owned("wallet"), value: w.clone() }),
        None => Err(owned(error)),
    }
}

/// The text of member `key` when it reads as a number.
pub open spec fn number_text(data: Json, key: Seq<char>) -> Option<Seq<char>> {
    match str_field(data, key) {
        Some(t) => if is_float_text(t) { Some(t) } else { None },
        None => None,
    }
}

fn number_field(data: &Json, key: &str) -> (out: Option<String>)
    ensures
        out matches Some(t) ==> number_text(*data, key@) == Some(t@),
        out is None ==> number_text(*data, key@) is None,
{
    match get_str(data, key) {
        Some(t) => if is_float_literal(t) { Some(owned(t)) } else { None },
        None => None,
    }
}

/// What an import reply says of one issued currency: whether the wallet
/// holds a trust line for it, its balance and its trust-line limit, as the
/// reply writes them when they read as numbers (absent otherwise).
#[derive(Debug, Clone, PartialEq, Eq)]
pub struct AssetReport {
    pub has: bool,
    pub balance: Option<String>,
    pub limit: Option<String>,
}

/// `r` is what `data` says under the three member names.
pub open spec fn is_asset_report(data: Json, has_key: Seq<char>, balance_key: Seq<char>, limit_key: Seq<char>, r: AssetReport) -> bool {
    &&& r.has == (json_bool(json_get(data, has_key)) == Some(true))
    &&& (match r.balance { Some(b) => number_text(data, balance_key) == Some(b@), None => number_text(data, balance_key) is None })
    &&& (match r.limit { Some(l) => number_text(data, limit_key) == Some(l@), None => number_text(data, limit_key) is None })
}

/// Reads what a reply says of one issued currency.
pub fn parse_asset(data: &Json, has_key: &str, balance_key: &str, limit_key: &str) -> (r: AssetReport)
    ensures
        is_asset_report(*data, has_key@, balance_key@, limit_key@, r),
{
    let has = match data.get(has_key) {
        Some(v) => match v.as_bool() {
            Some(b) => b,
            None => false,
        },
        None => false,
    };
    AssetReport { has, balance: number_field(data, balance_key), limit: number_field(data, limit_key) }
}

/// An imported XRP wallet: its address, its balance in drops (when it
/// reads as a number) and what the reply says of RLUSD, EUROP and XSGD.
#[derive(Debug, Clone, PartialEq, Eq)]
pub struct XrpImportReply {
    pub wallet: String,
    pub balance: Option<String>,
    pub rlusd: AssetReport,
    pub euro: AssetReport,
    pub xsgd: AssetReport,
}

/// Reads a reply to the XRP import; `None` when it names no wallet (the
/// wallet files are then removed).
pub fn import_reply(data: &Json) -> (out: Option<XrpImportReply>)
    ensures
        out is None <==> str_field(*data, "wallet"@) is None,
        out matches Some(r) ==> {
            &&& str_field(*data, "wallet"@) == Some(r.wallet@)
            &&& (match r.balance { Some(b) => number_text(*data, "balance"@) == Some(b@), None => number_text(*data, "balance"@) is None })
            &&& is_asset_report(*data, "has_rlusd"@, "rlusd_balance"@, "trustline_limit"@, r.rlusd)
            &&& is_asset_report(*data, "has_euro"@, "euro_balance"@, "trustline_euro_limit"@, r.euro)
            &&& is_asset_report(*data, "has_xsgd"@, "xsgd_balance"@, "trustline_xsgd_limit"@, r.xsgd)
        },
{
    let wallet = match get_str(data, "wallet") {
        Some(w) => owned(w),
        None => return None,
    };
    Some(XrpImportReply {
        wallet,
        balance: number_field(data, "balance"),
        rlusd: parse_asset(data, "has_rlusd", "rlusd_balance", "trustline_limit"),
        euro: parse_asset(data, "has_euro", "euro_balance", "trustline_euro_limit"),
        xsgd: parse_asset(data, "has_xsgd", "xsgd_balance", "trustline_xsgd_limit"),
    })
}

/// The final progress report for a reply about an XRP wallet deletion.
pub fn delete_wallet_report(data: &Json) -> (out: Option<ProgressUpdate>)
    ensures
        str_field(*data, "status"@) == Some("deleted"@) ==> (out matches Some(p) && p.percent == 100 && p.message@ == "Wallet deleted successfully"@),
        str_field(*data, "status"@) != Some("deleted"@) ==> out is None,
{
    let deleted = match get_str(data, "status") {
        Some(s) => same_text(s, "deleted"),
        None => false,
    };
    if deleted { Some(finished(owned("Wallet deleted successfully"))) } else { None }
}

} // verus!
