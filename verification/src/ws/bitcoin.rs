//! Bitcoin commands: checking a payment request, the replies to a
//! submitted transaction, and wallet import and deletion.

use vstd::prelude::*;
use crate::text::{owned, same_text, concat, append_text, chars_of};
use crate::json::{Json, json_get, str_field, get_str};
use crate::numbers::{parse_bounded, parse_decimal};
use crate::ws::{WSCommand, ProgressUpdate, Request, finished};

verus! {

/// What a Bitcoin payment request is checked for, in order: a transaction
/// type, a wallet, a passphrase or a seed, the wallet being the current one
/// (when there is one), and the type being `BTC`.
pub open spec fn validation_of(cmd: WSCommand, current: Seq<char>) -> Result<(Seq<char>, Seq<char>), Seq<char>> {
    match cmd.tx_type {
        None => Err("Missing tx_type"@),
        Some(t) => match cmd.wallet {
            None => Err("Missing wallet"@),
            Some(w) => if cmd.passphrase is None && cmd.seed is None {
                Err("Error: Must provide either passphrase or seed"@)
            } else if current.len() != 0 && w@ != current {
                Err("Wallet mismatch: "@ + w@ + " != "@ + current)
            } else if t@ != "BTC"@ {
                Err("Invalid transaction type for Bitcoin"@)
            } else {
                Ok((t@, w@))
            },
        },
    }
}

/// Checks a Bitcoin payment request against the current wallet. On success
/// the result holds the type, the wallet and an empty passphrase; an error
/// is also the text of the final progress report.
pub fn validate_inputs(cmd: &WSCommand, bitcoin_current_wallet: &str) -> (out: Result<(String, String, String), String>)
    ensures
        out matches Ok(r) ==> validation_of(*cmd, bitcoin_current_wallet@) == Ok::<(Seq<char>, Seq<char>), Seq<char>>((r.0@, r.1@)) && r.2@.len() == 0,
        out matches Err(e) ==> validation_of(*cmd, bitcoin_current_wallet@) == Err::<(Seq<char>, Seq<char>), Seq<char>>(e@),
{
    let tx_type = match &cmd.tx_type {
        Some(t) => t.clone(),
        None => return Err(owned("Missing tx_type")),
    };
    let wallet = match &cmd.wallet {
        Some(w) => w.clone(),
        None => return Err(owned("Missing wallet")),
    };
    if cmd.passphrase.is_none() && cmd.seed.is_none() {
        return Err(owned("Error: Must provide either passphrase or seed"));
    }
    if !bitcoin_current_wallet.is_empty() && !same_text(wallet.as_str(), bitcoin_current_wallet) {
        let mut msg = concat("Wallet mismatch: ", wallet.as_str());
        append_text(&mut msg, " != ");
        append_text(&mut msg, bitcoin_current_wallet);
        return Err(msg);
    }
    if !same_text(tx_type.as_str(), "BTC") {
        return Err(owned("Invalid transaction type for Bitcoin"));
    }
    Ok((tx_type, wallet, String::new()))
}

/// The fee of a payment request: present, and a `u32` in decimal.
pub open spec fn fee_of(cmd: WSCommand) -> Result<Seq<char>, Seq<char>> {
    match cmd.fee {
        None => Err("Error: No transaction fee specified"@),
        Some(f) => if parse_bounded(f@, u32::MAX as nat) is Some {
            Ok(f@)
        } else {
            Err("Error: Invalid transaction fee format"@)
        },
    }
}

/// The fee of a payment request, checked; an error is also the text of the
/// final progress report.
pub fn checked_fee(cmd: &WSCommand) -> (out: Result<String, String>)
    ensures
        out matches Ok(f) ==> fee_of(*cmd) == Ok::<Seq<char>, Seq<char>>(f@),
        out matches Err(e) ==> fee_of(*cmd) == Err::<Seq<char>, Seq<char>>(e@),
{
    let fee = match &cmd.fee {
        Some(f) => f,
        None => return Err(owned("Error: No transaction fee specified")),
    };
    let cs = chars_of(fee.as_str());
    match parse_decimal(cs.as_slice(), u32::MAX as u128) {
        Some(_) => Ok(fee.clone()),
        None => Err(owned("Error: Invalid transaction fee format")),
    }
}

/// The error returned for a reply that cannot be read.
pub open spec fn submit_failed() -> Seq<char> {
    "Error: Transaction validation failed"@
}

/// What a reply about a submitted Bitcoin transaction leads to: a progress
/// report, if any, and the outcome. `None` stands for a reply that is no JSON.
pub open spec fn submit_outcome_of(data: Option<Json>) -> (Option<(u8, Seq<char>)>, Result<(), Seq<char>>) {
    match data {
        None => (Some((100, submit_failed())), Err(submit_failed())),
        Some(d) => {
            let command = str_field(d, "command"@);
            if command == Some("bitcoin_submit_transaction"@) && str_field(d, "status"@) == Some("submitted"@) {
                (Some((80, "Almost There. Awaiting confirmation"@)), Ok(()))
            } else if command == Some("bitcoin_transaction_ack"@) {
                (None, Ok(()))
            } else if command != Some("submit_bitcoin_transaction_response"@) {
                (None, Ok(()))
            } else {
                match json_get(d, "result"@) {
                    None => (Some((100, submit_failed())), Err(submit_failed())),
                    Some(r) => if str_field(r, "status"@) != Some("success"@) {
                        let msg = match json_get(r, "error"@) {
                            Some(e) => match str_field(e, "message"@) {
                                Some(m) => m,
                                None => submit_failed(),
                            },
                            None => submit_failed(),
                        };
                        (Some((100, msg)), Err(msg))
                    } else {
                        (Some((100, "Transaction added to Mempool. Status Pending"@)), Ok(()))
                    },
                }
            }
        },
    }
}

/// The view of an optional progress report.
pub open spec fn report_view(p: Option<ProgressUpdate>) -> Option<(u8, Seq<char>)> {
    match p {
        Some(u) => Some((u.percent, u.message@)),
        None => None,
    }
}

/// The view of an outcome.
pub open spec fn outcome_view(r: Result<(), String>) -> Result<(), Seq<char>> {
    match r {
        Ok(()) => Ok(()),
        Err(e) => Err(e@),
    }
}

fn report(percent: u8, message: &str) -> (p: Option<ProgressUpdate>)
    ensures
        report_view(p) == Some((percent, message@)),
{
    Some(ProgressUpdate { percent, message: owned(message) })
}

/// Reads a reply about a submitted Bitcoin transaction (see
/// `submit_outcome_of`).
pub fn submit_response(data: Option<&Json>) -> (out: (Option<ProgressUpdate>, Result<(), String>))
    ensures
        (report_view(out.0), outcome_view(out.1)) == submit_outcome_of(match data { Some(d) => Some(*d), None => None }),
{
    let d = match data {
        Some(d) => d,
        None => {
            return (report(100, "Error: Transaction validation failed"), Err(owned("Error: Transaction validation failed")));
        },
    };
    let command = get_str(d, "command");
    let submitted = match command {
        Some(c) => same_text(c, "bitcoin_submit_transaction"),
        None => false,
    };
    let status_submitted = match get_str(d, "status") {
        Some(s) => same_text(s, "submitted"),
        None => false,
    };
    if submitted && status_submitted {
        return (report(80, "Almost There. Awaiting confirmation"), Ok(()));
    }
    let is_ack = match command {
        Some(c) => same_text(c, "bitcoin_transaction_ack"),
        None => false,
    };
    if is_ack {
        return (None, Ok(()));
    }
    let is_response = match command {
        Some(c) => same_text(c, "submit_bitcoin_transaction_response"),
        None => false,
    };
    if !is_response {
        return (None, Ok(()));
    }
    let result = match d.get("result") {
        Some(r) => r,
        None => {
            return (report(100, "Error: Transaction validation failed"), Err(owned("Error: Transaction validation failed")));
        },
    };
    let success = match get_str(result, "status") {
        Some(s) => same_text(s, "success"),
        None => false,
    };
    if !success {
        let msg: &str = match result.get("error") {
            Some(e) => match get_str(e, "message") {
                Some(m) => m,
                None => "Error: Transaction validation failed",
            },
            None => "Error: Transaction validation failed",
        };
        return (report(100, msg), Err(owned(msg)));
    }
    (report(100, "Transaction added to Mempool. Status Pending"), Ok(()))
}

/// What a reply about a Bitcoin wallet deletion reports, if anything.
pub open spec fn delete_report_of(data: Json) -> Option<Seq<char>> {
    if str_field(data, "command"@) != Some("delete_bitcoin_wallet"@) {
        None
    } else {
        match str_field(data, "error"@) {
            Some(e) => Some("Failed to delete wallet: "@ + e),
            None => if str_field(data, "status"@) == Some("deleted"@) {
                Some("Wallet deleted successfully"@)
            } else {
                None
            },
        }
    }
}

/// The final progress report for a reply about a Bitcoin wallet deletion.
pub fn delete_wallet_report(data: &Json) -> (out: Option<ProgressUpdate>)
    ensures
        out matches Some(p) ==> p.percent == 100 && delete_report_of(*data) == Some(p.message@),
        out is None ==> delete_report_of(*data) is None,
{
    let is_delete = match get_str(data, "command") {
        Some(c) => same_text(c, "delete_bitcoin_wallet"),
        None => false,
    };
    if !is_delete {
        return None;
    }
    match get_str(data, "error") {
        Some(e) => Some(finished(concat("Failed to delete wallet: ", e))),
        None => {
            let deleted = match get_str(data, "status") {
                Some(s) => same_text(s, "deleted"),
                None => false,
            };
            if deleted { Some(finished(owned("Wallet deleted successfully"))) } else { None }
        },
    }
}

/// The files of the Bitcoin wallet that a failed import leaves behind.
pub fn cleanup_failed_import() -> (files: Vec<&'static str>)
    ensures
        files@.len() == 2,
        files@[0]@ == "btc.json"@,
        files@[1]@ == "btc_encrypt.json"@,
{
    let mut files: Vec<&'static str> = Vec::new();
    files.push("btc.json");
    files.push("btc_encrypt.json");
    files
}

/// The request that imports the Bitcoin wallet of `cmd`, or the reported
/// error when it names none (the wallet files are then removed).
pub fn import_request(cmd: &WSCommand) -> (out: Result<Request, String>)
    ensures
        cmd.wallet matches Some(w) ==> (out matches Ok(r) && r.command@ == "import_bitcoin_wallet"@ && r.key@ == "wallet"@ && r.value@ == w@),
        cmd.wallet is None ==> (out matches Err(e) && e@ == "Error: Bitcoin wallet import failed"@),
{
    match &cmd.wallet {
        Some(w) => Ok(Request { command: owned("import_bitcoin_wallet"), key: owned("wallet"), value: w.clone() }),
        None => Err(owned("Error: Bitcoin wallet import failed")),
    }
}

/// The request that deletes the Bitcoin wallet of `cmd`.
pub fn delete_request(cmd: &WSCommand) -> (out: Result<Request, String>)
    ensures
        cmd.wallet matches Some(w) ==> (out matches Ok(r) && r.command@ == "delete_bitcoin_wallet"@ && r.key@ == "wallet"@ && r.value@ == w@),
        cmd.wallet is None ==> (out matches Err(e) && e@ == "Missing wallet parameter"@),
{
    match &cmd.wallet {
        Some(w) => Ok(Request { command: owned("delete_bitcoin_wallet"), key: owned("wallet"), value: w.clone() }),
        None => Err(owned("Missing wallet parameter")),
    }
}

/// An imported Bitcoin wallet: its address and its balance in satoshis as
/// the reply writes it.
pub open spec fn import_reply_of(data: Json) -> Option<(Seq<char>, Option<Seq<char>>)> {
    match str_field(data, "wallet"@) {
        Some(w) => Some((w, str_field(data, "balance"@))),
        None => None,
    }
}

/// Reads a reply to the Bitcoin import: the wallet and its balance text,
/// or `None` when the reply names no wallet (the files are then removed).
pub fn import_reply(data: &Json) -> (out: Option<(String, Option<String>)>)
    ensures
        out matches Some(r) ==> import_reply_of(*data) == Some((r.0@, match r.1 { Some(b) => Some(b@), None => None })),
        out is None ==> import_reply_of(*data) is None,
{
    match get_str(data, "wallet") {
        Some(w) => {
            let balance = match get_str(data, "balance") {
                Some(b) => Some(owned(b)),
                None => None,
            };
            Some((owned(w), balance))
        },
        None => None,
    }
}

} // verus!
