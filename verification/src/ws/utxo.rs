//! Unspent outputs of the Bitcoin wallet, as the backend lists them.

use vstd::prelude::*;
use crate::text::{owned, chars_of, concat, same_text, is_hex_digit};
use crate::json::{Json, json_get, json_u64, str_field, get_str};
use crate::numbers::{parse_bounded, parse_decimal};
use crate::ws::{Failure, FetchProblem, finished};

verus! {

/// An unspent output: transaction id, output index and amount in satoshis.
#[derive(Debug, Clone, PartialEq, Eq)]
pub struct Utxo {
    pub txid: String,
    pub vout: u32,
    pub amount: u64,
}

/// The output that one entry of the list describes, when it has a string
/// `txid`, a non-negative integer `vout` (kept modulo 2^32) and a `value`
/// that reads as a `u64`.
pub open spec fn utxo_entry(e: Json) -> Option<(Seq<char>, u32, u64)> {
    match (str_field(e, "txid"@), json_u64(json_get(e, "vout"@)), str_field(e, "value"@)) {
        (Some(t), Some(v), Some(val)) => match parse_bounded(val, u64::MAX as nat) {
            Some(a) => Some((t, v as u32, a as u64)),
            None => None,
        },
        _ => None,
    }
}

/// The outputs of the entries that describe one, in order.
pub open spec fn utxo_entries(items: Seq<Json>) -> Seq<(Seq<char>, u32, u64)>
    decreases items.len(),
{
    if items.len() == 0 {
        Seq::empty()
    } else {
        let rest = utxo_entries(items.drop_last());
        match utxo_entry(items.last()) {
            Some(u) => rest.push(u),
            None => rest,
        }
    }
}

/// A transaction id is 64 hexadecimal digits.
pub open spec fn valid_txid(t: Seq<char>) -> bool {
    t.len() == 64 && forall|i: int| 0 <= i < t.len() ==> is_hex_digit(#[trigger] t[i])
}

/// The problem with one output: a zero amount, or a malformed id
/// (reported text, returned error).
pub open spec fn utxo_problem(u: (Seq<char>, u32, u64)) -> Option<(Seq<char>, Seq<char>)> {
    if u.2 == 0 {
        Some(("Error: UTXO with zero amount"@, "UTXO with zero amount"@))
    } else if !valid_txid(u.0) {
        Some(("Error: Invalid UTXO txid"@, "Invalid UTXO txid: "@ + u.0))
    } else {
        None
    }
}

/// The problem with the first output that has one.
pub open spec fn first_problem(us: Seq<(Seq<char>, u32, u64)>) -> Option<(Seq<char>, Seq<char>)>
    decreases us.len(),
{
    if us.len() == 0 {
        None
    } else {
        match utxo_problem(us[0]) {
            Some(p) => Some(p),
            None => first_problem(us.drop_first()),
        }
    }
}

/// The error returned when the reply holds no list.
pub open spec fn utxo_failed() -> Seq<char> {
    "Error: Failed to process UTXO data"@
}

/// What a UTXO reply gives: the outputs, or the reported text and the
/// returned error of the first problem: an error from the server, no
/// list, no usable output, or a bad output.
pub open spec fn utxo_result(data: Json) -> Result<Seq<(Seq<char>, u32, u64)>, (Seq<char>, Seq<char>)> {
    let info = json_get(data, "utxo_info"@);
    let server_error = match info {
        Some(i) => str_field(i, "error"@),
        None => None,
    };
    let list = match info {
        Some(i) => json_get(i, "utxos"@),
        None => None,
    };
    match server_error {
        Some(e) => Err((e, "Server error: "@ + e)),
        None => match list {
            Some(Json::Array(items)) => {
                let us = utxo_entries(items@);
                if us.len() == 0 {
                    Err(("Error: No UTXOs found"@, "No UTXOs found"@))
                } else {
                    match first_problem(us) {
                        Some(p) => Err(p),
                        None => Ok(us),
                    }
                }
            },
            _ => Err((utxo_failed(), utxo_failed())),
        },
    }
}

/// The view of an output.
pub open spec fn utxo_view(u: Utxo) -> (Seq<char>, u32, u64) {
    (u.txid@, u.vout, u.amount)
}

fn read_entry(e: &Json) -> (out: Option<Utxo>)
    ensures
        out matches Some(u) ==> utxo_entry(*e) == Some(utxo_view(u)),
        out is None ==> utxo_entry(*e) is None,
{
    let txid = get_str(e, "txid");
    let vout = match e.get("vout") {
        Some(v) => v.as_u64(),
        None => None,
    };
    let value = get_str(e, "value");
    match (txid, vout, value) {
        (Some(t), Some(v), Some(val)) => {
            let cs = chars_of(val);
            match parse_decimal(cs.as_slice(), u64::MAX as u128) {
                Some(a) => Some(Utxo { txid: owned(t), vout: v as u32, amount: a as u64 }),
                None => None,
            }
        },
        _ => None,
    }
}

fn txid_ok(t: &str) -> (b: bool)
    ensures
        b == valid_txid(t@),
{
    let cs = chars_of(t);
    if cs.len() != 64 {
        return false;
    }
    for i in 0..64
        invariant
            cs@ == t@,
            cs@.len() == 64,
            forall|j: int| 0 <= j < i ==> is_hex_digit(#[trigger] cs@[j]),
    {
        let c = cs[i];
        if !(('0' <= c && c <= '9') || ('a' <= c && c <= 'f') || ('A' <= c && c <= 'F')) {
            assert(!is_hex_digit(cs@[i as int]));
            return false;
        }
    }
    true
}

fn failure(reported: String, error: String) -> (f: Failure)
    ensures
        f.progress matches Some(p) && p.percent == 100 && p.message == reported,
        f.error == error,
{
    Failure { progress: Some(finished(reported)), error }
}

/// Reads a UTXO reply (see `utxo_result`); every failure is reported at
/// 100 percent.
pub fn parse_utxo_response(data: &Json) -> (out: Result<Vec<Utxo>, Failure>)
    ensures
        out matches Ok(us) ==> utxo_result(*data) == Ok::<Seq<(Seq<char>, u32, u64)>, (Seq<char>, Seq<char>)>(us@.map_values(|u: Utxo| utxo_view(u))),
        out matches Err(f) ==> (f.progress matches Some(p) && p.percent == 100
            && utxo_result(*data) == Err::<Seq<(Seq<char>, u32, u64)>, (Seq<char>, Seq<char>)>((p.message@, f.error@))),
{
    let info = data.get("utxo_info");
    let server_error = match info {
        Some(i) => get_str(i, "error"),
        None => None,
    };
    if let Some(e) = server_error {
        return Err(failure(owned(e), concat("Server error: ", e)));
    }
    let list = match info {
        Some(i) => i.get("utxos"),
        None => None,
    };
    let items = match list {
        Some(Json::Array(items)) => items,
        _ => {
            return Err(failure(owned("Error: Failed to process UTXO data"), owned("Error: Failed to process UTXO data")));
        },
    };
    let ghost expected = utxo_entries(items@);
    let mut utxos: Vec<Utxo> = Vec::new();
    let n = items.len();
    for i in 0..n
        invariant
            n == items@.len(),
            utxos@.map_values(|u: Utxo| utxo_view(u)) == utxo_entries(items@.take(i as int)),
    {
        let entry = read_entry(&items[i]);
        proof {
            assert(items@.take(i + 1).drop_last() == items@.take(i as int));
            assert(items@.take(i + 1).last() == items@[i as int]);
        }
        match entry {
            Some(u) => {
                let ghost before = utxos@;
                utxos.push(u);
                assert(utxos@.map_values(|u: Utxo| utxo_view(u)) == before.map_values(|u: Utxo| utxo_view(u)).push(utxo_view(u)));
            },
            None => {},
        }
    }
    assert(items@.take(n as int) == items@);
    let ghost views = utxos@.map_values(|u: Utxo| utxo_view(u));
    if utxos.len() == 0 {
        return Err(failure(owned("Error: No UTXOs found"), owned("No UTXOs found")));
    }
    let m = utxos.len();
    assert(views.skip(0) == views);
    assert(utxo_result(*data) == (match first_problem(views) {
        Some(p) => Err(p),
        None => Ok::<Seq<(Seq<char>, u32, u64)>, (Seq<char>, Seq<char>)>(views),
    }));
    for k in 0..m
        invariant
            m == utxos@.len(),
            utxo_result(*data) == (match first_problem(views) {
                Some(p) => Err(p),
                None => Ok::<Seq<(Seq<char>, u32, u64)>, (Seq<char>, Seq<char>)>(views),
            }),
            views == utxos@.map_values(|u: Utxo| utxo_view(u)),
            first_problem(views) == first_problem(views.skip(k as int)),
    {
        let u = &utxos[k];
        let ghost rest = views.skip(k as int);
        assert(rest[0] == utxo_view(*u));
        assert(rest.drop_first() == views.skip(k + 1));
        assert(rest.len() > 0);
        assert(first_problem(rest) == (match utxo_problem(rest[0]) {
            Some(p) => Some(p),
            None => first_problem(rest.drop_first()),
        }));
        if u.amount == 0 {
            return Err(failure(owned("Error: UTXO with zero amount"), owned("UTXO with zero amount")));
        }
        if !txid_ok(u.txid.as_str()) {
            return Err(failure(owned("Error: Invalid UTXO txid"), concat("Invalid UTXO txid: ", u.txid.as_str())));
        }
    }
    assert(views.skip(m as int).len() == 0);
    Ok(utxos)
}

/// A reply to the UTXO request: `Some` with what `parse_utxo_response`
/// gives for replies of command `get_bitcoin_utxo_data`, `None` for others.
pub fn utxo_reply(data: &Json) -> (out: Option<Result<Vec<Utxo>, Failure>>)
    ensures
        str_field(*data, "command"@) != Some("get_bitcoin_utxo_data"@) ==> out is None,
        str_field(*data, "command"@) == Some("get_bitcoin_utxo_data"@) ==> out is Some,
        out matches Some(Ok(us)) ==> utxo_result(*data) == Ok::<Seq<(Seq<char>, u32, u64)>, (Seq<char>, Seq<char>)>(us@.map_values(|u: Utxo| utxo_view(u))),
        out matches Some(Err(f)) ==> (f.progress matches Some(p) && p.percent == 100
            && utxo_result(*data) == Err::<Seq<(Seq<char>, u32, u64)>, (Seq<char>, Seq<char>)>((p.message@, f.error@))),
{
    match get_str(data, "command") {
        Some(c) => if same_text(c, "get_bitcoin_utxo_data") { Some(parse_utxo_response(data)) } else { None },
        None => None,
    }
}

/// The request for the unspent outputs of `address`.
pub fn utxo_request(address: &str) -> (r: crate::ws::Request)
    ensures
        r.command@ == "get_bitcoin_utxo_data"@,
        r.key@ == "address"@,
        r.value@ == address@,
{
    crate::ws::Request { command: owned("get_bitcoin_utxo_data"), key: owned("address"), value: owned(address) }
}

/// The report and the error when the unspent outputs cannot be had.
pub open spec fn utxo_fetch_texts(problem: FetchProblem) -> Seq<char> {
    match problem {
        FetchProblem::RegistryMissing => "Internal Error: Registry not initialized"@,
        FetchProblem::SendFailed => "Error: Unable to fetch UTXO"@,
        FetchProblem::OutgoingMissing => "Internal Error: Outgoing channel not initialized"@,
        FetchProblem::TimedOut => "Timeout waiting for UTXO data"@,
        FetchProblem::NoReply => "Oneshot closed"@,
    }
}

/// The failure when the UTXO request cannot be sent or answered: reported
/// at 100 percent, with the same text as error.
pub fn utxo_fetch_failure(problem: FetchProblem) -> (f: Failure)
    ensures
        f.progress matches Some(p) && p.percent == 100 && p.message@ == utxo_fetch_texts(problem),
        f.error@ == utxo_fetch_texts(problem),
{
    let text = match problem {
        FetchProblem::RegistryMissing => "Internal Error: Registry not initialized",
        FetchProblem::SendFailed => "Error: Unable to fetch UTXO",
        FetchProblem::OutgoingMissing => "Internal Error: Outgoing channel not initialized",
        FetchProblem::TimedOut => "Timeout waiting for UTXO data",
        FetchProblem::NoReply => "Oneshot closed",
    };
    Failure { progress: Some(finished(owned(text))), error: owned(text) }
}

} // verus!
