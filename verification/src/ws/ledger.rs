//! Ledger data (fee and account sequence) for signing XRP transactions.

use vstd::prelude::*;
use crate::text::{owned, chars_of, same_text};
use crate::json::{Json, str_field, get_str};
use crate::numbers::{parse_bounded, parse_decimal};
use crate::ws::{Failure, FetchProblem, finished};

verus! {

/// The error returned for every failure to read ledger data.
pub open spec fn ledger_failed() -> Seq<char> {
    "Error: Failed to process ledger data"@
}

/// What a ledger reply gives: the account sequence and the fee, or the
/// message reported for the first problem found.
pub open spec fn ledger_data_of(data: Json) -> Result<(u32, Seq<char>), Seq<char>> {
    if str_field(data, "error"@) is Some {
        Err("Ledger returned error from server"@)
    } else {
        match str_field(data, "fee"@) {
            None => Err("Ledger response missing 'fee' field"@),
            Some(fee) => match str_field(data, "sequence"@) {
                None => Err("Ledger response missing 'sequence' field"@),
                Some(seq) => match parse_bounded(seq, u64::MAX as nat) {
                    None => Err("Failed to parse sequence number"@),
                    Some(n) => if n <= u32::MAX {
                        Ok((n as u32, fee))
                    } else {
                        Err("Sequence number too large for u32"@)
                    },
                },
            },
        }
    }
}

fn ledger_failure(message: &str) -> (f: Failure)
    ensures
        f.error@ == ledger_failed(),
        f.progress matches Some(p) && p.percent == 100 && p.message@ == message@,
{
    Failure { progress: Some(finished(owned(message))), error: owned("Error: Failed to process ledger data") }
}

/// Reads a ledger reply. A failure is reported at 100 percent with the
/// message of `ledger_data_of` and returns the same error in every case.
pub fn parse_ledger_response(data: &Json) -> (out: Result<(u32, String), Failure>)
    ensures
        out matches Ok(r) ==> ledger_data_of(*data) == Ok::<(u32, Seq<char>), Seq<char>>((r.0, r.1@)),
        out matches Err(f) ==> f.error@ == ledger_failed() && (f.progress matches Some(p) && p.percent == 100
            && ledger_data_of(*data) == Err::<(u32, Seq<char>), Seq<char>>(p.message@)),
{
    if get_str(data, "error").is_some() {
        return Err(ledger_failure("Ledger returned error from server"));
    }
    let fee = match get_str(data, "fee") {
        Some(f) => owned(f),
        None => return Err(ledger_failure("Ledger response missing 'fee' field")),
    };
    let seq = match get_str(data, "sequence") {
        Some(s) => s,
        None => return Err(ledger_failure("Ledger response missing 'sequence' field")),
    };
    let cs = chars_of(seq);
    let n = match parse_decimal(cs.as_slice(), u64::MAX as u128) {
        Some(n) => n,
        None => return Err(ledger_failure("Failed to parse sequence number")),
    };
    if n > u32::MAX as u128 {
        return Err(ledger_failure("Sequence number too large for u32"));
    }
    Ok((n as u32, fee))
}

/// A reply to the ledger request: `Some` with what `parse_ledger_response`
/// gives for replies of command `get_ledger_data`, `None` for others.
pub fn ledger_reply(data: &Json) -> (out: Option<Result<(u32, String), Failure>>)
    ensures
        str_field(*data, "command"@) != Some("get_ledger_data"@) ==> out is None,
        str_field(*data, "command"@) == Some("get_ledger_data"@) ==> out is Some,
        out matches Some(Ok(r)) ==> ledger_data_of(*data) == Ok::<(u32, Seq<char>), Seq<char>>((r.0, r.1@)),
        out matches Some(Err(f)) ==> f.error@ == ledger_failed() && (f.progress matches Some(p) && p.percent == 100
            && ledger_data_of(*data) == Err::<(u32, Seq<char>), Seq<char>>(p.message@)),
{
    match get_str(data, "command") {
        Some(c) => if same_text(c, "get_ledger_data") { Some(parse_ledger_response(data)) } else { None },
        None => None,
    }
}

/// The request for ledger data of `account`.
pub fn ledger_request(account: &str) -> (r: crate::ws::Request)
    ensures
        r.command@ == "get_ledger_data"@,
        r.key@ == "account"@,
        r.value@ == account@,
{
    crate::ws::Request { command: owned("get_ledger_data"), key: owned("account"), value: owned(account) }
}

/// The report and the error when the ledger data cannot be had.
pub open spec fn ledger_fetch_texts(problem: FetchProblem) -> (Seq<char>, Seq<char>) {
    match problem {
        FetchProblem::RegistryMissing => (
            "Internal Error: Registry not initialized"@,
            "Internal Error: Registry not initialized"@,
        ),
        FetchProblem::SendFailed => ("Error: Unable to fetch fee or sequence"@, "Error: Unable to fetch fee or sequence"@),
        FetchProblem::OutgoingMissing => (
            "Internal Error: Outgoing channel not initialized"@,
            "Internal Error: Outgoing channel not initialized"@,
        ),
        FetchProblem::TimedOut => ("Timeout waiting for ledger response"@, "Timeout"@),
        FetchProblem::NoReply => ("Oneshot closed - no response received"@, "Oneshot closed"@),
    }
}

/// The failure when the ledger request cannot be sent or answered: the
/// report at 100 percent and the error of `ledger_fetch_texts`.
pub fn ledger_fetch_failure(problem: FetchProblem) -> (f: Failure)
    ensures
        f.progress matches Some(p) && p.percent == 100 && p.message@ == ledger_fetch_texts(problem).0,
        f.error@ == ledger_fetch_texts(problem).1,
{
    let (report, error) = match problem {
        FetchProblem::RegistryMissing => (
            "Internal Error: Registry not initialized",
            "Internal Error: Registry not initialized",
        ),
        FetchProblem::SendFailed => ("Error: Unable to fetch fee or sequence", "Error: Unable to fetch fee or sequence"),
        FetchProblem::OutgoingMissing => (
            "Internal Error: Outgoing channel not initialized",
            "Internal Error: Outgoing channel not initialized",
        ),
        FetchProblem::TimedOut => ("Timeout waiting for ledger response", "Timeout"),
        FetchProblem::NoReply => ("Oneshot closed - no response received", "Oneshot closed"),
    };
    Failure { progress: Some(finished(owned(report))), error: owned(error) }
}

} // verus!
