//! Handing a signed transaction to the backend connection.

use vstd::prelude::*;
use crate::text::owned;
use crate::ws::{finished, Failure, ProgressUpdate};

verus! {

/// A signed transaction for the backend:
/// `{"command": "submit_transaction", "wallet": wallet, "tx_type": tx_type,
/// "tx_id": tx_id, "signed_blob": {"tx_blob": tx_blob}}`.
#[derive(Debug, Clone, PartialEq, Eq)]
pub struct Submission {
    pub wallet: String,
    pub tx_type: String,
    pub tx_id: String,
    pub tx_blob: String,
}

/// `uuid::Uuid::new_v4().to_string()`: a random identifier, which uuid
/// writes hyphenated, 36 characters long. Which identifier comes back is
/// left open.
#[verifier::external_body]
fn new_tx_id() -> (id: String)
    ensures
        id@.len() == 36,
{
    uuid::Uuid::new_v4().to_string()
}

/// The submission of `tx_blob` for `wallet`, under a fresh identifier, when
/// the connection to the backend is up (`outgoing_ready`); otherwise the
/// error, with no progress report.
pub fn send_transaction(wallet: &str, tx_type: &str, tx_blob: String, outgoing_ready: bool) -> (out:
    Result<Submission, Failure>)
    ensures
        outgoing_ready ==> (out matches Ok(s) && s.wallet@ == wallet@ && s.tx_type@ == tx_type@
            && s.tx_blob == tx_blob && s.tx_id@.len() == 36),
        !outgoing_ready ==> (out matches Err(f) && f.progress is None
            && f.error@ == "Internal Error: Outgoing channel not initialized"@),
{
    let tx_id = new_tx_id();
    if !outgoing_ready {
        return Err(Failure { progress: None, error: owned("Internal Error: Outgoing channel not initialized") });
    }
    Ok(Submission { wallet: owned(wallet), tx_type: owned(tx_type), tx_id, tx_blob })
}

/// The report once the submission was handed over (`sent`), or the failure
/// when the connection refused it.
pub fn sent_report(sent: bool) -> (out: Result<ProgressUpdate, Failure>)
    ensures
        sent ==> (out matches Ok(p) && p.percent == 70 && p.message@ == "Sending Transaction"@),
        !sent ==> (out matches Err(f) && f.progress matches Some(p) && p.percent == 100
            && p.message@ == "Error: Failed to Send Transaction"@
            && f.error@ == "Error: Failed to Send Transaction"@),
{
    if sent {
        Ok(ProgressUpdate { percent: 70, message: owned("Sending Transaction") })
    } else {
        Err(Failure {
            progress: Some(finished(owned("Error: Failed to Send Transaction"))),
            error: owned("Error: Failed to Send Transaction"),
        })
    }
}

} // verus!
