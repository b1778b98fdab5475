//! The commands exchanged with the wallet backend over its websocket:
//! the requests the wallet sends and what it makes of the replies.

use vstd::prelude::*;

pub mod balances;
pub mod trustline;
pub mod ledger;
pub mod utxo;
pub mod transactions;
pub mod bitcoin;
pub mod xrp;
pub mod trustset;
pub mod offer_create;
pub mod transaction_sender;

verus! {

/// A progress report for the progress bar: how far an operation has come,
/// in percent, and what it is doing (100 also ends it on an error).
#[derive(Debug, Clone, PartialEq, Eq)]
pub struct ProgressUpdate {
    pub percent: u8,
    pub message: String,
}

/// An operation that failed: the report shown to the user, if any, and the
/// error returned to the caller.
#[derive(Debug, Clone, PartialEq, Eq)]
pub struct Failure {
    pub progress: Option<ProgressUpdate>,
    pub error: String,
}

/// Why a request to the backend got no reply.
#[derive(Debug, Clone, Copy, PartialEq, Eq)]
pub enum FetchProblem {
    /// The reply registry of the connection is not set up.
    RegistryMissing,
    /// The request could not be sent.
    SendFailed,
    /// The outgoing channel of the connection is not set up.
    OutgoingMissing,
    /// No reply came within twenty seconds.
    TimedOut,
    /// The reply channel closed without a reply.
    NoReply,
}

/// A command sent from the user interface to the backend connection.
#[derive(Debug, Clone, PartialEq, Eq)]
pub struct WSCommand {
    pub command: String,
    pub wallet: Option<String>,
    pub recipient: Option<String>,
    pub amount: Option<String>,
    pub passphrase: Option<String>,
    pub trustline_limit: Option<String>,
    pub fee: Option<String>,
    pub tx_type: Option<String>,
    pub taker_pays: Option<(String, String)>,
    pub taker_gets: Option<(String, String)>,
    pub seed: Option<String>,
    pub flags: Option<Vec<String>>,
    pub wallet_type: Option<String>,
    pub bip39: Option<String>,
}

impl WSCommand {
    /// A command with the given name and every other field empty.
    pub fn named(command: String) -> (c: WSCommand)
        ensures
            c.command == command,
            c.wallet is None && c.recipient is None && c.amount is None,
            c.passphrase is None && c.trustline_limit is None && c.fee is None,
            c.tx_type is None && c.taker_pays is None && c.taker_gets is None,
            c.seed is None && c.flags is None && c.wallet_type is None && c.bip39 is None,
    {
        WSCommand {
            command,
            wallet: None,
            recipient: None,
            amount: None,
            passphrase: None,
            trustline_limit: None,
            fee: None,
            tx_type: None,
            taker_pays: None,
            taker_gets: None,
            seed: None,
            flags: None,
            wallet_type: None,
            bip39: None,
        }
    }
}

/// A request to the backend: `{"command": command, <key>: value}`.
#[derive(Debug, Clone, PartialEq, Eq)]
pub struct Request {
    pub command: String,
    pub key: String,
    pub value: String,
}

/// A final report: 100 percent, with `message`.
pub fn finished(message: String) -> (p: ProgressUpdate)
    ensures
        p.percent == 100,
        p.message == message,
{
    ProgressUpdate { percent: 100, message }
}

} // verus!
