//! The steps of creating a wallet once its keys are derived: the encrypted
//! credentials are saved, then the wallet's metadata (removing the
//! credentials again when that fails), and only then is the backend asked
//! to import the wallet. Each step is a decision on the outcome of the
//! previous one; the caller performs the actions.

use vstd::prelude::*;
use crate::text::{concat, owned};
use crate::ws::{finished, ProgressUpdate, WSCommand};
use crate::bridge::StoredCredentials;

verus! {

/// The chain of the wallet being created.
#[derive(Debug, Clone, Copy, PartialEq, Eq)]
pub enum Chain {
    Xrp,
    Btc,
}

/// Where a creation stands.
#[derive(Debug, Clone, PartialEq, Eq)]
pub enum CreateStep {
    /// The keys are being derived and the mnemonic encrypted.
    Deriving,
    /// The encrypted credentials of this address are being saved.
    SavingEncrypted(String),
    /// The metadata of this address are being saved.
    SavingMetadata(String),
    /// The backend was asked to import the wallet.
    Finished,
    /// The creation stopped on an error.
    Failed,
}

/// What the caller reports back.
#[derive(Debug, Clone, PartialEq, Eq)]
pub enum CreateEvent {
    /// The derivation ended with the wallet's address, and the mnemonic
    /// was encrypted with the encryption passphrase: the credentials to be
    /// stored.
    Derived(StoredCredentials),
    /// The derivation (or the encryption) failed, with this text.
    DeriveFailed(String),
    /// The derivation's task itself failed, with this text.
    Crashed(String),
    /// The file was written.
    Written,
    /// The file could not be written, with this text.
    WriteFailed(String),
}

/// What the caller does next.
#[derive(Debug, Clone, PartialEq, Eq)]
pub enum CreateAction {
    /// Show this progress report.
    Report(ProgressUpdate),
    /// Save the credentials (address, encrypted phrase, salt and IV) in
    /// `file`.
    WriteEncrypted { file: String, credentials: StoredCredentials },
    /// Save `{"address": address, "private_key_deleted": false}` in `file`.
    WriteMetadata { file: String, address: String },
    /// Remove `file`.
    Remove(String),
    /// Send this command to the backend.
    Send(WSCommand),
    /// Leave the creation form and show the wallet.
    ShowWallet,
}

/// The first report of a creation.
pub open spec fn start_text(chain: Chain) -> Seq<char> {
    match chain {
        Chain::Xrp => "Deriving XRP Wallet..."@,
        Chain::Btc => "Finalizing wallet creation..."@,
    }
}

/// The file of the encrypted credentials.
pub open spec fn encrypted_file(chain: Chain) -> Seq<char> {
    match chain {
        Chain::Xrp => "xrp_encrypt.json"@,
        Chain::Btc => "btc_encrypt.json"@,
    }
}

/// The file of the wallet's metadata.
pub open spec fn metadata_file(chain: Chain) -> Seq<char> {
    match chain {
        Chain::Xrp => "xrp.json"@,
        Chain::Btc => "btc.json"@,
    }
}

/// The error report when the credentials cannot be saved.
pub open spec fn encrypted_error(chain: Chain, e: Seq<char>) -> Seq<char> {
    match chain {
        Chain::Xrp => "FS Error: "@ + e,
        Chain::Btc => "FS Error (Encrypt): "@ + e,
    }
}

/// The error report when the metadata cannot be saved.
pub open spec fn metadata_error(chain: Chain, e: Seq<char>) -> Seq<char> {
    match chain {
        Chain::Xrp => "Metadata Error: "@ + e,
        Chain::Btc => "FS Error (Metadata): "@ + e,
    }
}

/// The error report when the derivation's task failed.
pub open spec fn crash_error(chain: Chain, e: Seq<char>) -> Seq<char> {
    match chain {
        Chain::Xrp => "Thread panic"@,
        Chain::Btc => "Internal Thread Error: "@ + e,
    }
}

/// The command that imports the created wallet.
pub open spec fn import_command(chain: Chain) -> Seq<char> {
    match chain {
        Chain::Xrp => "import_wallet"@,
        Chain::Btc => "import_bitcoin_wallet"@,
    }
}

/// `a` reports `percent` with `message`.
pub open spec fn reports(a: CreateAction, percent: u8, message: Seq<char>) -> bool {
    a matches CreateAction::Report(p) && p.percent == percent && p.message@ == message
}

/// `c` asks the backend to import the wallet of `address` on `chain`.
pub open spec fn is_import(c: WSCommand, chain: Chain, address: Seq<char>) -> bool {
    &&& c.command@ == import_command(chain)
    &&& c.wallet matches Some(w) && w@ == address
    &&& c.recipient is None && c.amount is None && c.passphrase is None
    &&& c.trustline_limit is None && c.fee is None && c.tx_type is None
    &&& c.taker_pays is None && c.taker_gets is None && c.seed is None
    &&& c.flags is None && c.wallet_type is None && c.bip39 is None
}

/// One step of a creation: from `step`, on `event`, to `next` with
/// `actions`. An event that does not belong to the step changes nothing.
pub open spec fn create_transition(
    chain: Chain,
    step: CreateStep,
    event: CreateEvent,
    next: CreateStep,
    actions: Seq<CreateAction>,
) -> bool {
    match step {
        CreateStep::Deriving => match event {
            CreateEvent::Derived(c) => {
                &&& next matches CreateStep::SavingEncrypted(a) && a@ == c.address@
                &&& actions.len() == 2
                &&& reports(actions[0], 50, "Saving encrypted credentials..."@)
                &&& actions[1] matches CreateAction::WriteEncrypted { file, credentials }
                    && file@ == encrypted_file(chain) && credentials == c
            },
            CreateEvent::DeriveFailed(e) => {
                &&& next == CreateStep::Failed
                &&& actions.len() == 1
                &&& reports(actions[0], 100, e@)
            },
            CreateEvent::Crashed(e) => {
                &&& next == CreateStep::Failed
                &&& actions.len() == 1
                &&& reports(actions[0], 100, crash_error(chain, e@))
            },
            _ => next == step && actions.len() == 0,
        },
        CreateStep::SavingEncrypted(address) => match event {
            CreateEvent::Written => {
                &&& next matches CreateStep::SavingMetadata(a) && a@ == address@
                &&& actions.len() == 1
                &&& actions[0] matches CreateAction::WriteMetadata { file, address: a }
                    && file@ == metadata_file(chain) && a@ == address@
            },
            CreateEvent::WriteFailed(e) => {
                &&& next == CreateStep::Failed
                &&& actions.len() == 1
                &&& reports(actions[0], 100, encrypted_error(chain, e@))
            },
            _ => next == step && actions.len() == 0,
        },
        CreateStep::SavingMetadata(address) => match event {
            CreateEvent::Written => {
                &&& next == CreateStep::Finished
                &&& actions.len() == 2
                &&& actions[0] matches CreateAction::Send(c) && is_import(c, chain, address@)
                &&& actions[1] == CreateAction::ShowWallet
            },
            CreateEvent::WriteFailed(e) => {
                &&& next == CreateStep::Failed
                &&& actions.len() == 2
                &&& actions[0] matches CreateAction::Remove(f) && f@ == encrypted_file(chain)
                &&& reports(actions[1], 100, metadata_error(chain, e@))
            },
            _ => next == step && actions.len() == 0,
        },
        _ => next == step && actions.len() == 0,
    }
}

fn report(percent: u8, message: String) -> (a: CreateAction)
    ensures
        reports(a, percent, message@),
{
    CreateAction::Report(ProgressUpdate { percent, message })
}

fn encrypted_file_name(chain: Chain) -> (f: String)
    ensures
        f@ == encrypted_file(chain),
{
    match chain {
        Chain::Xrp => owned("xrp_encrypt.json"),
        Chain::Btc => owned("btc_encrypt.json"),
    }
}

/// The first step of a creation, and its report.
pub fn start_creation(chain: Chain) -> (out: (CreateStep, Vec<CreateAction>))
    ensures
        out.0 == CreateStep::Deriving,
        out.1@.len() == 1,
        reports(out.1@[0], 0, start_text(chain)),
{
    let text = match chain {
        Chain::Xrp => owned("Deriving XRP Wallet..."),
        Chain::Btc => owned("Finalizing wallet creation..."),
    };
    let mut actions: Vec<CreateAction> = Vec::new();
    actions.push(report(0, text));
    (CreateStep::Deriving, actions)
}

/// The next step of a creation, and what to do.
pub fn create_next(chain: Chain, step: CreateStep, event: CreateEvent) -> (out: (CreateStep, Vec<CreateAction>))
    ensures
        create_transition(chain, step, event, out.0, out.1@),
{
    let mut actions: Vec<CreateAction> = Vec::new();
    match step {
        CreateStep::Deriving => match event {
            CreateEvent::Derived(c) => {
                let address = c.address.clone();
                actions.push(report(50, owned("Saving encrypted credentials...")));
                actions.push(CreateAction::WriteEncrypted { file: encrypted_file_name(chain), credentials: c });
                (CreateStep::SavingEncrypted(address), actions)
            },
            CreateEvent::DeriveFailed(e) => {
                actions.push(CreateAction::Report(finished(e)));
                (CreateStep::Failed, actions)
            },
            CreateEvent::Crashed(e) => {
                let text = match chain {
                    Chain::Xrp => owned("Thread panic"),
                    Chain::Btc => concat("Internal Thread Error: ", e.as_str()),
                };
                actions.push(report(100, text));
                (CreateStep::Failed, actions)
            },
            _ => (CreateStep::Deriving, actions),
        },
        CreateStep::SavingEncrypted(address) => match event {
            CreateEvent::Written => {
                let file = match chain {
                    Chain::Xrp => owned("xrp.json"),
                    Chain::Btc => owned("btc.json"),
                };
                actions.push(CreateAction::WriteMetadata { file, address: address.clone() });
                (CreateStep::SavingMetadata(address), actions)
            },
            CreateEvent::WriteFailed(e) => {
                let text = match chain {
                    Chain::Xrp => concat("FS Error: ", e.as_str()),
                    Chain::Btc => concat("FS Error (Encrypt): ", e.as_str()),
                };
                actions.push(report(100, text));
                (CreateStep::Failed, actions)
            },
            _ => (CreateStep::SavingEncrypted(address), actions),
        },
        CreateStep::SavingMetadata(address) => match event {
            CreateEvent::Written => {
                let name = match chain {
                    Chain::Xrp => owned("import_wallet"),
                    Chain::Btc => owned("import_bitcoin_wallet"),
                };
                let mut command = WSCommand::named(name);
                command.wallet = Some(address);
                actions.push(CreateAction::Send(command));
                actions.push(CreateAction::ShowWallet);
                (CreateStep::Finished, actions)
            },
            CreateEvent::WriteFailed(e) => {
                actions.push(CreateAction::Remove(encrypted_file_name(chain)));
                let text = match chain {
                    Chain::Xrp => concat("Metadata Error: ", e.as_str()),
                    Chain::Btc => concat("FS Error (Metadata): ", e.as_str()),
                };
                actions.push(report(100, text));
                (CreateStep::Failed, actions)
            },
            _ => (CreateStep::SavingMetadata(address), actions),
        },
        CreateStep::Finished => (CreateStep::Finished, actions),
        CreateStep::Failed => (CreateStep::Failed, actions),
    }
}

/// `steps`, `events` and `actions` are a run of a creation: it starts
/// deriving, and each event takes one step to the next with its actions.
pub open spec fn is_run(
    chain: Chain,
    steps: Seq<CreateStep>,
    events: Seq<CreateEvent>,
    actions: Seq<Seq<CreateAction>>,
) -> bool {
    &&& steps.len() == events.len() + 1
    &&& actions.len() == events.len()
    &&& steps[0] == CreateStep::Deriving
    &&& forall|i: int|
        0 <= i < events.len() ==> create_transition(chain, #[trigger] steps[i], events[i], steps[i + 1], actions[i])
}

/// Event `i` derived the address `address`.
pub open spec fn derived_at(events: Seq<CreateEvent>, i: int, address: Seq<char>) -> bool {
    events[i] matches CreateEvent::Derived(c) && c.address@ == address
}

/// What the first `n` events of a run have done, by the step they reached.
proof fn lemma_run_prefix(
    chain: Chain,
    steps: Seq<CreateStep>,
    events: Seq<CreateEvent>,
    actions: Seq<Seq<CreateAction>>,
    n: int,
)
    requires
        is_run(chain, steps, events, actions),
        0 <= n <= events.len(),
    ensures
        steps[n] matches CreateStep::SavingEncrypted(a) ==> exists|i: int| 0 <= i < n && #[trigger] derived_at(events, i, a@),
        steps[n] matches CreateStep::SavingMetadata(a) ==> exists|i: int, j: int|
            0 <= i < j < n && #[trigger] derived_at(events, i, a@) && #[trigger] events[j] == CreateEvent::Written,
        steps[n] == CreateStep::Finished ==> exists|i: int, j: int, k: int, address: Seq<char>| {
            &&& 0 <= i < j < k < n
            &&& #[trigger] derived_at(events, i, address)
            &&& #[trigger] events[j] == CreateEvent::Written
            &&& #[trigger] events[k] == CreateEvent::Written
            &&& actions[k][0] matches CreateAction::Send(c) && is_import(c, chain, address)
        },
    decreases n,
{
    if n > 0 {
        let m = n - 1;
        lemma_run_prefix(chain, steps, events, actions, m);
        assert(create_transition(chain, steps[m], events[m], steps[n], actions[m]));
        match steps[m] {
            CreateStep::Deriving => {
                if let CreateEvent::Derived(c) = events[m] {
                    assert(derived_at(events, m, c.address@));
                }
            },
            CreateStep::SavingEncrypted(a) => {
                if events[m] == CreateEvent::Written {
                    let i = choose|i: int| 0 <= i < m && #[trigger] derived_at(events, i, a@);
                    assert(derived_at(events, i, a@) && events[m] == CreateEvent::Written);
                }
            },
            CreateStep::SavingMetadata(a) => {
                if events[m] == CreateEvent::Written {
                    let (i, j) = choose|i: int, j: int|
                        0 <= i < j < m && #[trigger] derived_at(events, i, a@) && #[trigger] events[j]
                            == CreateEvent::Written;
                    assert(derived_at(events, i, a@) && events[j] == CreateEvent::Written
                        && events[m] == CreateEvent::Written);
                }
            },
            _ => {},
        }
    }
}

/// A creation asks the backend to import a wallet only once it has derived
/// the wallet's address and then saved both its encrypted credentials and
/// its metadata; the wallet imported is the one derived.
pub proof fn import_follows_both_saves(
    chain: Chain,
    steps: Seq<CreateStep>,
    events: Seq<CreateEvent>,
    actions: Seq<Seq<CreateAction>>,
)
    requires
        is_run(chain, steps, events, actions),
        steps.last() == CreateStep::Finished,
    ensures
        exists|i: int, j: int, k: int, address: Seq<char>| {
            &&& 0 <= i < j < k < events.len()
            &&& #[trigger] derived_at(events, i, address)
            &&& #[trigger] events[j] == CreateEvent::Written
            &&& #[trigger] events[k] == CreateEvent::Written
            &&& actions[k][0] matches CreateAction::Send(c) && is_import(c, chain, address)
        },
{
    lemma_run_prefix(chain, steps, events, actions, events.len() as int);
}

/// A metadata file that cannot be written never leaves the encrypted
/// credentials behind: they are removed before the error is reported.
pub proof fn failed_metadata_rolls_back(
    chain: Chain,
    address: String,
    e: String,
    next: CreateStep,
    actions: Seq<CreateAction>,
)
    requires
        create_transition(chain, CreateStep::SavingMetadata(address), CreateEvent::WriteFailed(e), next, actions),
    ensures
        next == CreateStep::Failed,
        actions[0] matches CreateAction::Remove(f) && f@ == encrypted_file(chain),
        reports(actions[1], 100, metadata_error(chain, e@)),
{
}

/// The files and the import command of a creation name the chain being
/// created: an XRP wallet saves `xrp_encrypt.json` and `xrp.json` and asks
/// for `import_wallet`, a Bitcoin wallet saves `btc_encrypt.json` and
/// `btc.json` and asks for `import_bitcoin_wallet`. So a creation that
/// saves its metadata asks the backend to import its address with its own
/// chain's command.
pub proof fn import_names_the_chain(chain: Chain, address: String, next: CreateStep, actions: Seq<CreateAction>)
    requires
        create_transition(chain, CreateStep::SavingMetadata(address), CreateEvent::Written, next, actions),
    ensures
        chain == Chain::Xrp ==> (actions[0] matches CreateAction::Send(c) && c.command@ == "import_wallet"@
            && (c.wallet matches Some(w) && w@ == address@)),
        chain == Chain::Btc ==> (actions[0] matches CreateAction::Send(c) && c.command@ == "import_bitcoin_wallet"@
            && (c.wallet matches Some(w) && w@ == address@)),
        chain == Chain::Xrp ==> encrypted_file(chain) == "xrp_encrypt.json"@ && metadata_file(chain) == "xrp.json"@,
        chain == Chain::Btc ==> encrypted_file(chain) == "btc_encrypt.json"@ && metadata_file(chain) == "btc.json"@,
{
}

/// The two chains ask for different import commands and save different
/// files.
pub proof fn chains_use_their_own_names()
    ensures
        import_command(Chain::Xrp) != import_command(Chain::Btc),
        encrypted_file(Chain::Xrp) != encrypted_file(Chain::Btc),
        metadata_file(Chain::Xrp) != metadata_file(Chain::Btc),
{
    reveal_strlit("import_wallet");
    reveal_strlit("import_bitcoin_wallet");
    reveal_strlit("xrp_encrypt.json");
    reveal_strlit("btc_encrypt.json");
    reveal_strlit("xrp.json");
    reveal_strlit("btc.json");
    assert("import_wallet"@.len() != "import_bitcoin_wallet"@.len());
    assert("xrp_encrypt.json"@[0] != "btc_encrypt.json"@[0]);
    assert("xrp.json"@[0] != "btc.json"@[0]);
}

} // verus!
