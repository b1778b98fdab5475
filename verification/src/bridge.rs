//! Wallet creation and authentication: from a BIP-39 mnemonic to the keys
//! and the address of the XRP and Bitcoin wallets.

use vstd::prelude::*;
use crate::text::{owned, concat, same_text, text_result};
use crate::crypto::{
    sha256_digest, ripemd160_digest, base58check_text, base58_text, ripple_alphabet, leading_zero_bytes,
    bip39_parse_error, bip39_seed_of, bip32_outcome, failure_outcome, Bip32Outcome,
    p2wpkh_text, Bip32Failure, sha256, ripemd160, base58check_ripple, bip39_seed, bip32_derive,
    p2wpkh_address, bip39_phrase, bip39_phrase_of, random_entropy, wipe, wipe_text, base58check_ripple_decode,
};
use crate::ws::{ProgressUpdate, finished};

verus! {

/// The BIP-44 path of the XRP account key.
pub const XRP_DERIVATION_PATH: &'static str = "m/44'/144'/0'/0/0";

/// The BIP-84 path of the Bitcoin receiving key.
pub const BTC_DERIVATION_PATH: &'static str = "m/84'/0'/0'/0/0";

/// The XRP Ledger account id of a public key: a zero type byte, then the
/// RIPEMD-160 of the SHA-256 of the key.
pub open spec fn xrp_account_id(pk: Seq<u8>) -> Seq<u8> {
    seq![0u8] + ripemd160_digest(sha256_digest(pk))
}

/// The classic XRP Ledger address of a public key: the Base58Check text of
/// its account id in the XRP Ledger alphabet.
pub open spec fn xrp_address_of(pk: Seq<u8>) -> Seq<char> {
    base58check_text(xrp_account_id(pk), ripple_alphabet())
}

/// Whether `a` is a classic XRP Ledger address: the Base58Check text, in
/// the XRP Ledger alphabet, of a zero type byte and a twenty-byte account
/// id.
pub open spec fn is_classic_address(a: Seq<char>) -> bool {
    exists|p: Seq<u8>| p.len() == 21 && p[0] == 0 && #[trigger] base58check_text(p, ripple_alphabet()) == a
}

/// Whether `a` is a classic XRP Ledger address.
pub fn classic_address(a: &str) -> (b: bool)
    ensures
        b == is_classic_address(a@),
{
    match base58check_ripple_decode(a) {
        Some(p) => {
            let ok = p.len() == 21 && p[0] == 0;
            proof {
                if ok {
                    assert(base58check_text(p@, ripple_alphabet()) == a@);
                }
            }
            ok
        },
        None => false,
    }
}

/// The classic XRP Ledger address of the public key `pk`.
pub fn xrp_address(pk: &[u8]) -> (address: String)
    ensures
        address@ == xrp_address_of(pk@),
        is_classic_address(address@),
{
    let sha = sha256(pk);
    let rip = ripemd160(sha.as_slice());
    let mut account_id: Vec<u8> = Vec::new();
    account_id.push(0u8);
    for i in 0..rip.len()
        invariant
            account_id@ == seq![0u8] + rip@.take(i as int),
    {
        account_id.push(rip[i]);
        assert(rip@.take(i + 1) == rip@.take(i as int).push(rip@[i as int]));
    }
    assert(rip@.take(rip@.len() as int) == rip@);
    let address = base58check_ripple(account_id.as_slice());
    assert(base58check_text(account_id@, ripple_alphabet()) == address@);
    address
}

/// Every classic XRP Ledger address starts with `r`: the account id starts
/// with a zero byte, which Base58 writes as the first letter of the
/// alphabet.
pub proof fn xrp_address_starts_with_r(pk: Seq<u8>)
    ensures
        xrp_address_of(pk).len() > 0,
        xrp_address_of(pk)[0] == 'r',
{
    let id = xrp_account_id(pk);
    let payload = id + sha256_digest(sha256_digest(id)).take(4);
    assert(payload[0] == 0u8);
    assert(payload.len() > 0);
    assert(leading_zero_bytes(payload) >= 1);
    reveal_strlit("rpshnaf39wBUDNEGHJKLM4PQRST7VWXYZ2bcdeCg65jkm8oFqi1tuvAxyz");
    assert(ripple_alphabet()[0] == 'r');
    let t = base58_text(payload, ripple_alphabet());
    assert(t[0] == ripple_alphabet()[0]);
}

/// The text of a derivation failure, after `prefix` (empty for wallet
/// creation, `Error: ` for authentication).
pub open spec fn bip32_failure_text(prefix: Seq<char>, f: Bip32Outcome) -> Seq<char> {
    match f {
        Bip32Outcome::MasterKey(e) => prefix + "Failed to create master key: "@ + e,
        Bip32Outcome::InvalidPath => prefix + "Invalid derivation path"@,
        Bip32Outcome::Derivation(e) => prefix + "Derivation failed: "@ + e,
        Bip32Outcome::Keys(_, _) => prefix,
    }
}

fn failure_text(prefix: &str, f: Bip32Failure) -> (text: String)
    ensures
        text@ == bip32_failure_text(prefix@, failure_outcome(f)),
{
    match f {
        Bip32Failure::MasterKey(e) => {
            let mut t = concat(prefix, "Failed to create master key: ");
            crate::text::append_text(&mut t, e.as_str());
            t
        },
        Bip32Failure::InvalidPath => concat(prefix, "Invalid derivation path"),
        Bip32Failure::Derivation(e) => {
            let mut t = concat(prefix, "Derivation failed: ");
            crate::text::append_text(&mut t, e.as_str());
            t
        },
    }
}

/// How the derivation of the key at `path` ends for `mnemonic` and
/// `passphrase`, once the mnemonic parses.
pub open spec fn wallet_keys(mnemonic: Seq<char>, passphrase: Seq<char>, path: Seq<char>) -> Bip32Outcome {
    bip32_outcome(bip39_seed_of(mnemonic, passphrase), path)
}

/// The address that wallet creation derives, or its error: a phrase that
/// is no English mnemonic gives `mnemonic_error` and the parser's text, a
/// failed derivation its text, and a key pair the address that `address`
/// writes for its public key.
pub open spec fn creation_result(
    mnemonic: Seq<char>,
    passphrase: Seq<char>,
    path: Seq<char>,
    mnemonic_error: Seq<char>,
    address: spec_fn(Seq<u8>) -> Seq<char>,
) -> Result<Seq<char>, Seq<char>> {
    match bip39_parse_error(mnemonic) {
        Some(e) => Err(mnemonic_error + e),
        None => match wallet_keys(mnemonic, passphrase, path) {
            Bip32Outcome::Keys(_, pk) => Ok(address(pk)),
            f => Err(bip32_failure_text(""@, f)),
        },
    }
}

/// Creation of an XRP wallet.
pub struct XRPCreateLogic;

impl XRPCreateLogic {
    /// The address of the XRP wallet of `mnemonic` with the BIP-39
    /// passphrase `bip39_pass`, at the standard XRP path. A phrase that is
    /// no English mnemonic gives "Mnemonic error: " and the parser's text;
    /// a failed derivation gives its text (see `bip32_failure_text`).
    pub fn derive_address(mnemonic: &str, bip39_pass: &str) -> (out: Result<String, String>)
        ensures
            text_result(out) == creation_result(
                mnemonic@,
                bip39_pass@,
                XRP_DERIVATION_PATH@,
                "Mnemonic error: "@,
                |pk: Seq<u8>| xrp_address_of(pk),
            ),
    {
        let seed = match bip39_seed(mnemonic, bip39_pass) {
            Ok(s) => s,
            Err(e) => return Err(concat("Mnemonic error: ", e.as_str())),
        };
        let mut seed = seed;
        let keys = bip32_derive(seed.as_slice(), XRP_DERIVATION_PATH);
        wipe(&mut seed);
        match keys {
            Ok((secret, public)) => {
                let mut secret = secret;
                wipe(&mut secret);
                Ok(xrp_address(public.as_slice()))
            },
            Err(f) => Err(failure_text("", f)),
        }
    }

    /// The final progress report of a failed creation.
    pub fn handle_error(msg: String) -> (p: ProgressUpdate)
        ensures
            p.percent == 100,
            p.message == msg,
    {
        finished(msg)
    }
}

/// Creation of a Bitcoin wallet.
pub struct BTCCreateLogic;

impl BTCCreateLogic {
    /// The native SegWit address of the Bitcoin wallet of `mnemonic` with
    /// the BIP-39 passphrase `bip39_pass`, at the standard BIP-84 path. A
    /// phrase that is no English mnemonic gives "Invalid generated
    /// mnemonic: " and the parser's text; a failed derivation gives its
    /// text (see `bip32_failure_text`).
    pub fn derive_address(mnemonic: &str, bip39_pass: &str) -> (out: Result<String, String>)
        ensures
            text_result(out) == creation_result(
                mnemonic@,
                bip39_pass@,
                BTC_DERIVATION_PATH@,
                "Invalid generated mnemonic: "@,
                |pk: Seq<u8>| p2wpkh_text(pk),
            ),
    {
        let seed = match bip39_seed(mnemonic, bip39_pass) {
            Ok(s) => s,
            Err(e) => return Err(concat("Invalid generated mnemonic: ", e.as_str())),
        };
        let mut seed = seed;
        let keys = bip32_derive(seed.as_slice(), BTC_DERIVATION_PATH);
        wipe(&mut seed);
        match keys {
            Ok((secret, public)) => {
                let mut secret = secret;
                wipe(&mut secret);
                match p2wpkh_address(public.as_slice()) {
                    Some(a) => Ok(a),
                    None => {
                        proof { assert(false); }
                        Err(owned("Invalid derivation path"))
                    },
                }
            },
            Err(f) => Err(failure_text("", f)),
        }
    }

    /// The final progress report of a failed creation.
    pub fn handle_error(msg: String) -> (p: ProgressUpdate)
        ensures
            p.percent == 100,
            p.message == msg,
    {
        finished(msg)
    }
}

/// The keys of an authenticated XRP wallet.
#[derive(Debug, Clone, PartialEq, Eq)]
pub struct Bip44Wallet {
    pub address: String,
    pub secret_key: Vec<u8>,
    pub public_key: Vec<u8>,
}

impl Bip44Wallet {
    /// Wipes the secret key once signing is done: its bytes are zeroed and
    /// it is left empty; the address and the public key stay.
    pub fn wipe_secret(&mut self)
        ensures
            final(self).secret_key@ == Seq::<u8>::empty(),
            final(self).address == old(self).address,
            final(self).public_key == old(self).public_key,
    {
        wipe(&mut self.secret_key);
    }
}

/// Where the mnemonic of a signing request comes from.
#[derive(Debug, Clone, PartialEq, Eq)]
pub enum MnemonicSource {
    /// The request carries the mnemonic itself.
    Seed(String),
    /// The request carries the passphrase that decrypts the stored mnemonic.
    Passphrase(String),
}

/// Exactly one of a passphrase and a seed must be given.
pub fn mnemonic_source(passphrase: Option<String>, seed: Option<String>) -> (out: Result<MnemonicSource, String>)
    ensures
        passphrase is None ==> (seed matches Some(s) ==> out == Ok::<MnemonicSource, String>(MnemonicSource::Seed(s))),
        seed is None ==> (passphrase matches Some(p) ==> out == Ok::<MnemonicSource, String>(MnemonicSource::Passphrase(p))),
        (passphrase is Some) == (seed is Some) ==> (out matches Err(e) && e@ == "Error: Must provide either passphrase or seed"@),
{
    match (passphrase, seed) {
        (None, Some(s)) => Ok(MnemonicSource::Seed(s)),
        (Some(p), None) => Ok(MnemonicSource::Passphrase(p)),
        _ => Err(owned("Error: Must provide either passphrase or seed")),
    }
}

/// The stored credentials must belong to the wallet that signs.
pub fn check_stored_address(stored_address: &str, wallet_address: &str) -> (out: Result<(), String>)
    ensures
        stored_address@ == wallet_address@ ==> out is Ok,
        stored_address@ != wallet_address@ ==> (out matches Err(e) && e@ == "Error: Stored data address mismatch"@),
{
    if same_text(stored_address, wallet_address) {
        Ok(())
    } else {
        Err(owned("Error: Stored data address mismatch"))
    }
}

/// The BIP-39 passphrase of a request: none counts as empty.
pub open spec fn pass_of(bip39: Option<String>) -> Seq<char> {
    match bip39 {
        Some(p) => p@,
        None => ""@,
    }
}

/// The key pair (secret, public) that authentication derives from
/// `mnemonic` and `pass` at the XRP path, or its error: "Error: Invalid
/// mnemonic" for a phrase that does not parse, else the derivation's text
/// after "Error: ".
pub open spec fn auth_keys(mnemonic: Seq<char>, pass: Seq<char>) -> Result<(Seq<u8>, Seq<u8>), Seq<char>> {
    match bip39_parse_error(mnemonic) {
        Some(_) => Err("Error: Invalid mnemonic"@),
        None => match wallet_keys(mnemonic, pass, XRP_DERIVATION_PATH@) {
            Bip32Outcome::Keys(sk, pk) => Ok((sk, pk)),
            f => Err(bip32_failure_text("Error: "@, f)),
        },
    }
}

/// The signing keys of the XRP wallet `wallet_address` from its mnemonic
/// and optional BIP-39 passphrase (see `auth_keys`). The seed is wiped once
/// the keys are derived.
pub fn wallet_from_mnemonic(mnemonic: &str, bip39: Option<&str>, wallet_address: &str) -> (out: Result<Bip44Wallet, String>)
    ensures
        ({
            let pass = match bip39 { Some(p) => p@, None => ""@ };
            match auth_keys(mnemonic@, pass) {
                Ok((sk, pk)) => out matches Ok(w) && w.address@ == wallet_address@ && w.secret_key@ == sk
                    && w.public_key@ == pk,
                Err(e) => out matches Err(m) && m@ == e,
            }
        }),
{
    let pass: &str = match bip39 {
        Some(p) => p,
        None => "",
    };
    let seed = match bip39_seed(mnemonic, pass) {
        Ok(s) => s,
        Err(_) => return Err(owned("Error: Invalid mnemonic")),
    };
    let mut seed = seed;
    let keys = bip32_derive(seed.as_slice(), XRP_DERIVATION_PATH);
    wipe(&mut seed);
    match keys {
        Ok((secret, public)) => Ok(Bip44Wallet { address: owned(wallet_address), secret_key: secret, public_key: public }),
        Err(f) => Err(failure_text("Error: ", f)),
    }
}

/// The credentials stored for the XRP wallet in `xrp_encrypt.json`.
#[derive(Debug, Clone, PartialEq, Eq)]
pub struct StoredCredentials {
    pub address: String,
    pub encrypted_phrase: String,
    pub salt: String,
    pub iv: String,
}

/// Where an authentication stands.
#[derive(Debug, Clone, PartialEq, Eq)]
pub enum AuthStep {
    /// The stored credentials are being read, to be decrypted with the
    /// passphrase.
    ReadingCredentials { passphrase: String, bip39: Option<String>, wallet: String },
    /// The stored phrase is being decrypted.
    Decrypting { bip39: Option<String>, wallet: String },
    /// The keys were handed out.
    Done,
    /// The authentication stopped on an error.
    Failed,
}

/// What the caller reports back.
#[derive(Debug, Clone, PartialEq, Eq)]
pub enum AuthEvent {
    /// The stored credentials were read.
    CredentialsRead(StoredCredentials),
    /// The stored credentials could not be read, for this reason.
    CredentialsMissing(String),
    /// The stored phrase decrypted to this mnemonic.
    Decrypted(String),
    /// The stored phrase did not decrypt with the passphrase.
    DecryptionFailed,
}

/// What the caller does next.
#[derive(Debug, Clone, PartialEq, Eq)]
pub enum AuthAction {
    /// Show this progress report.
    Report(ProgressUpdate),
    /// Read the stored credentials from this file.
    ReadCredentials(String),
    /// Decrypt the stored phrase with the passphrase.
    Decrypt { passphrase: String, encrypted_phrase: String, salt: String, iv: String },
    /// Authentication succeeded with these keys.
    Authenticated(Bip44Wallet),
    /// Authentication failed with this error.
    Fail(String),
}

/// `a` reports `percent` with `message`.
pub open spec fn auth_reports(a: AuthAction, percent: u8, message: Seq<char>) -> bool {
    a matches AuthAction::Report(p) && p.percent == percent && p.message@ == message
}

/// `next` and `actions` end an authentication with `report` as the final
/// progress report and `error` as its error.
pub open spec fn fails_with(next: AuthStep, actions: Seq<AuthAction>, report: Seq<char>, error: Seq<char>) -> bool {
    &&& next == AuthStep::Failed
    &&& actions.len() == 2
    &&& auth_reports(actions[0], 100, report)
    &&& actions[1] matches AuthAction::Fail(e) && e@ == error
}

/// `next` and `actions` end an authentication of `wallet` with the keys of
/// `mnemonic` and `pass`, or with their error, reported at 100 percent.
pub open spec fn finishes(mnemonic: Seq<char>, pass: Seq<char>, wallet: Seq<char>, next: AuthStep, actions: Seq<AuthAction>) -> bool {
    match auth_keys(mnemonic, pass) {
        Ok((sk, pk)) => {
            &&& next == AuthStep::Done
            &&& actions.len() == 1
            &&& actions[0] matches AuthAction::Authenticated(w) && w.address@ == wallet && w.secret_key@ == sk
                && w.public_key@ == pk
        },
        Err(e) => fails_with(next, actions, e, e),
    }
}

/// The error when the request gives both or neither of a passphrase and a
/// mnemonic.
pub open spec fn source_error() -> Seq<char> {
    "Error: Must provide either passphrase or seed"@
}

/// One step of an authentication: from `step`, on `event`, to `next` with
/// `actions`. Missing credentials, a stored address of another wallet and a
/// failed decryption each stop it, in that order; a decrypted phrase
/// finishes it. An event that does not belong to the step changes nothing.
pub open spec fn auth_transition(step: AuthStep, event: AuthEvent, next: AuthStep, actions: Seq<AuthAction>) -> bool {
    match step {
        AuthStep::ReadingCredentials { passphrase, bip39, wallet } => match event {
            AuthEvent::CredentialsMissing(e) => fails_with(
                next,
                actions,
                "Error: Could not find encrypted credentials."@,
                "Error: XRP credentials not found: "@ + e@,
            ),
            AuthEvent::CredentialsRead(c) => if c.address@ != wallet@ {
                fails_with(next, actions, "Error: Stored data address mismatch"@, "Error: Stored data address mismatch"@)
            } else {
                &&& next matches AuthStep::Decrypting { bip39: b, wallet: w } && b == bip39 && w == wallet
                &&& actions.len() == 1
                &&& actions[0] matches AuthAction::Decrypt { passphrase: p, encrypted_phrase, salt, iv } && p == passphrase
                    && encrypted_phrase == c.encrypted_phrase && salt == c.salt && iv == c.iv
            },
            _ => next == step && actions.len() == 0,
        },
        AuthStep::Decrypting { bip39, wallet } => match event {
            AuthEvent::DecryptionFailed => fails_with(
                next,
                actions,
                "Error: Decryption failed (Incorrect passphrase)"@,
                "Error: Decryption failed"@,
            ),
            AuthEvent::Decrypted(m) => finishes(m@, pass_of(bip39), wallet@, next, actions),
            _ => next == step && actions.len() == 0,
        },
        _ => next == step && actions.len() == 0,
    }
}

fn fail(mut actions: Vec<AuthAction>, report: String, error: String) -> (out: (AuthStep, Vec<AuthAction>))
    ensures
        out.1@.len() >= actions@.len(),
        forall|i: int| 0 <= i < actions@.len() ==> out.1@[i] == actions@[i],
        fails_with(out.0, out.1@.skip(actions@.len() as int), report@, error@),
{
    let ghost before = actions@;
    actions.push(AuthAction::Report(finished(report)));
    actions.push(AuthAction::Fail(error));
    assert(actions@.take(before.len() as int) =~= before);
    (AuthStep::Failed, actions)
}

fn finish(mnemonic: &str, bip39: &Option<String>, wallet: &str, mut actions: Vec<AuthAction>) -> (out: (AuthStep, Vec<AuthAction>))
    ensures
        out.1@.len() >= actions@.len(),
        forall|i: int| 0 <= i < actions@.len() ==> out.1@[i] == actions@[i],
        finishes(mnemonic@, pass_of(*bip39), wallet@, out.0, out.1@.skip(actions@.len() as int)),
{
    let pass: Option<&str> = match bip39 {
        Some(p) => Some(p.as_str()),
        None => None,
    };
    match wallet_from_mnemonic(mnemonic, pass, wallet) {
        Ok(w) => {
            let ghost before = actions@;
            actions.push(AuthAction::Authenticated(w));
            assert(actions@.take(before.len() as int) =~= before);
            assert(actions@.skip(before.len() as int) =~= seq![actions@[before.len() as int]]);
            (AuthStep::Done, actions)
        },
        Err(e) => {
            let r = fail(actions, e.clone(), e);
            r
        },
    }
}

/// Starts authenticating the XRP wallet `wallet_address`: reported at 40
/// percent, then the request must give exactly one of a passphrase and a
/// mnemonic (`seed`). With the mnemonic, the keys are derived at once; with
/// the passphrase, the stored credentials are read first (see
/// `auth_next`).
pub fn authenticate_wallet(
    passphrase: Option<String>,
    seed: Option<String>,
    bip39: Option<String>,
    wallet_address: &str,
) -> (out: (AuthStep, Vec<AuthAction>))
    ensures
        out.1@.len() >= 1,
        auth_reports(out.1@[0], 40, "Authenticating wallet"@),
        (passphrase is Some) == (seed is Some) ==> fails_with(out.0, out.1@.skip(1), source_error(), source_error()),
        passphrase is None ==> (seed matches Some(s) ==> finishes(s@, pass_of(bip39), wallet_address@, out.0, out.1@.skip(1))),
        seed is None ==> (passphrase matches Some(p) ==> {
            &&& out.0 matches AuthStep::ReadingCredentials { passphrase: q, bip39: b, wallet: w } && q == p && b == bip39
                && w@ == wallet_address@
            &&& out.1@.len() == 2
            &&& out.1@[1] matches AuthAction::ReadCredentials(f) && f@ == "xrp_encrypt.json"@
        }),
{
    let mut actions: Vec<AuthAction> = Vec::new();
    actions.push(AuthAction::Report(ProgressUpdate { percent: 40, message: owned("Authenticating wallet") }));
    let ghost first = actions@;
    assert(auth_reports(first[0], 40, "Authenticating wallet"@));
    match mnemonic_source(passphrase, seed) {
        Ok(MnemonicSource::Seed(s)) => {
            let mut s = s;
            let out = finish(s.as_str(), &bip39, wallet_address, actions);
            wipe_text(&mut s);
            assert(out.1@[0] == first[0]);
            out
        },
        Ok(MnemonicSource::Passphrase(p)) => {
            actions.push(AuthAction::ReadCredentials(owned("xrp_encrypt.json")));
            (AuthStep::ReadingCredentials { passphrase: p, bip39, wallet: owned(wallet_address) }, actions)
        },
        Err(e) => {
            let out = fail(actions, e.clone(), e);
            assert(out.1@[0] == first[0]);
            out
        },
    }
}

/// The next step of an authentication, and what to do.
pub fn auth_next(step: AuthStep, event: AuthEvent) -> (out: (AuthStep, Vec<AuthAction>))
    ensures
        auth_transition(step, event, out.0, out.1@),
{
    let actions: Vec<AuthAction> = Vec::new();
    match step {
        AuthStep::ReadingCredentials { passphrase, bip39, wallet } => match event {
            AuthEvent::CredentialsMissing(e) => {
                let out = fail(actions, owned("Error: Could not find encrypted credentials."), concat("Error: XRP credentials not found: ", e.as_str()));
                out
            },
            AuthEvent::CredentialsRead(c) => {
                match check_stored_address(c.address.as_str(), wallet.as_str()) {
                    Err(e) => {
                        let out = fail(actions, e.clone(), e);
                        out
                    },
                    Ok(()) => {
                        let mut actions = actions;
                        actions.push(AuthAction::Decrypt {
                            passphrase,
                            encrypted_phrase: c.encrypted_phrase,
                            salt: c.salt,
                            iv: c.iv,
                        });
                        (AuthStep::Decrypting { bip39, wallet }, actions)
                    },
                }
            },
            AuthEvent::Decrypted(m) => (AuthStep::ReadingCredentials { passphrase, bip39, wallet }, actions),
            AuthEvent::DecryptionFailed => (AuthStep::ReadingCredentials { passphrase, bip39, wallet }, actions),
        },
        AuthStep::Decrypting { bip39, wallet } => match event {
            AuthEvent::DecryptionFailed => {
                let out = fail(
                    actions,
                    owned("Error: Decryption failed (Incorrect passphrase)"),
                    owned("Error: Decryption failed"),
                );
                out
            },
            AuthEvent::Decrypted(m) => {
                let mut m = m;
                let out = finish(m.as_str(), &bip39, wallet.as_str(), actions);
                wipe_text(&mut m);
                out
            },
            AuthEvent::CredentialsRead(c) => (AuthStep::Decrypting { bip39, wallet }, actions),
            AuthEvent::CredentialsMissing(e) => (AuthStep::Decrypting { bip39, wallet }, actions),
        },
        AuthStep::Done => (AuthStep::Done, actions),
        AuthStep::Failed => (AuthStep::Failed, actions),
    }
}

/// The stored phrase is decrypted only once credentials of the requested
/// wallet were read: a decryption is asked for on no other step and event.
pub proof fn decryption_needs_matching_credentials(step: AuthStep, event: AuthEvent, next: AuthStep, actions: Seq<AuthAction>, i: int)
    requires
        auth_transition(step, event, next, actions),
        0 <= i < actions.len(),
        actions[i] is Decrypt,
    ensures
        step matches AuthStep::ReadingCredentials { wallet, .. } && (event matches AuthEvent::CredentialsRead(c)
            && c.address@ == wallet@),
{
    match step {
        AuthStep::Decrypting { bip39, wallet } => {
            if let AuthEvent::Decrypted(m) = event {
                if auth_keys(m@, pass_of(bip39)) is Ok {
                    assert(actions[0] is Authenticated);
                }
            }
        },
        _ => {},
    }
}

/// A new recovery phrase for a wallet to be created: the English BIP-39
/// phrase of thirty-two random bytes.
pub fn new_mnemonic() -> (phrase: String)
    ensures
        exists|entropy: Seq<u8>| entropy.len() == 32 && phrase@ == bip39_phrase_of(entropy),
{
    let entropy = random_entropy();
    match bip39_phrase(&entropy) {
        Some(p) => p,
        None => {
            proof {
                assert(entropy@.len() == 32);
            }
            String::new()
        },
    }
}

} // verus!
