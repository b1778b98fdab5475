use dannesk::bridge::{
    auth_next, authenticate_wallet, check_stored_address, classic_address, mnemonic_source, wallet_from_mnemonic, xrp_address, AuthAction,
    AuthEvent, AuthStep, BTCCreateLogic, MnemonicSource, StoredCredentials, XRPCreateLogic,
};
use dannesk::signing::{signing_digest, signing_public_key, transaction_signature};

const ABANDON: &str = "abandon abandon abandon abandon abandon abandon abandon abandon abandon abandon abandon about";

fn unhex(s: &str) -> Vec<u8> {
    (0..s.len()).step_by(2).map(|i| u8::from_str_radix(&s[i..i + 2], 16).unwrap()).collect()
}

#[test]
fn xrp_address_of_a_known_key() {
    let pk = unhex("0330E7FC9D56BB25D6893BA3F317AE5BCF33B3291BD63DB32654A313222F7FD020");
    assert_eq!(xrp_address(&pk), "rHb9CJAWyB4rj91VRWn96DkukG4bwdtyTh");
}

#[test]
fn bip84_test_vector_address() {
    assert_eq!(BTCCreateLogic::derive_address(ABANDON, ""), Ok("bc1qcr8te4kr609gcawutmrza0j4xv80jy8z306fyu".to_string()));
}

#[test]
fn xrp_wallet_matches_its_signing_keys() {
    let address = XRPCreateLogic::derive_address(ABANDON, "").unwrap();
    assert!(address.starts_with('r'));
    let keys = wallet_from_mnemonic(ABANDON, None, &address).unwrap();
    assert_eq!(keys.address, address);
    assert_eq!(keys.secret_key.len(), 32);
    assert_eq!(keys.public_key.len(), 33);
    assert_eq!(xrp_address(&keys.public_key), address);
    let other = XRPCreateLogic::derive_address(ABANDON, "TREZOR").unwrap();
    assert_ne!(other, address);
}

#[test]
fn bad_mnemonics_are_refused() {
    let e = XRPCreateLogic::derive_address("not a mnemonic", "").unwrap_err();
    assert!(e.starts_with("Mnemonic error: "));
    let e = BTCCreateLogic::derive_address("abandon abandon", "").unwrap_err();
    assert!(e.starts_with("Invalid generated mnemonic: "));
    assert_eq!(wallet_from_mnemonic("abandon", Some("x"), "r"), Err("Error: Invalid mnemonic".to_string()));
}

#[test]
fn create_errors_end_the_progress() {
    let p = XRPCreateLogic::handle_error("FS Error: full".to_string());
    assert_eq!((p.percent, p.message.as_str()), (100, "FS Error: full"));
    let p = BTCCreateLogic::handle_error("Thread panic".to_string());
    assert_eq!(p.percent, 100);
}

#[test]
fn mnemonic_comes_from_exactly_one_source() {
    assert_eq!(mnemonic_source(None, Some("w".to_string())), Ok(MnemonicSource::Seed("w".to_string())));
    assert_eq!(mnemonic_source(Some("p".to_string()), None), Ok(MnemonicSource::Passphrase("p".to_string())));
    let e = Err("Error: Must provide either passphrase or seed".to_string());
    assert_eq!(mnemonic_source(None, None), e);
    assert_eq!(mnemonic_source(Some("p".to_string()), Some("w".to_string())), e);
    assert_eq!(check_stored_address("rA", "rA"), Ok(()));
    assert_eq!(check_stored_address("rA", "rB"), Err("Error: Stored data address mismatch".to_string()));
}

#[test]
fn signing_digest_is_half_of_sha512() {
    assert_eq!(signing_digest(&[1, 2, 3]), unhex("3f50a08f9c534543cfcfcb427632a95eb04f66271f9fbf35579d760dff3d58e0"));
}

#[test]
fn signatures_are_der_hex() {
    let keys = wallet_from_mnemonic(ABANDON, None, "r").unwrap();
    let sig = transaction_signature(&keys.secret_key, &[1, 2, 3]).unwrap();
    assert!(sig.starts_with("30"));
    assert!(sig.chars().all(|c| c.is_ascii_hexdigit() && !c.is_ascii_lowercase()));
    assert_eq!(transaction_signature(&keys.secret_key, &[1, 2, 3]), Some(sig));
    assert_eq!(transaction_signature(&[0u8; 32], &[1, 2, 3]), None);
    assert_eq!(signing_public_key(&[0xab, 0x01]), "AB01");
}

#[test]
fn new_mnemonics_are_fresh_24_word_phrases() {
    let a = dannesk::bridge::new_mnemonic();
    let b = dannesk::bridge::new_mnemonic();
    assert_eq!(a.split_whitespace().count(), 24);
    assert_ne!(a, b);
    assert!(XRPCreateLogic::derive_address(&a, "").is_ok());
    assert!(BTCCreateLogic::derive_address(&b, "").is_ok());
}

fn report(a: &AuthAction) -> (u8, String) {
    match a {
        AuthAction::Report(p) => (p.percent, p.message.clone()),
        other => panic!("not a report: {:?}", other),
    }
}

fn reading_step() -> AuthStep {
    AuthStep::ReadingCredentials { passphrase: "pw".to_string(), bip39: None, wallet: "rTestAddr".to_string() }
}

fn stored(address: &str) -> StoredCredentials {
    StoredCredentials {
        address: address.to_string(),
        encrypted_phrase: "cipher".to_string(),
        salt: "salt".to_string(),
        iv: "iv".to_string(),
    }
}

#[test]
fn authentication_needs_exactly_one_source() {
    let msg = "Error: Must provide either passphrase or seed".to_string();
    for (p, s) in [(Some("pw".to_string()), Some(ABANDON.to_string())), (None, None)] {
        let (step, actions) = authenticate_wallet(p, s, None, "rTestAddr");
        assert_eq!(step, AuthStep::Failed);
        assert_eq!(actions.len(), 3);
        assert_eq!(report(&actions[0]), (40, "Authenticating wallet".to_string()));
        assert_eq!(report(&actions[1]), (100, msg.clone()));
        assert_eq!(actions[2], AuthAction::Fail(msg.clone()));
    }
}

#[test]
fn authentication_with_the_seed_derives_at_once() {
    let address = XRPCreateLogic::derive_address(ABANDON, "").unwrap();
    let (step, actions) = authenticate_wallet(None, Some(ABANDON.to_string()), None, &address);
    assert_eq!(step, AuthStep::Done);
    assert_eq!(actions.len(), 2);
    match &actions[1] {
        AuthAction::Authenticated(w) => {
            assert_eq!(w.address, address);
            assert_eq!(xrp_address(&w.public_key), address);
        }
        other => panic!("not authenticated: {:?}", other),
    }
    let (step, actions) = authenticate_wallet(None, Some("abandon".to_string()), None, &address);
    assert_eq!(step, AuthStep::Failed);
    assert_eq!(actions[2], AuthAction::Fail("Error: Invalid mnemonic".to_string()));
}

#[test]
fn authentication_with_the_passphrase_reads_the_credentials() {
    let (step, actions) = authenticate_wallet(Some("pw".to_string()), None, None, "rTestAddr");
    assert_eq!(step, reading_step());
    assert_eq!(actions.len(), 2);
    assert_eq!(actions[1], AuthAction::ReadCredentials("xrp_encrypt.json".to_string()));
}

#[test]
fn missing_credentials_stop_the_authentication() {
    let (step, actions) = auth_next(reading_step(), AuthEvent::CredentialsMissing("no file".to_string()));
    assert_eq!(step, AuthStep::Failed);
    assert_eq!(report(&actions[0]), (100, "Error: Could not find encrypted credentials.".to_string()));
    assert_eq!(actions[1], AuthAction::Fail("Error: XRP credentials not found: no file".to_string()));
}

#[test]
fn credentials_of_another_wallet_are_not_decrypted() {
    let (step, actions) = auth_next(reading_step(), AuthEvent::CredentialsRead(stored("rOther")));
    assert_eq!(step, AuthStep::Failed);
    assert_eq!(actions.len(), 2);
    assert_eq!(report(&actions[0]), (100, "Error: Stored data address mismatch".to_string()));
    assert_eq!(actions[1], AuthAction::Fail("Error: Stored data address mismatch".to_string()));
}

#[test]
fn matching_credentials_are_decrypted_with_the_passphrase() {
    let (step, actions) = auth_next(reading_step(), AuthEvent::CredentialsRead(stored("rTestAddr")));
    assert_eq!(step, AuthStep::Decrypting { bip39: None, wallet: "rTestAddr".to_string() });
    assert_eq!(
        actions,
        vec![AuthAction::Decrypt {
            passphrase: "pw".to_string(),
            encrypted_phrase: "cipher".to_string(),
            salt: "salt".to_string(),
            iv: "iv".to_string(),
        }]
    );
}

#[test]
fn a_wrong_passphrase_fails_the_decryption() {
    let decrypting = AuthStep::Decrypting { bip39: None, wallet: "rTestAddr".to_string() };
    let (step, actions) = auth_next(decrypting, AuthEvent::DecryptionFailed);
    assert_eq!(step, AuthStep::Failed);
    assert_eq!(report(&actions[0]), (100, "Error: Decryption failed (Incorrect passphrase)".to_string()));
    assert_eq!(actions[1], AuthAction::Fail("Error: Decryption failed".to_string()));
}

#[test]
fn a_decrypted_phrase_finishes_the_authentication() {
    let address = XRPCreateLogic::derive_address(ABANDON, "").unwrap();
    let decrypting = AuthStep::Decrypting { bip39: None, wallet: address.clone() };
    let (step, actions) = auth_next(decrypting.clone(), AuthEvent::Decrypted(ABANDON.to_string()));
    assert_eq!(step, AuthStep::Done);
    assert_eq!(actions, vec![AuthAction::Authenticated(wallet_from_mnemonic(ABANDON, None, &address).unwrap())]);
    let (step, actions) = auth_next(decrypting.clone(), AuthEvent::CredentialsMissing("late".to_string()));
    assert_eq!((step, actions.len()), (decrypting, 0));
    let (step, actions) = auth_next(AuthStep::Done, AuthEvent::DecryptionFailed);
    assert_eq!((step, actions.len()), (AuthStep::Done, 0));
}

#[test]
fn wiping_the_secret_keeps_the_public_parts() {
    let mut keys = wallet_from_mnemonic(ABANDON, None, "r").unwrap();
    let public = keys.public_key.clone();
    keys.wipe_secret();
    assert!(keys.secret_key.is_empty());
    assert_eq!(keys.public_key, public);
    assert_eq!(keys.address, "r");
}

#[test]
fn classic_addresses_are_recognised() {
    let address = XRPCreateLogic::derive_address(ABANDON, "").unwrap();
    assert!(classic_address(&address));
    assert!(classic_address("rHb9CJAWyB4rj91VRWn96DkukG4bwdtyTh"));
    // A wrong checksum, a character outside the alphabet, too short a text.
    assert!(!classic_address("rHb9CJAWyB4rj91VRWn96DkukG4bwdtyTi"));
    assert!(!classic_address("rHb9CJAWyB4rj91VRWn96DkukG4bwdtyT0"));
    assert!(!classic_address(""));
    assert!(!classic_address("rr"));
}
