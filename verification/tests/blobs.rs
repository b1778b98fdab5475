use dannesk::bridge::{wallet_from_mnemonic, Bip44Wallet, XRPCreateLogic};
use dannesk::ws::offer_create;
use dannesk::ws::trustset;
use dannesk::ws::WSCommand;

const ABANDON: &str = "abandon abandon abandon abandon abandon abandon abandon abandon abandon abandon abandon about";

fn wallet() -> Bip44Wallet {
    let address = XRPCreateLogic::derive_address(ABANDON, "").unwrap();
    wallet_from_mnemonic(ABANDON, None, &address).unwrap()
}

fn command(name: &str) -> WSCommand {
    WSCommand::named(name.to_string())
}

fn is_upper_hex(s: &str) -> bool {
    s.len() % 2 == 0 && s.chars().all(|c| c.is_ascii_digit() || ('A'..='F').contains(&c))
}

#[test]
fn trustset_blob_is_a_signed_trust_set() {
    let w = wallet();
    let mut cmd = command("trustset");
    cmd.wallet_type = Some("RLUSD".to_string());
    let blob = trustset::construct_blob(&w, &cmd, 7, "12".to_string()).unwrap();
    assert!(is_upper_hex(&blob));
    // TransactionType (field 0x12) TrustSet (20).
    assert!(blob.starts_with("120014"));
    // SigningPubKey (field 0x73, 33 bytes) holds the wallet's public key.
    let pk: String = w.public_key.iter().map(|b| format!("{b:02X}")).collect();
    assert!(blob.contains(&format!("7321{pk}")));
    // Signing is deterministic.
    assert_eq!(trustset::construct_blob(&w, &cmd, 7, "12".to_string()).unwrap(), blob);
    assert_ne!(trustset::construct_blob(&w, &cmd, 8, "12".to_string()).unwrap(), blob);
}

#[test]
fn trustset_errors() {
    let w = wallet();
    let cmd = command("trustset");
    assert_eq!(
        trustset::construct_blob(&w, &cmd, 1, "12".to_string()),
        Err("Missing asset type for trustset".to_string())
    );
    let mut cmd = command("trustset");
    cmd.wallet_type = Some("DOGE".to_string());
    assert_eq!(
        trustset::construct_blob(&w, &cmd, 1, "12".to_string()),
        Err("Unsupported asset type for trustset: DOGE".to_string())
    );
    let mut bad = wallet();
    bad.secret_key = vec![0; 32];
    let mut cmd = command("trustset");
    cmd.wallet_type = Some("XSGD".to_string());
    assert_eq!(
        trustset::construct_blob(&bad, &cmd, 1, "12".to_string()),
        Err("Invalid secret key".to_string())
    );
}

#[test]
fn offer_blob_is_a_signed_offer() {
    let w = wallet();
    let mut cmd = command("offer_create");
    cmd.taker_pays = Some(("10.5".to_string(), "RLUSD".to_string()));
    cmd.taker_gets = Some(("3.25".to_string(), "XRP".to_string()));
    cmd.flags = Some(vec!["tfImmediateOrCancel".to_string()]);
    let blob = offer_create::construct_blob(&w, &cmd, 3, "15".to_string()).unwrap();
    assert!(is_upper_hex(&blob));
    // TransactionType (field 0x12) OfferCreate (7).
    assert!(blob.starts_with("120007"));
    // Flags (field 0x22): tfImmediateOrCancel.
    assert!(blob.contains("2200020000"));
}

#[test]
fn offer_errors() {
    let w = wallet();
    let cmd = command("offer_create");
    assert_eq!(
        offer_create::construct_blob(&w, &cmd, 1, "12".to_string()),
        Err("Missing taker_pays".to_string())
    );
    let mut cmd = command("offer_create");
    cmd.taker_pays = Some(("1".to_string(), "XRP".to_string()));
    assert_eq!(
        offer_create::construct_blob(&w, &cmd, 1, "12".to_string()),
        Err("Missing taker_gets".to_string())
    );
    cmd.taker_gets = Some(("1".to_string(), "DOGE".to_string()));
    assert_eq!(
        offer_create::construct_blob(&w, &cmd, 1, "12".to_string()),
        Err("Unsupported currency: DOGE".to_string())
    );
}

#[test]
fn accounts_that_are_no_classic_address_are_refused() {
    for address in ["", "r", "rr", "rHb9CJAWyB4rj91VRWn96DkukG4bwdtyTi"] {
        let mut w = wallet();
        w.address = address.to_string();
        let mut cmd = command("trustset");
        cmd.wallet_type = Some("RLUSD".to_string());
        assert_eq!(
            trustset::construct_blob(&w, &cmd, 1, "12".to_string()),
            Err(format!("Invalid XRP address: {address}"))
        );
        let mut cmd = command("offer_create");
        cmd.taker_pays = Some(("10".to_string(), "RLUSD".to_string()));
        cmd.taker_gets = Some(("1".to_string(), "XRP".to_string()));
        assert_eq!(
            offer_create::construct_blob(&w, &cmd, 1, "12".to_string()),
            Err(format!("Invalid XRP address: {address}"))
        );
    }
}
