use dannesk::bridge::StoredCredentials;
use dannesk::create_flow::{create_next, start_creation, Chain, CreateAction, CreateEvent, CreateStep};

fn credentials(address: &str) -> StoredCredentials {
    StoredCredentials {
        address: address.to_string(),
        encrypted_phrase: "cipher".to_string(),
        salt: "salt".to_string(),
        iv: "iv".to_string(),
    }
}
use dannesk::ws::transaction_sender::{send_transaction, sent_report};

fn report(a: &CreateAction) -> (u8, String) {
    match a {
        CreateAction::Report(p) => (p.percent, p.message.clone()),
        other => panic!("not a report: {other:?}"),
    }
}

#[test]
fn xrp_creation_saves_both_files_then_imports() {
    let (step, actions) = start_creation(Chain::Xrp);
    assert_eq!(step, CreateStep::Deriving);
    assert_eq!(report(&actions[0]), (0, "Deriving XRP Wallet...".to_string()));

    let (step, actions) = create_next(Chain::Xrp, step, CreateEvent::Derived(credentials("rAddr")));
    assert_eq!(step, CreateStep::SavingEncrypted("rAddr".to_string()));
    assert_eq!(report(&actions[0]), (50, "Saving encrypted credentials...".to_string()));
    assert_eq!(
        actions[1],
        CreateAction::WriteEncrypted { file: "xrp_encrypt.json".to_string(), credentials: credentials("rAddr") }
    );

    let (step, actions) = create_next(Chain::Xrp, step, CreateEvent::Written);
    assert_eq!(step, CreateStep::SavingMetadata("rAddr".to_string()));
    assert_eq!(
        actions,
        vec![CreateAction::WriteMetadata { file: "xrp.json".to_string(), address: "rAddr".to_string() }]
    );

    let (step, actions) = create_next(Chain::Xrp, step, CreateEvent::Written);
    assert_eq!(step, CreateStep::Finished);
    match &actions[0] {
        CreateAction::Send(c) => {
            assert_eq!(c.command, "import_wallet");
            assert_eq!(c.wallet.as_deref(), Some("rAddr"));
        }
        other => panic!("expected the import: {other:?}"),
    }
    assert_eq!(actions[1], CreateAction::ShowWallet);

    let (step, actions) = create_next(Chain::Xrp, step, CreateEvent::Written);
    assert_eq!(step, CreateStep::Finished);
    assert!(actions.is_empty());
}

#[test]
fn btc_metadata_failure_rolls_back() {
    let step = CreateStep::SavingMetadata("bc1q".to_string());
    let (step, actions) = create_next(Chain::Btc, step, CreateEvent::WriteFailed("disk full".to_string()));
    assert_eq!(step, CreateStep::Failed);
    assert_eq!(actions[0], CreateAction::Remove("btc_encrypt.json".to_string()));
    assert_eq!(report(&actions[1]), (100, "FS Error (Metadata): disk full".to_string()));
}

#[test]
fn creation_errors_are_reported() {
    let (_, actions) = start_creation(Chain::Btc);
    assert_eq!(report(&actions[0]), (0, "Finalizing wallet creation...".to_string()));
    let (step, actions) =
        create_next(Chain::Btc, CreateStep::Deriving, CreateEvent::DeriveFailed("Encryption failed: x".to_string()));
    assert_eq!(step, CreateStep::Failed);
    assert_eq!(report(&actions[0]), (100, "Encryption failed: x".to_string()));
    let (_, actions) = create_next(Chain::Btc, CreateStep::Deriving, CreateEvent::Crashed("join".to_string()));
    assert_eq!(report(&actions[0]), (100, "Internal Thread Error: join".to_string()));
    let (_, actions) = create_next(Chain::Xrp, CreateStep::Deriving, CreateEvent::Crashed("join".to_string()));
    assert_eq!(report(&actions[0]), (100, "Thread panic".to_string()));
    let (_, actions) = create_next(
        Chain::Xrp,
        CreateStep::SavingEncrypted("r".to_string()),
        CreateEvent::WriteFailed("denied".to_string()),
    );
    assert_eq!(report(&actions[0]), (100, "FS Error: denied".to_string()));
    let (step, actions) = create_next(Chain::Xrp, CreateStep::Deriving, CreateEvent::Written);
    assert_eq!(step, CreateStep::Deriving);
    assert!(actions.is_empty());
}

#[test]
fn submissions_get_fresh_ids() {
    let a = send_transaction("rW", "Payment", "ABCD".to_string(), true).unwrap();
    let b = send_transaction("rW", "Payment", "ABCD".to_string(), true).unwrap();
    assert_eq!((a.wallet.as_str(), a.tx_type.as_str(), a.tx_blob.as_str()), ("rW", "Payment", "ABCD"));
    assert_eq!(a.tx_id.len(), 36);
    assert_ne!(a.tx_id, b.tx_id);
    let f = send_transaction("rW", "Payment", "ABCD".to_string(), false).unwrap_err();
    assert_eq!(f.error, "Internal Error: Outgoing channel not initialized");
    assert!(f.progress.is_none());
}

#[test]
fn send_outcomes_are_reported() {
    let p = sent_report(true).unwrap();
    assert_eq!((p.percent, p.message.as_str()), (70, "Sending Transaction"));
    let f = sent_report(false).unwrap_err();
    assert_eq!(f.error, "Error: Failed to Send Transaction");
    assert_eq!(f.progress.unwrap().percent, 100);
}
