use dannesk::pin::{
    change_pin, check_pin, is_valid_pin, load_pin_data, pin_record, save_pin_data, set_pin, verify_pin, PinData,
    PinError,
};

#[test]
fn pins_are_six_ascii_digits() {
    assert!(is_valid_pin("123456"));
    assert!(is_valid_pin("000000"));
    assert!(!is_valid_pin("12345"));
    assert!(!is_valid_pin("1234567"));
    assert!(!is_valid_pin("12345a"));
    assert!(!is_valid_pin("١٢٣٤٥٦"));
    assert!(!is_valid_pin(""));
}

#[test]
fn record_is_salted_sha256_in_base64() {
    let salt: Vec<u8> = (0u8..16).collect();
    let data = pin_record("123456", &salt);
    assert_eq!(data.pin_hash, "mckHc+qc5mo1W9aipuVRIsPK9aFkeFyQsdWMLWO7hoA=");
    assert_eq!(data.pin_salt, "AAECAwQFBgcICQoLDA0ODw==");
}

#[test]
fn a_set_pin_verifies() {
    let data = set_pin("482913").unwrap();
    assert_eq!(check_pin("482913", &data), Ok(()));
    assert_eq!(check_pin("482914", &data), Err(PinError::IncorrectPin));
    assert_eq!(verify_pin("482913", &Ok(data.clone())), Ok(()));
}

#[test]
fn invalid_pins_are_not_set() {
    assert_eq!(set_pin("12345"), Err(PinError::InvalidPin));
    assert_eq!(set_pin("abcdef"), Err(PinError::InvalidPin));
}

#[test]
fn salts_differ_between_records() {
    let a = set_pin("111111").unwrap();
    let b = set_pin("111111").unwrap();
    assert_ne!(a.pin_salt, b.pin_salt);
}

#[test]
fn malformed_records_refuse_every_pin() {
    let data = PinData { pin_hash: "not base64!".to_string(), pin_salt: "AAECAwQFBgcICQoLDA0ODw==".to_string() };
    assert_eq!(check_pin("123456", &data), Err(PinError::IncorrectPin));
    let data = PinData { pin_hash: "mckHc+qc5mo1W9aipuVRIsPK9aFkeFyQsdWMLWO7hoA=".to_string(), pin_salt: "AAECAwQFBgcICQoLDA0ODw".to_string() };
    assert_eq!(check_pin("123456", &data), Err(PinError::IncorrectPin));
}

#[test]
fn missing_record_means_pin_not_set() {
    let loaded = load_pin_data(Err("No such file".to_string()));
    assert_eq!(loaded, Err(PinError::IoError("No such file".to_string())));
    assert_eq!(verify_pin("123456", &loaded), Err(PinError::PinNotSet));
}

#[test]
fn save_errors_become_io_errors() {
    assert_eq!(save_pin_data(Ok(())), Ok(()));
    assert_eq!(save_pin_data(Err("disk full".to_string())), Err(PinError::IoError("disk full".to_string())));
}

#[test]
fn change_pin_needs_the_old_pin() {
    let old = set_pin("123456").unwrap();
    let loaded = Ok(old);
    assert_eq!(change_pin("000000", "654321", &loaded), Err(PinError::IncorrectPin));
    assert_eq!(change_pin("123456", "65432", &loaded), Err(PinError::InvalidPin));
    let new = change_pin("123456", "654321", &loaded).unwrap();
    assert_eq!(check_pin("654321", &new), Ok(()));
    assert_eq!(check_pin("123456", &new), Err(PinError::IncorrectPin));
    assert_eq!(change_pin("123456", "654321", &Err(PinError::PinNotSet)), Err(PinError::PinNotSet));
}

#[test]
fn error_messages() {
    assert_eq!(PinError::InvalidPin.message(), "Invalid PIN: must be a six-digit number");
    assert_eq!(PinError::IoError("boom".to_string()).message(), "IO error: boom");
    assert_eq!(PinError::PinNotSet.message(), "PIN not set");
    assert_eq!(PinError::IncorrectPin.message(), "Incorrect PIN");
}
