//! The application PIN: its format, the salted record kept on disk, and
//! the checks of the PIN entry screen.

use vstd::prelude::*;
use crate::text::{is_digit, all_digits, chars_of, owned, concat};
use crate::crypto::{base64_injective, sha256_digest, base64_text, sha256, base64_encode, base64_decode, random_salt};
use vstd::string::StringSliceAdditionalSpecFns;

verus! {

/// Why a PIN operation failed.
#[derive(Debug, Clone, PartialEq, Eq)]
pub enum PinError {
    /// The PIN is not six ASCII digits.
    InvalidPin,
    /// Reading or writing the stored record failed.
    IoError(String),
    /// No PIN record is stored.
    PinNotSet,
    /// The PIN does not match the stored record.
    IncorrectPin,
}

/// The text shown for each error.
pub open spec fn pin_error_text(e: PinError) -> Seq<char> {
    match e {
        PinError::InvalidPin => "Invalid PIN: must be a six-digit number"@,
        PinError::IoError(m) => "IO error: "@ + m@,
        PinError::PinNotSet => "PIN not set"@,
        PinError::IncorrectPin => "Incorrect PIN"@,
    }
}

impl PinError {
    /// The message that describes the error to the user.
    pub fn message(&self) -> (text: String)
        ensures
            text@ == pin_error_text(*self),
    {
        match self {
            PinError::InvalidPin => owned("Invalid PIN: must be a six-digit number"),
            PinError::IoError(m) => concat("IO error: ", m.as_str()),
            PinError::PinNotSet => owned("PIN not set"),
            PinError::IncorrectPin => owned("Incorrect PIN"),
        }
    }
}

/// The stored PIN record: the Base64 SHA-256 digest of the salt followed
/// by the PIN's UTF-8 bytes, and the Base64 salt.
#[derive(Debug, Clone, PartialEq, Eq)]
pub struct PinData {
    pub pin_hash: String,
    pub pin_salt: String,
}

/// A PIN is exactly six ASCII digits.
pub open spec fn valid_pin(pin: Seq<char>) -> bool {
    pin.len() == 6 && all_digits(pin)
}

/// A PIN is valid exactly when it is six characters, each an ASCII digit.
pub proof fn valid_pin_is_six_digits(pin: Seq<char>)
    ensures
        valid_pin(pin) <==> (pin.len() == 6 && forall|i: int| 0 <= i < 6 ==> '0' <= #[trigger] pin[i] <= '9'),
{
}

/// The UTF-8 bytes of a text.
pub open spec fn utf8(s: Seq<char>) -> Seq<u8> {
    vstd::utf8::encode_utf8(s)
}

/// The digest that a record keeps for `pin` with `salt`.
pub open spec fn pin_digest(pin: Seq<char>, salt: Seq<u8>) -> Seq<u8> {
    sha256_digest(salt + utf8(pin))
}

/// `data` is the record of `pin` made with `salt`.
pub open spec fn is_record_of(data: PinData, pin: Seq<char>, salt: Seq<u8>) -> bool {
    &&& data.pin_hash@ == base64_text(pin_digest(pin, salt))
    &&& data.pin_salt@ == base64_text(salt)
}

/// `pin` matches `data`: both fields are Base64 texts, and the digest of
/// the decoded salt followed by the PIN is the decoded digest.
pub open spec fn pin_matches(pin: Seq<char>, data: PinData) -> bool {
    exists|salt: Seq<u8>, digest: Seq<u8>|
        #![trigger base64_text(salt), base64_text(digest)]
        base64_text(salt) == data.pin_salt@ && base64_text(digest) == data.pin_hash@
            && pin_digest(pin, salt) == digest
}

/// Whether `pin` is six ASCII digits.
pub fn is_valid_pin(pin: &str) -> (ok: bool)
    ensures
        ok == valid_pin(pin@),
{
    let cs = chars_of(pin);
    if cs.len() != 6 {
        return false;
    }
    for i in 0..6
        invariant
            cs@ == pin@,
            cs@.len() == 6,
            forall|j: int| 0 <= j < i ==> is_digit(#[trigger] cs@[j]),
    {
        if !('0' <= cs[i] && cs[i] <= '9') {
            assert(!is_digit(cs@[i as int]));
            return false;
        }
    }
    true
}

fn concat_bytes(a: &[u8], b: &[u8]) -> (out: Vec<u8>)
    ensures
        out@ == a@ + b@,
{
    let mut out: Vec<u8> = Vec::new();
    for i in 0..a.len()
        invariant
            out@ == a@.take(i as int),
    {
        out.push(a[i]);
        assert(a@.take(i + 1) == a@.take(i as int).push(a@[i as int]));
    }
    assert(a@.take(a@.len() as int) == a@);
    for j in 0..b.len()
        invariant
            out@ == a@ + b@.take(j as int),
    {
        out.push(b[j]);
        assert(b@.take(j + 1) == b@.take(j as int).push(b@[j as int]));
    }
    assert(b@.take(b@.len() as int) == b@);
    out
}

fn same_bytes(a: &[u8], b: &[u8]) -> (eq: bool)
    ensures
        eq == (a@ == b@),
{
    if a.len() != b.len() {
        return false;
    }
    let n = a.len();
    for i in 0..n
        invariant
            n == a@.len(),
            n == b@.len(),
            forall|j: int| 0 <= j < i ==> a@[j] == b@[j],
    {
        if a[i] != b[i] {
            return false;
        }
    }
    assert(a@ =~= b@);
    true
}

/// The record of `pin` made with `salt`.
pub fn pin_record(pin: &str, salt: &[u8]) -> (data: PinData)
    ensures
        is_record_of(data, pin@, salt@),
        pin_matches(pin@, data),
{
    let bytes = pin.as_bytes();
    let salted = concat_bytes(salt, bytes);
    let digest = sha256(salted.as_slice());
    let data = PinData { pin_hash: base64_encode(digest.as_slice()), pin_salt: base64_encode(salt) };
    assert(base64_text(salt@) == data.pin_salt@ && base64_text(digest@) == data.pin_hash@);
    data
}

/// Makes the record for a new PIN with a fresh random salt of sixteen
/// bytes; a PIN that is not six ASCII digits is refused.
pub fn set_pin(pin: &str) -> (out: Result<PinData, PinError>)
    ensures
        !valid_pin(pin@) <==> out == Err::<PinData, PinError>(PinError::InvalidPin),
        out is Err ==> out == Err::<PinData, PinError>(PinError::InvalidPin),
        out matches Ok(data) ==> exists|salt: Seq<u8>| salt.len() == 16 && is_record_of(data, pin@, salt),
        out matches Ok(data) ==> pin_matches(pin@, data),
{
    if !is_valid_pin(pin) {
        return Err(PinError::InvalidPin);
    }
    let salt = random_salt();
    let data = pin_record(pin, salt.as_slice());
    assert(salt@.len() == 16);
    Ok(data)
}

/// Checks `pin` against a stored record: `IncorrectPin` when a field is
/// no Base64 text or the digests differ.
pub fn check_pin(pin: &str, data: &PinData) -> (out: Result<(), PinError>)
    ensures
        out is Ok <==> pin_matches(pin@, *data),
        out is Err ==> out == Err::<(), PinError>(PinError::IncorrectPin),
{
    let stored = base64_decode(data.pin_hash.as_str());
    let salt = base64_decode(data.pin_salt.as_str());
    match (stored, salt) {
        (Some(stored), Some(salt)) => {
            let bytes = pin.as_bytes();
            let salted = concat_bytes(salt.as_slice(), bytes);
            let computed = sha256(salted.as_slice());
            if same_bytes(computed.as_slice(), stored.as_slice()) {
                assert(base64_text(salt@) == data.pin_salt@ && base64_text(stored@) == data.pin_hash@);
                Ok(())
            } else {
                proof {
                    if pin_matches(pin@, *data) {
                        let (s, d) = choose|s: Seq<u8>, d: Seq<u8>|
                            base64_text(s) == data.pin_salt@ && base64_text(d) == data.pin_hash@
                                && pin_digest(pin@, s) == d;
                        assert(s == salt@);
                        assert(d == stored@);
                    }
                }
                Err(PinError::IncorrectPin)
            }
        },
        (stored, salt) => {
            proof {
                if pin_matches(pin@, *data) {
                    let (s, d) = choose|s: Seq<u8>, d: Seq<u8>|
                        base64_text(s) == data.pin_salt@ && base64_text(d) == data.pin_hash@
                            && pin_digest(pin@, s) == d;
                    assert(salt is Some);
                    assert(stored is Some);
                }
            }
            Err(PinError::IncorrectPin)
        },
    }
}

/// A record made for a PIN accepts that PIN: what `set_pin` and
/// `pin_record` make, `check_pin` and `verify_pin` accept for the same PIN.
pub proof fn record_accepts_its_pin(pin: Seq<char>, salt: Seq<u8>, data: PinData)
    requires
        is_record_of(data, pin, salt),
    ensures
        pin_matches(pin, data),
{
    assert(base64_text(salt) == data.pin_salt@ && base64_text(pin_digest(pin, salt)) == data.pin_hash@);
}

/// After the PIN is changed, the new record refuses the old PIN, unless
/// SHA-256 gives the record's salt followed by the old PIN the same digest
/// as the salt followed by the new one.
pub proof fn old_pin_refused_after_change(old_pin: Seq<char>, new_pin: Seq<char>, salt: Seq<u8>, data: PinData)
    requires
        is_record_of(data, new_pin, salt),
        pin_digest(old_pin, salt) != pin_digest(new_pin, salt),
    ensures
        !pin_matches(old_pin, data),
{
    if pin_matches(old_pin, data) {
        let (s, d) = choose|s: Seq<u8>, d: Seq<u8>|
            #![trigger base64_text(s), base64_text(d)]
            base64_text(s) == data.pin_salt@ && base64_text(d) == data.pin_hash@ && pin_digest(old_pin, s) == d;
        base64_injective(s, salt);
        base64_injective(d, pin_digest(new_pin, salt));
    }
}

/// The outcome of reading the stored record: a failed read becomes an
/// `IoError` that carries the reason.
pub fn load_pin_data(read: Result<PinData, String>) -> (out: Result<PinData, PinError>)
    ensures
        read matches Ok(d) ==> out == Ok::<PinData, PinError>(d),
        read matches Err(e) ==> out == Err::<PinData, PinError>(PinError::IoError(e)),
{
    match read {
        Ok(d) => Ok(d),
        Err(e) => Err(PinError::IoError(e)),
    }
}

/// The outcome of writing the record: a failed write becomes an `IoError`
/// that carries the reason.
pub fn save_pin_data(written: Result<(), String>) -> (out: Result<(), PinError>)
    ensures
        written is Ok ==> out is Ok,
        written matches Err(e) ==> out == Err::<(), PinError>(PinError::IoError(e)),
{
    match written {
        Ok(()) => Ok(()),
        Err(e) => Err(PinError::IoError(e)),
    }
}

/// Checks `pin` against the loaded record: `PinNotSet` when there is none
/// (loading failed), else as `check_pin`.
pub fn verify_pin(pin: &str, loaded: &Result<PinData, PinError>) -> (out: Result<(), PinError>)
    ensures
        loaded is Err ==> out == Err::<(), PinError>(PinError::PinNotSet),
        loaded matches Ok(d) ==> (out is Ok <==> pin_matches(pin@, *d)),
        loaded matches Ok(d) && out is Err ==> out == Err::<(), PinError>(PinError::IncorrectPin),
{
    match loaded {
        Ok(d) => check_pin(pin, d),
        Err(_) => Err(PinError::PinNotSet),
    }
}

/// Replaces the PIN: the old PIN must match the loaded record (errors as
/// `verify_pin`), the new one must be valid (`InvalidPin`); the result is
/// the new record, to be saved.
pub fn change_pin(old_pin: &str, new_pin: &str, loaded: &Result<PinData, PinError>) -> (out: Result<PinData, PinError>)
    ensures
        loaded is Err ==> out == Err::<PinData, PinError>(PinError::PinNotSet),
        loaded matches Ok(d) && !pin_matches(old_pin@, *d) ==> out == Err::<PinData, PinError>(PinError::IncorrectPin),
        loaded matches Ok(d) && pin_matches(old_pin@, *d) && !valid_pin(new_pin@) ==> out == Err::<PinData, PinError>(PinError::InvalidPin),
        loaded matches Ok(d) && pin_matches(old_pin@, *d) && valid_pin(new_pin@) ==> out is Ok,
        out matches Ok(data) ==> pin_matches(new_pin@, data),
        out matches Ok(data) ==> exists|salt: Seq<u8>| salt.len() == 16 && is_record_of(data, new_pin@, salt),
{
    match verify_pin(old_pin, loaded) {
        Err(e) => Err(e),
        Ok(()) => set_pin(new_pin),
    }
}

} // verus!
