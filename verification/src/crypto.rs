//! The calls into the hashing, encoding and randomness crates, with the
//! contracts that the rest of the library relies on.

use vstd::prelude::*;
use base64::Engine;
use rand::{Rng, RngExt};
use sha2::Digest;
use zeroize::Zeroize;
use core::str::FromStr;

verus! {

/// The SHA-256 digest of `data`, as `sha2::Sha256` computes it.
pub uninterp spec fn sha256_digest(data: Seq<u8>) -> Seq<u8>;

/// The character of the standard Base64 alphabet for the six-bit value `v`:
/// A to Z, a to z, 0 to 9, then `+` and `/`.
pub open spec fn base64_char(v: int) -> char {
    if v < 26 {
        (('A' as int) + v) as char
    } else if v < 52 {
        (('a' as int) + v - 26) as char
    } else if v < 62 {
        (('0' as int) + v - 52) as char
    } else if v == 62 {
        '+'
    } else {
        '/'
    }
}

/// The padded standard Base64 text of `bytes`, as the `STANDARD` engine of
/// the `base64` crate writes it: each group of three bytes gives four
/// characters of six bits each; a last group of one or two bytes is filled
/// with zero bits and padded with `=` to four characters.
pub open spec fn base64_text(bytes: Seq<u8>) -> Seq<char>
    decreases bytes.len(),
{
    if bytes.len() == 0 {
        Seq::empty()
    } else if bytes.len() == 1 {
        let a = bytes[0] as int;
        seq![base64_char(a / 4), base64_char((a % 4) * 16), '=', '=']
    } else if bytes.len() == 2 {
        let a = bytes[0] as int;
        let b = bytes[1] as int;
        seq![base64_char(a / 4), base64_char((a % 4) * 16 + b / 16), base64_char((b % 16) * 4), '=']
    } else {
        let a = bytes[0] as int;
        let b = bytes[1] as int;
        let c = bytes[2] as int;
        seq![base64_char(a / 4), base64_char((a % 4) * 16 + b / 16), base64_char((b % 16) * 4 + c / 64), base64_char(c % 64)]
            + base64_text(bytes.skip(3))
    }
}

/// `sha2::Sha256::digest`: the result is the SHA-256 digest of `data`,
/// which is 32 bytes long.
#[verifier::external_body]
pub(crate) fn sha256(data: &[u8]) -> (digest: Vec<u8>)
    ensures
        digest@ == sha256_digest(data@),
        digest@.len() == 32,
{
    sha2::Sha256::digest(data).to_vec()
}

proof fn lemma_base64_char(v: int, w: int)
    requires
        0 <= v < 64,
        0 <= w < 64,
    ensures
        base64_char(v) != '=',
        base64_char(v) == base64_char(w) ==> v == w,
{
    let cv = base64_char(v) as int;
    let cw = base64_char(w) as int;
    assert(v < 26 ==> cv == 65 + v);
    assert(26 <= v < 52 ==> cv == 97 + v - 26);
    assert(52 <= v < 62 ==> cv == 48 + v - 52);
    assert(w < 26 ==> cw == 65 + w);
    assert(26 <= w < 52 ==> cw == 97 + w - 26);
    assert(52 <= w < 62 ==> cw == 48 + w - 52);
}

proof fn lemma_split(hi: int, lo: int, hi2: int, lo2: int, m: int)
    by (nonlinear_arith)
    requires
        m > 0,
        0 <= lo < m,
        0 <= lo2 < m,
        hi * m + lo == hi2 * m + lo2,
    ensures
        hi == hi2,
        lo == lo2,
{
}

proof fn lemma_byte_parts(a0: int, b0: int, a1: int, b1: int, a2: int, b2: int, two: bool)
    requires
        0 <= a0 < 256, 0 <= b0 < 256, 0 <= a1 < 256, 0 <= b1 < 256, 0 <= a2 < 256, 0 <= b2 < 256,
        a0 / 4 == b0 / 4,
        (a0 % 4) * 16 + a1 / 16 == (b0 % 4) * 16 + b1 / 16,
        two ==> (a1 % 16) * 4 + a2 / 64 == (b1 % 16) * 4 + b2 / 64,
        !two ==> a1 == 0 && b1 == 0,
    ensures
        a0 == b0,
        a1 == b1,
{
    assert(0 <= a1 / 16 < 16 && 0 <= b1 / 16 < 16 && 0 <= a2 / 64 < 4 && 0 <= b2 / 64 < 4) by (nonlinear_arith)
        requires 0 <= a1 < 256, 0 <= b1 < 256, 0 <= a2 < 256, 0 <= b2 < 256;
    assert(0 <= a0 % 4 < 4 && 0 <= b0 % 4 < 4 && 0 <= a1 % 16 < 16 && 0 <= b1 % 16 < 16) by (nonlinear_arith)
        requires 0 <= a0, 0 <= b0, 0 <= a1, 0 <= b1;
    lemma_split(a0 % 4, a1 / 16, b0 % 4, b1 / 16, 16);
    assert(a0 == 4 * (a0 / 4) + a0 % 4 && b0 == 4 * (b0 / 4) + b0 % 4) by (nonlinear_arith)
        requires 0 <= a0, 0 <= b0;
    if two {
        lemma_split(a1 % 16, a2 / 64, b1 % 16, b2 / 64, 4);
        assert(a1 == 16 * (a1 / 16) + a1 % 16 && b1 == 16 * (b1 / 16) + b1 % 16) by (nonlinear_arith)
            requires 0 <= a1, 0 <= b1;
    }
}

/// The length of the Base64 text of `b`: four characters per started group
/// of three bytes.
proof fn lemma_base64_len(b: Seq<u8>)
    ensures
        base64_text(b).len() == 4 * ((b.len() + 2) / 3),
    decreases b.len(),
{
    if b.len() >= 3 {
        lemma_base64_len(b.skip(3));
    }
}

/// Base64 text determines its bytes: two byte strings with the same text
/// are the same.
pub proof fn base64_injective(a: Seq<u8>, b: Seq<u8>)
    requires
        base64_text(a) == base64_text(b),
    ensures
        a == b,
    decreases a.len(),
{
    lemma_base64_len(a);
    lemma_base64_len(b);
    let t = base64_text(a);
    if a.len() == 0 || b.len() == 0 {
        assert(a.len() == 0 && b.len() == 0);
        assert(a =~= b);
    } else {
        let a0 = a[0] as int;
        let b0 = b[0] as int;
        lemma_base64_char(a0 / 4, b0 / 4);
        assert(t[0] == base64_char(a0 / 4) && t[0] == base64_char(b0 / 4));
        let a1 = if a.len() >= 2 { a[1] as int } else { 0 };
        let b1 = if b.len() >= 2 { b[1] as int } else { 0 };
        let a2 = if a.len() >= 3 { a[2] as int } else { 0 };
        let b2 = if b.len() >= 3 { b[2] as int } else { 0 };
        lemma_base64_char((a0 % 4) * 16 + a1 / 16, (b0 % 4) * 16 + b1 / 16);
        assert(t[1] == base64_char((a0 % 4) * 16 + a1 / 16) && t[1] == base64_char((b0 % 4) * 16 + b1 / 16));
        lemma_base64_char((a1 % 16) * 4 + a2 / 64, (b1 % 16) * 4 + b2 / 64);
        lemma_base64_char(a2 % 64, b2 % 64);
        // The padding tells how many bytes the first group holds.
        assert(a.len() == 1 <==> t[2] == '=');
        assert(b.len() == 1 <==> t[2] == '=');
        assert(a.len() == 2 <==> (t[2] != '=' && t[3] == '='));
        assert(b.len() == 2 <==> (t[2] != '=' && t[3] == '='));
        lemma_byte_parts(a0, b0, a1, b1, a2, b2, a.len() >= 2);
        if a.len() == 1 {
            assert(a =~= b);
        } else if a.len() == 2 {
            assert(a =~= b);
        } else {
            lemma_split(a1 % 16, a2 / 64, b1 % 16, b2 / 64, 64);
            assert(a2 == 64 * (a2 / 64) + a2 % 64 && b2 == 64 * (b2 / 64) + b2 % 64) by (nonlinear_arith)
                requires 0 <= a2 < 256, 0 <= b2 < 256;
            assert(t.skip(4) =~= base64_text(a.skip(3)));
            assert(t.skip(4) =~= base64_text(b.skip(3)));
            base64_injective(a.skip(3), b.skip(3));
            assert(a =~= a.take(3) + a.skip(3));
            assert(b =~= b.take(3) + b.skip(3));
            assert(a.take(3) =~= b.take(3));
        }
    }
}

/// `Engine::encode` of the `STANDARD` Base64 engine: the result is the
/// padded standard Base64 text of `bytes`.
#[verifier::external_body]
pub(crate) fn base64_encode(bytes: &[u8]) -> (text: String)
    ensures
        text@ == base64_text(bytes@),
{
    base64::engine::general_purpose::STANDARD.encode(bytes)
}

/// `Engine::decode` of the `STANDARD` Base64 engine, which requires
/// canonical padding and refuses trailing bits: it succeeds exactly on the
/// texts that `encode` writes, and then gives back the encoded bytes.
#[verifier::external_body]
pub(crate) fn base64_decode(text: &str) -> (bytes: Option<Vec<u8>>)
    ensures
        bytes matches Some(b) ==> base64_text(b@) == text@,
        bytes is None ==> forall|b: Seq<u8>| base64_text(b) != text@,
        bytes matches Some(v) ==> forall|b: Seq<u8>| base64_text(b) == text@ ==> b == v@,
{
    base64::engine::general_purpose::STANDARD.decode(text).ok()
}

/// `zeroize::Zeroize::zeroize` on a byte vector: its bytes and its spare
/// capacity are overwritten with zeros, in a way the compiler does not
/// remove, and the vector is left empty.
#[verifier::external_body]
pub(crate) fn wipe(bytes: &mut Vec<u8>)
    ensures
        final(bytes)@ == Seq::<u8>::empty(),
{
    bytes.zeroize();
}

/// `zeroize::Zeroize::zeroize` on a text: its bytes are overwritten with
/// zeros and the text is left empty.
#[verifier::external_body]
pub(crate) fn wipe_text(text: &mut String)
    ensures
        final(text)@ == Seq::<char>::empty(),
{
    text.zeroize();
}

/// Sixteen bytes drawn from `rand`'s thread-local generator. Nothing is
/// stated of the bytes; the call panics if the operating system cannot
/// seed the generator.
#[verifier::external_body]
pub(crate) fn random_salt() -> (salt: [u8; 16]) {
    rand::rng().random()
}

} // verus!

verus! {

/// Whether `c` is numeric in Unicode's sense (general categories Nd, Nl
/// and No), as std's `char::is_numeric` decides.
pub uninterp spec fn unicode_numeric(c: char) -> bool;

/// Whether `c` is numeric: the ASCII digits (general category Nd) are, and
/// beyond them what `unicode_numeric` says.
pub open spec fn numeric_char(c: char) -> bool {
    ('0' <= c && c <= '9') || unicode_numeric(c)
}

/// Whether `c` has Unicode's White_Space property, which std's
/// `char::is_whitespace` decides: the controls U+0009 to U+000D, the space,
/// U+0085, U+00A0, U+1680, U+2000 to U+200A, U+2028, U+2029, U+202F, U+205F
/// and U+3000.
pub open spec fn unicode_whitespace(c: char) -> bool {
    let n = c as u32;
    ||| 0x09 <= n <= 0x0d
    ||| n == 0x20 || n == 0x85 || n == 0xa0 || n == 0x1680
    ||| 0x2000 <= n <= 0x200a
    ||| n == 0x2028 || n == 0x2029 || n == 0x202f || n == 0x205f || n == 0x3000
}

/// std's `char::is_whitespace`: the result is `unicode_whitespace(c)`.
#[verifier::external_body]
pub(crate) fn is_whitespace(c: char) -> (b: bool)
    ensures
        b == unicode_whitespace(c),
{
    c.is_whitespace()
}

/// std's `char::is_numeric`: the result is `numeric_char(c)`, true on the
/// ASCII digits `0` to `9` and otherwise what `unicode_numeric` says.
#[verifier::external_body]
pub(crate) fn is_numeric(c: char) -> (b: bool)
    ensures
        b == (('0' <= c && c <= '9') || unicode_numeric(c)),
{
    c.is_numeric()
}

} // verus!

verus! {

/// The full Unicode upper-case mapping of `s`, as std's `str::to_uppercase`
/// computes it.
pub uninterp spec fn unicode_uppercase(s: Seq<char>) -> Seq<char>;

/// Whether every character of `s` is ASCII.
pub open spec fn all_ascii(s: Seq<char>) -> bool {
    forall|i: int| 0 <= i < s.len() ==> (s[i] as u32) < 0x80
}

/// `s` with its ASCII lower-case letters made upper-case.
pub open spec fn ascii_upper(s: Seq<char>) -> Seq<char> {
    Seq::new(s.len(), |i: int| if 'a' <= s[i] <= 'z' { ((s[i] as u32) - 32) as char } else { s[i] })
}

/// `s` with its ASCII upper-case letters made lower-case.
pub open spec fn ascii_lower(s: Seq<char>) -> Seq<char> {
    Seq::new(s.len(), |i: int| if 'A' <= s[i] <= 'Z' { ((s[i] as u32) + 32) as char } else { s[i] })
}

/// std's `str::to_uppercase`: the result is `unicode_uppercase(s)`; on an
/// ASCII text that mapping changes the letters a to z into A to Z and
/// nothing else.
#[verifier::external_body]
pub(crate) fn to_uppercase(s: &str) -> (upper: String)
    ensures
        upper@ == unicode_uppercase(s@),
        all_ascii(s@) ==> upper@ == ascii_upper(s@),
{
    s.to_uppercase()
}

/// The full Unicode lower-case mapping of `s`, as std's `str::to_lowercase`
/// computes it.
pub uninterp spec fn unicode_lowercase(s: Seq<char>) -> Seq<char>;

/// std's `str::to_lowercase`: the result is `unicode_lowercase(s)`; on an
/// ASCII text that mapping changes the letters A to Z into a to z and
/// nothing else.
#[verifier::external_body]
pub(crate) fn to_lowercase(s: &str) -> (lower: String)
    ensures
        lower@ == unicode_lowercase(s@),
        all_ascii(s@) ==> lower@ == ascii_lower(s@),
{
    s.to_lowercase()
}

} // verus!

verus! {

/// The RIPEMD-160 digest of `data`, as `ripemd::Ripemd160` computes it.
pub uninterp spec fn ripemd160_digest(data: Seq<u8>) -> Seq<u8>;

/// `ripemd::Ripemd160::digest`: the result is the RIPEMD-160 digest of
/// `data`, which is 20 bytes long.
#[verifier::external_body]
pub(crate) fn ripemd160(data: &[u8]) -> (digest: Vec<u8>)
    ensures
        digest@ == ripemd160_digest(data@),
        digest@.len() == 20,
{
    ripemd::Ripemd160::digest(data).to_vec()
}

/// The alphabet of XRP Ledger addresses (`bs58::Alphabet::RIPPLE`).
pub open spec fn ripple_alphabet() -> Seq<char> {
    "rpshnaf39wBUDNEGHJKLM4PQRST7VWXYZ2bcdeCg65jkm8oFqi1tuvAxyz"@
}

/// The number that the bytes of `b` write in base 256, most significant first.
pub open spec fn big_endian_value(b: Seq<u8>) -> nat
    decreases b.len(),
{
    if b.len() == 0 {
        0
    } else {
        big_endian_value(b.drop_last()) * 256 + (b.last() as nat)
    }
}

/// The number of zero bytes that `b` starts with.
pub open spec fn leading_zero_bytes(b: Seq<u8>) -> nat
    decreases b.len(),
{
    if b.len() > 0 && b[0] == 0 {
        1 + leading_zero_bytes(b.drop_first())
    } else {
        0
    }
}

/// The base-58 digits of `n`, most significant first (none for zero).
pub open spec fn base58_digits(n: nat) -> Seq<nat>
    decreases n,
{
    if n == 0 {
        Seq::empty()
    } else {
        base58_digits(n / 58).push(n % 58)
    }
}

/// Base58 text of `b` in `alphabet`: one first letter per leading zero
/// byte, then the base-58 digits of the number that `b` writes.
pub open spec fn base58_text(b: Seq<u8>, alphabet: Seq<char>) -> Seq<char> {
    Seq::new(leading_zero_bytes(b), |i: int| alphabet[0])
        + base58_digits(big_endian_value(b)).map_values(|d: nat| alphabet[d as int])
}

/// Base58Check text of `payload`: the payload followed by the first four
/// bytes of its double SHA-256, in Base58.
pub open spec fn base58check_text(payload: Seq<u8>, alphabet: Seq<char>) -> Seq<char> {
    base58_text(payload + sha256_digest(sha256_digest(payload)).take(4), alphabet)
}

/// `bs58::encode(payload).with_alphabet(RIPPLE).with_check().into_string()`:
/// the Base58Check text of `payload` in the XRP Ledger alphabet.
#[verifier::external_body]
pub(crate) fn base58check_ripple(payload: &[u8]) -> (text: String)
    ensures
        text@ == base58check_text(payload@, ripple_alphabet()),
{
    bs58::encode(payload).with_alphabet(bs58::Alphabet::RIPPLE).with_check().into_string()
}

/// `bs58::decode(text).with_alphabet(RIPPLE).with_check(None).into_vec()`:
/// the payload whose Base58Check text in the XRP Ledger alphabet is `text`
/// (the checksum is verified and dropped), or `None` when `text` is no such
/// text (a character outside the alphabet, fewer than four bytes, or a
/// wrong checksum). Base58 text and bytes determine each other, so the
/// payload is the only one with that text.
#[verifier::external_body]
pub(crate) fn base58check_ripple_decode(text: &str) -> (payload: Option<Vec<u8>>)
    ensures
        payload matches Some(p) ==> base58check_text(p@, ripple_alphabet()) == text@,
        payload matches Some(p) ==> forall|q: Seq<u8>| base58check_text(q, ripple_alphabet()) == text@ ==> q == p@,
        payload is None ==> forall|q: Seq<u8>| base58check_text(q, ripple_alphabet()) != text@,
{
    bs58::decode(text).with_alphabet(bs58::Alphabet::RIPPLE).with_check(None).into_vec().ok()
}

/// What `bip39::Mnemonic::parse_in(Language::English, phrase)` makes of
/// `phrase`: `None` when it parses, else the text of its error.
pub uninterp spec fn bip39_parse_error(phrase: Seq<char>) -> Option<Seq<char>>;

/// The 64-byte BIP-39 seed of a valid mnemonic `phrase` with `passphrase`,
/// as `bip39::Mnemonic::to_seed` computes it.
pub uninterp spec fn bip39_seed_of(phrase: Seq<char>, passphrase: Seq<char>) -> Seq<u8>;

/// `bip39::Mnemonic::parse_in(Language::English, phrase)` followed by
/// `to_seed(passphrase)`: the seed when the phrase parses, else the text of
/// the parse error.
#[verifier::external_body]
pub(crate) fn bip39_seed(phrase: &str, passphrase: &str) -> (seed: Result<Vec<u8>, String>)
    ensures
        match seed {
            Ok(s) => bip39_parse_error(phrase@) is None && s@ == bip39_seed_of(phrase@, passphrase@) && s@.len() == 64,
            Err(e) => bip39_parse_error(phrase@) == Some(e@),
        },
{
    match bip39::Mnemonic::parse_in(bip39::Language::English, phrase) {
        Ok(m) => Ok(m.to_seed(passphrase).to_vec()),
        Err(e) => Err(e.to_string()),
    }
}

/// The English BIP-39 phrase of `entropy`, as `bip39::Mnemonic` writes it.
pub uninterp spec fn bip39_phrase_of(entropy: Seq<u8>) -> Seq<char>;

/// `bip39::Mnemonic::from_entropy_in(Language::English, entropy)`, written
/// with `to_string`: the phrase `bip39_phrase_of(entropy)`. Entropy of 16
/// to 32 bytes in steps of 4 is accepted, as the crate documents.
#[verifier::external_body]
pub(crate) fn bip39_phrase(entropy: &[u8]) -> (phrase: Option<String>)
    ensures
        match phrase {
            Some(p) => p@ == bip39_phrase_of(entropy@),
            None => !(16 <= entropy@.len() <= 32 && entropy@.len() % 4 == 0),
        },
{
    match bip39::Mnemonic::from_entropy_in(bip39::Language::English, entropy) {
        Ok(m) => Some(m.to_string()),
        Err(_) => None,
    }
}

/// Thirty-two bytes from `rand`'s thread-local generator (`fill_bytes`).
/// Nothing is stated of the bytes; the call panics if the operating system
/// cannot seed the generator.
#[verifier::external_body]
pub(crate) fn random_entropy() -> (entropy: [u8; 32]) {
    let mut entropy = [0u8; 32];
    rand::rng().fill_bytes(&mut entropy);
    entropy
}

/// Whether `path` parses as a BIP-32 derivation path
/// (`bitcoin::bip32::DerivationPath::from_str`).
pub uninterp spec fn bip32_path_valid(path: Seq<char>) -> bool;

/// How a BIP-32 derivation ends: the secret key and the compressed public
/// key, or where it failed, with the text of the outside error.
pub enum Bip32Outcome {
    Keys(Seq<u8>, Seq<u8>),
    MasterKey(Seq<char>),
    InvalidPath,
    Derivation(Seq<char>),
}

/// How the derivation of the key at `path` below the BIP-32 master key of
/// `seed` ends, through the `bitcoin` crate on the Bitcoin network
/// (`Xpriv::new_master`, `DerivationPath::from_str`, `derive_priv`).
pub uninterp spec fn bip32_outcome(seed: Seq<u8>, path: Seq<char>) -> Bip32Outcome;

/// Why a BIP-32 derivation failed, with the text of the outside error.
#[derive(Debug, Clone, PartialEq, Eq)]
pub enum Bip32Failure {
    /// `Xpriv::new_master` refused the seed.
    MasterKey(String),
    /// The path does not parse.
    InvalidPath,
    /// `derive_priv` failed.
    Derivation(String),
}

/// A failure as a derivation outcome.
pub open spec fn failure_outcome(f: Bip32Failure) -> Bip32Outcome {
    match f {
        Bip32Failure::MasterKey(e) => Bip32Outcome::MasterKey(e@),
        Bip32Failure::InvalidPath => Bip32Outcome::InvalidPath,
        Bip32Failure::Derivation(e) => Bip32Outcome::Derivation(e@),
    }
}

/// The key pair at `path` below the BIP-32 master key of `seed`, through
/// the `bitcoin` crate on the Bitcoin network: `Xpriv::new_master`, then
/// `DerivationPath::from_str`, then `derive_priv`; the outcome is
/// `bip32_outcome(seed, path)`. A successful derivation gives the 32 secret
/// key bytes and the 33-byte compressed public key, which secp256k1
/// accepts; the path is refused exactly when it does not parse, unless the
/// master key failed first.
#[verifier::external_body]
pub(crate) fn bip32_derive(seed: &[u8], path: &str) -> (keys: Result<(Vec<u8>, Vec<u8>), Bip32Failure>)
    ensures
        match keys {
            Ok(k) => bip32_outcome(seed@, path@) == Bip32Outcome::Keys(k.0@, k.1@),
            Err(f) => bip32_outcome(seed@, path@) == failure_outcome(f),
        },
        keys matches Ok(k) ==> k.0@.len() == 32 && k.1@.len() == 33 && bip32_path_valid(path@),
        keys matches Ok(k) ==> is_compressed_public_key(k.1@) && is_secret_key(k.0@),
        keys matches Err(Bip32Failure::InvalidPath) ==> !bip32_path_valid(path@),
        keys matches Err(Bip32Failure::Derivation(_)) ==> bip32_path_valid(path@),
{
    let secp = bitcoin::secp256k1::Secp256k1::new();
    let master = match bitcoin::bip32::Xpriv::new_master(bitcoin::Network::Bitcoin, seed) {
        Ok(m) => m,
        Err(e) => return Err(Bip32Failure::MasterKey(e.to_string())),
    };
    let path = match bitcoin::bip32::DerivationPath::from_str(path) {
        Ok(p) => p,
        Err(_) => return Err(Bip32Failure::InvalidPath),
    };
    match master.derive_priv(&secp, &path) {
        Ok(child) => Ok((child.private_key.secret_bytes().to_vec(), child.to_priv().public_key(&secp).inner.serialize().to_vec())),
        Err(e) => Err(Bip32Failure::Derivation(e.to_string())),
    }
}

/// Whether `pk` parses as a secp256k1 public key, as
/// `bitcoin::CompressedPublicKey::from_slice` decides: it takes a valid
/// 33-byte compressed or 65-byte uncompressed encoding (the keys that
/// `derive_priv` yields are such).
pub uninterp spec fn is_compressed_public_key(pk: Seq<u8>) -> bool;

/// The native SegWit (P2WPKH) Bitcoin mainnet address of the compressed
/// public key `pk`, as `bitcoin::Address::p2wpkh` writes it.
pub uninterp spec fn p2wpkh_text(pk: Seq<u8>) -> Seq<char>;

/// `bitcoin::CompressedPublicKey::from_slice` then `Address::p2wpkh` on the
/// Bitcoin network: the address of `pk`, or nothing when `pk` is no
/// compressed public key.
#[verifier::external_body]
pub(crate) fn p2wpkh_address(pk: &[u8]) -> (address: Option<String>)
    ensures
        address matches Some(a) ==> a@ == p2wpkh_text(pk@),
        address is Some <==> is_compressed_public_key(pk@),
{
    match bitcoin::CompressedPublicKey::from_slice(pk) {
        Ok(cpk) => Some(bitcoin::Address::p2wpkh(&cpk, bitcoin::Network::Bitcoin).to_string()),
        Err(_) => None,
    }
}

} // verus!

verus! {

/// Whether `sk` is a valid secp256k1 secret key
/// (`secp256k1::SecretKey::from_slice` accepts it; derived keys are).
pub uninterp spec fn is_secret_key(sk: Seq<u8>) -> bool;

/// The SHA-512 digest of `data`, as `sha2::Sha512` computes it.
pub uninterp spec fn sha512_digest(data: Seq<u8>) -> Seq<u8>;

/// `sha2::Sha512::digest`: the result is the SHA-512 digest of `data`,
/// which is 64 bytes long.
#[verifier::external_body]
pub(crate) fn sha512(data: &[u8]) -> (digest: Vec<u8>)
    ensures
        digest@ == sha512_digest(data@),
        digest@.len() == 64,
{
    sha2::Sha512::digest(data).to_vec()
}

/// The upper-case hexadecimal digit of `n`, which is below sixteen.
pub open spec fn hex_digit_upper(n: nat) -> char {
    if n < 10 {
        (n + 48) as char
    } else {
        (n + 55) as char
    }
}

/// The upper-case hexadecimal text of `b`, two digits per byte.
pub open spec fn hex_upper_text(b: Seq<u8>) -> Seq<char>
    decreases b.len(),
{
    if b.len() == 0 {
        Seq::empty()
    } else {
        hex_upper_text(b.drop_last()) + seq![hex_digit_upper((b.last() / 16) as nat), hex_digit_upper((b.last() % 16) as nat)]
    }
}

/// `hex::encode_upper`: the upper-case hexadecimal text of `bytes`.
#[verifier::external_body]
pub(crate) fn hex_upper(bytes: &[u8]) -> (text: String)
    ensures
        text@ == hex_upper_text(bytes@),
{
    hex::encode_upper(bytes)
}

/// The DER encoding of the deterministic (RFC 6979) ECDSA signature of the
/// 32-byte `digest` with the secp256k1 secret key `sk`, as
/// `secp256k1::Secp256k1::sign_ecdsa` and `serialize_der` produce it.
pub uninterp spec fn ecdsa_der_signature(sk: Seq<u8>, digest: Seq<u8>) -> Seq<u8>;

/// `SecretKey::from_slice`, `Message::from_digest_slice` and `sign_ecdsa`,
/// then `serialize_der`: the signature of `digest` with `sk`, or nothing
/// when `sk` is no valid secret key.
#[verifier::external_body]
pub(crate) fn sign_ecdsa_der(sk: &[u8], digest: &[u8]) -> (signature: Option<Vec<u8>>)
    requires
        digest@.len() == 32,
    ensures
        signature is Some <==> is_secret_key(sk@),
        signature matches Some(s) ==> s@ == ecdsa_der_signature(sk@, digest@),
{
    let secp = bitcoin::secp256k1::Secp256k1::signing_only();
    let key = bitcoin::secp256k1::SecretKey::from_slice(sk).ok()?;
    let message = bitcoin::secp256k1::Message::from_digest_slice(digest).ok()?;
    Some(secp.sign_ecdsa(&message, &key).serialize_der().to_vec())
}

} // verus!
