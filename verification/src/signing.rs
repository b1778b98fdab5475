//! XRP Ledger transactions of the wallet: what an offer and a trust line
//! are made of, and the signature over the encoded transaction.

use vstd::prelude::*;
use crate::text::{owned, concat, same_text};
use crate::amounts::{XrplAmount, xrpl_amount_matches, xrpl_amount_valid, to_xrpl_amount, xrp_amount_chars, drops_of, asset_config, get_asset_config};
use crate::crypto::{sha512_digest, hex_upper_text, ecdsa_der_signature, is_secret_key, sha512, hex_upper, sign_ecdsa_der};
use crate::ws::WSCommand;
use crate::bridge::{classic_address, is_classic_address};

use crate::codec::{codec_accepts, encode_tx, hex_decode, hex_round_trip, json_with_string_field, tx_binary, with_string_field};

verus! {

/// A flag of an offer.
#[derive(Debug, Clone, Copy, PartialEq, Eq)]
pub enum OfferFlag {
    FillOrKill,
    ImmediateOrCancel,
}

/// The flag that a flag name of a request sets, if any.
pub open spec fn offer_flag_of(name: Seq<char>) -> Option<OfferFlag> {
    if name == "tfFillOrKill"@ {
        Some(OfferFlag::FillOrKill)
    } else if name == "tfImmediateOrCancel"@ {
        Some(OfferFlag::ImmediateOrCancel)
    } else {
        None
    }
}

/// The flags that a list of flag names sets, in order (unknown names are
/// ignored).
pub open spec fn offer_flags_of(names: Seq<String>) -> Seq<OfferFlag>
    decreases names.len(),
{
    if names.len() == 0 {
        Seq::empty()
    } else {
        let rest = offer_flags_of(names.drop_last());
        match offer_flag_of(names.last()@) {
            Some(f) => rest.push(f),
            None => rest,
        }
    }
}

/// The bit of an offer flag in a transaction's `Flags` field.
pub open spec fn offer_flag_bit(f: OfferFlag) -> u32 {
    match f {
        OfferFlag::FillOrKill => 0x0004_0000u32,
        OfferFlag::ImmediateOrCancel => 0x0002_0000u32,
    }
}

/// The `Flags` field of an offer with the flags `flags`: the bits of the
/// flags it holds (a flag named twice counts once).
pub open spec fn offer_flags_mask(flags: Seq<OfferFlag>) -> u32 {
    let fill_or_kill = if flags.contains(OfferFlag::FillOrKill) { offer_flag_bit(OfferFlag::FillOrKill) } else { 0u32 };
    let immediate = if flags.contains(OfferFlag::ImmediateOrCancel) {
        offer_flag_bit(OfferFlag::ImmediateOrCancel)
    } else {
        0u32
    };
    (fill_or_kill + immediate) as u32
}

/// The `Flags` field of an offer sets the fill-or-kill bit (0x00040000)
/// exactly when the offer has that flag, the immediate-or-cancel bit
/// (0x00020000) exactly when it has that one, and no other bit.
pub proof fn offer_flags_bits(flags: Seq<OfferFlag>)
    ensures
        (offer_flags_mask(flags) & 0x0004_0000u32 != 0) <==> flags.contains(OfferFlag::FillOrKill),
        (offer_flags_mask(flags) & 0x0002_0000u32 != 0) <==> flags.contains(OfferFlag::ImmediateOrCancel),
        offer_flags_mask(flags) & !0x0006_0000u32 == 0,
{
    let m = offer_flags_mask(flags);
    assert(m == 0u32 || m == 0x0002_0000u32 || m == 0x0004_0000u32 || m == 0x0006_0000u32);
    assert(flags.contains(OfferFlag::FillOrKill) ==> m == 0x0004_0000u32 || m == 0x0006_0000u32);
    assert(!flags.contains(OfferFlag::FillOrKill) ==> m == 0u32 || m == 0x0002_0000u32);
    assert(flags.contains(OfferFlag::ImmediateOrCancel) ==> m == 0x0002_0000u32 || m == 0x0006_0000u32);
    assert(!flags.contains(OfferFlag::ImmediateOrCancel) ==> m == 0u32 || m == 0x0004_0000u32);
    assert(0u32 & 0x0004_0000u32 == 0 && 0u32 & 0x0002_0000u32 == 0 && 0u32 & !0x0006_0000u32 == 0) by (bit_vector);
    assert(0x0002_0000u32 & 0x0004_0000u32 == 0 && 0x0002_0000u32 & 0x0002_0000u32 != 0
        && 0x0002_0000u32 & !0x0006_0000u32 == 0) by (bit_vector);
    assert(0x0004_0000u32 & 0x0004_0000u32 != 0 && 0x0004_0000u32 & 0x0002_0000u32 == 0
        && 0x0004_0000u32 & !0x0006_0000u32 == 0) by (bit_vector);
    assert(0x0006_0000u32 & 0x0004_0000u32 != 0 && 0x0006_0000u32 & 0x0002_0000u32 != 0
        && 0x0006_0000u32 & !0x0006_0000u32 == 0) by (bit_vector);
}

/// A request's flag names set the fill-or-kill flag exactly when one of
/// them is `tfFillOrKill`, and the immediate-or-cancel flag exactly when
/// one is `tfImmediateOrCancel`; no other flag is set.
pub proof fn offer_flag_names(names: Seq<String>)
    ensures
        offer_flags_of(names).contains(OfferFlag::FillOrKill) <==> exists|i: int|
            0 <= i < names.len() && #[trigger] names[i]@ == "tfFillOrKill"@,
        offer_flags_of(names).contains(OfferFlag::ImmediateOrCancel) <==> exists|i: int|
            0 <= i < names.len() && #[trigger] names[i]@ == "tfImmediateOrCancel"@,
    decreases names.len(),
{
    reveal_strlit("tfFillOrKill");
    reveal_strlit("tfImmediateOrCancel");
    assert("tfFillOrKill"@ != "tfImmediateOrCancel"@) by {
        assert("tfFillOrKill"@.len() != "tfImmediateOrCancel"@.len());
    }
    if names.len() > 0 {
        let init = names.drop_last();
        offer_flag_names(init);
        let rest = offer_flags_of(init);
        let last = names.last();
        let k = names.len() - 1;
        assert(names[k] == last);
        assert forall|i: int| 0 <= i < init.len() implies #[trigger] init[i] == names[i] by {}
        match offer_flag_of(last@) {
            Some(f) => {
                vstd::seq_lib::lemma_seq_contains_after_push(rest, f, OfferFlag::FillOrKill);
                vstd::seq_lib::lemma_seq_contains_after_push(rest, f, OfferFlag::ImmediateOrCancel);
            },
            None => {},
        }
        if exists|i: int| 0 <= i < names.len() && #[trigger] names[i]@ == "tfFillOrKill"@ {
            let i = choose|i: int| 0 <= i < names.len() && #[trigger] names[i]@ == "tfFillOrKill"@;
            if i < k {
                assert(init[i]@ == "tfFillOrKill"@);
            }
        }
        if exists|i: int| 0 <= i < names.len() && #[trigger] names[i]@ == "tfImmediateOrCancel"@ {
            let i = choose|i: int| 0 <= i < names.len() && #[trigger] names[i]@ == "tfImmediateOrCancel"@;
            if i < k {
                assert(init[i]@ == "tfImmediateOrCancel"@);
            }
        }
        if exists|i: int| 0 <= i < init.len() && #[trigger] init[i]@ == "tfFillOrKill"@ {
            let i = choose|i: int| 0 <= i < init.len() && #[trigger] init[i]@ == "tfFillOrKill"@;
            assert(names[i]@ == "tfFillOrKill"@);
        }
        if exists|i: int| 0 <= i < init.len() && #[trigger] init[i]@ == "tfImmediateOrCancel"@ {
            let i = choose|i: int| 0 <= i < init.len() && #[trigger] init[i]@ == "tfImmediateOrCancel"@;
            assert(names[i]@ == "tfImmediateOrCancel"@);
        }
    }
}

/// The `Flags` field of an offer with the flags `flags`.
pub fn offer_flags_value(flags: &Vec<OfferFlag>) -> (mask: u32)
    ensures
        mask == offer_flags_mask(flags@),
{
    let mut fill_or_kill = false;
    let mut immediate = false;
    let n = flags.len();
    let mut i: usize = 0;
    while i < n
        invariant
            i <= n,
            n == flags@.len(),
            fill_or_kill == flags@.take(i as int).contains(OfferFlag::FillOrKill),
            immediate == flags@.take(i as int).contains(OfferFlag::ImmediateOrCancel),
        decreases n - i,
    {
        proof {
            assert(flags@.take(i + 1) == flags@.take(i as int).push(flags@[i as int]));
            vstd::seq_lib::lemma_seq_contains_after_push(flags@.take(i as int), flags@[i as int], OfferFlag::FillOrKill);
            vstd::seq_lib::lemma_seq_contains_after_push(
                flags@.take(i as int),
                flags@[i as int],
                OfferFlag::ImmediateOrCancel,
            );
        }
        match flags[i] {
            OfferFlag::FillOrKill => fill_or_kill = true,
            OfferFlag::ImmediateOrCancel => immediate = true,
        }
        i = i + 1;
    }
    assert(flags@.take(n as int) == flags@);
    let a: u32 = if fill_or_kill { 0x0004_0000u32 } else { 0u32 };
    let b: u32 = if immediate { 0x0002_0000u32 } else { 0u32 };
    a + b
}

/// The flags of an offer request.
pub fn offer_flags(flags: &Option<Vec<String>>) -> (out: Vec<OfferFlag>)
    ensures
        flags matches Some(names) ==> out@ == offer_flags_of(names@),
        flags is None ==> out@.len() == 0,
{
    let mut out: Vec<OfferFlag> = Vec::new();
    match flags {
        Some(names) => {
            let n = names.len();
            let mut i: usize = 0;
            while i < n
                invariant
                    i <= n,
                    n == names@.len(),
                    out@ == offer_flags_of(names@.take(i as int)),
                decreases n - i,
            {
                proof {
                    assert(names@.take(i + 1).drop_last() == names@.take(i as int));
                    assert(names@.take(i + 1).last() == names@[i as int]);
                }
                let name = names[i].as_str();
                if same_text(name, "tfFillOrKill") {
                    out.push(OfferFlag::FillOrKill);
                } else if same_text(name, "tfImmediateOrCancel") {
                    out.push(OfferFlag::ImmediateOrCancel);
                }
                i = i + 1;
            }
            assert(names@.take(n as int) == names@);
        },
        None => {},
    }
    out
}

/// What an offer exchanges: what the taker pays and gets, and its flags.
#[derive(Debug, Clone, PartialEq, Eq)]
pub struct OfferPlan {
    pub taker_pays: XrplAmount,
    pub taker_gets: XrplAmount,
    pub flags: Vec<OfferFlag>,
}

/// The XRP amounts of a request fit in drops.
pub open spec fn xrp_amount_fits(a: Option<(String, String)>) -> bool {
    match a {
        Some(p) => p.1@ == "XRP"@ && xrp_amount_chars(p.0@) ==> drops_of(p.0@) <= u128::MAX,
        None => true,
    }
}

/// The offer of a request: errors when an amount is missing (what the
/// taker pays is checked first) or does not convert.
pub fn offer_plan(cmd: &WSCommand) -> (out: Result<OfferPlan, String>)
    requires
        xrp_amount_fits(cmd.taker_pays),
        xrp_amount_fits(cmd.taker_gets),
    ensures
        cmd.taker_pays is None ==> (out matches Err(e) && e@ == "Missing taker_pays"@),
        cmd.taker_pays is Some && cmd.taker_gets is None ==> (out matches Err(e) && e@ == "Missing taker_gets"@),
        cmd.taker_pays matches Some(p) ==> (cmd.taker_gets matches Some(g) ==> {
            &&& (out is Ok <==> xrpl_amount_valid(p.0@, p.1@) && xrpl_amount_valid(g.0@, g.1@))
            &&& (out matches Ok(plan) ==> xrpl_amount_matches(p.0@, p.1@, Ok(plan.taker_pays))
                && xrpl_amount_matches(g.0@, g.1@, Ok(plan.taker_gets))
                && (cmd.flags matches Some(names) ==> plan.flags@ == offer_flags_of(names@))
                && (cmd.flags is None ==> plan.flags@.len() == 0))
            &&& (out matches Err(e) ==> if xrpl_amount_valid(p.0@, p.1@) {
                xrpl_amount_matches(g.0@, g.1@, Err(e))
            } else {
                xrpl_amount_matches(p.0@, p.1@, Err(e))
            })
        }),
{
    let pays_raw = match &cmd.taker_pays {
        Some(p) => p,
        None => return Err(owned("Missing taker_pays")),
    };
    let gets_raw = match &cmd.taker_gets {
        Some(g) => g,
        None => return Err(owned("Missing taker_gets")),
    };
    let taker_pays = match to_xrpl_amount(pays_raw.0.as_str(), pays_raw.1.as_str()) {
        Ok(a) => a,
        Err(e) => return Err(e),
    };
    let taker_gets = match to_xrpl_amount(gets_raw.0.as_str(), gets_raw.1.as_str()) {
        Ok(a) => a,
        Err(e) => return Err(e),
    };
    Ok(OfferPlan { taker_pays, taker_gets, flags: offer_flags(&cmd.flags) })
}

/// The flags a trust line is set with.
#[derive(Debug, Clone, Copy, PartialEq, Eq)]
pub enum TrustFlag {
    /// `tfSetNoRipple`: no rippling through this trust line.
    SetNoRipple,
}

/// What a trust line is set to: the currency (hex code), its issuer, the
/// limit and the flags.
#[derive(Debug, Clone, PartialEq, Eq)]
pub struct TrustSetPlan {
    pub currency: String,
    pub issuer: String,
    pub limit: String,
    pub flags: Vec<TrustFlag>,
}

/// The trust line of a request: for the issued currency named by its
/// `wallet_type`, with its limit or `1000000` by default, and without
/// rippling.
pub fn trustset_plan(cmd: &WSCommand) -> (out: Result<TrustSetPlan, String>)
    ensures
        cmd.wallet_type is None ==> (out matches Err(e) && e@ == "Missing asset type for trustset"@),
        cmd.wallet_type matches Some(t) ==> match asset_config(t@) {
            None => out matches Err(e) && e@ == "Unsupported asset type for trustset: "@ + t@,
            Some(c) => out matches Ok(plan) && plan.currency@ == c.0 && plan.issuer@ == c.1
                && plan.limit@ == (match cmd.trustline_limit { Some(l) => l@, None => "1000000"@ })
                && plan.flags@ == seq![TrustFlag::SetNoRipple],
        },
{
    let limit = match &cmd.trustline_limit {
        Some(l) => l.clone(),
        None => owned("1000000"),
    };
    let asset_type = match &cmd.wallet_type {
        Some(t) => t.as_str(),
        None => return Err(owned("Missing asset type for trustset")),
    };
    match get_asset_config(asset_type) {
        Some((currency, issuer)) => {
            let mut flags: Vec<TrustFlag> = Vec::new();
            flags.push(TrustFlag::SetNoRipple);
            Ok(TrustSetPlan { currency: owned(currency), issuer: owned(issuer), limit, flags })
        },
        None => Err(concat("Unsupported asset type for trustset: ", asset_type)),
    }
}

/// The bytes hashed for a single signature: the prefix `STX\0`, then the
/// encoded unsigned transaction.
pub open spec fn signing_payload(unsigned: Seq<u8>) -> Seq<u8> {
    seq![0x53u8, 0x54u8, 0x58u8, 0x00u8] + unsigned
}

/// The digest that is signed: the first half of the SHA-512 of the payload.
pub open spec fn signing_digest_of(unsigned: Seq<u8>) -> Seq<u8> {
    sha512_digest(signing_payload(unsigned)).take(32)
}

/// The digest to sign for an encoded unsigned transaction.
pub fn signing_digest(unsigned: &[u8]) -> (digest: Vec<u8>)
    ensures
        digest@ == signing_digest_of(unsigned@),
        digest@.len() == 32,
{
    let mut payload: Vec<u8> = Vec::new();
    payload.push(0x53u8);
    payload.push(0x54u8);
    payload.push(0x58u8);
    payload.push(0x00u8);
    for i in 0..unsigned.len()
        invariant
            payload@ == seq![0x53u8, 0x54u8, 0x58u8, 0x00u8] + unsigned@.take(i as int),
    {
        payload.push(unsigned[i]);
        assert(unsigned@.take(i + 1) == unsigned@.take(i as int).push(unsigned@[i as int]));
    }
    assert(unsigned@.take(unsigned@.len() as int) == unsigned@);
    let hash = sha512(payload.as_slice());
    let mut digest: Vec<u8> = Vec::new();
    for j in 0..32
        invariant
            hash@.len() == 64,
            digest@ == hash@.take(j as int),
    {
        digest.push(hash[j]);
        assert(hash@.take(j + 1) == hash@.take(j as int).push(hash@[j as int]));
    }
    digest
}

/// The signature of an encoded unsigned transaction with the secret key
/// `secret_key`, as upper-case hexadecimal DER; nothing when the key is no
/// secp256k1 secret key.
pub fn transaction_signature(secret_key: &[u8], unsigned: &[u8]) -> (signature: Option<String>)
    ensures
        signature is Some <==> is_secret_key(secret_key@),
        signature matches Some(s) ==> s@ == hex_upper_text(ecdsa_der_signature(secret_key@, signing_digest_of(unsigned@))),
{
    let digest = signing_digest(unsigned);
    match sign_ecdsa_der(secret_key, digest.as_slice()) {
        Some(der) => Some(hex_upper(der.as_slice())),
        None => None,
    }
}

/// The signing public key field: the compressed key in upper-case hexadecimal.
pub fn signing_public_key(public_key: &[u8]) -> (text: String)
    ensures
        text@ == hex_upper_text(public_key@),
{
    hex_upper(public_key)
}

/// The error for an account text of a transaction that is no classic XRP
/// Ledger address, which the binary codec cannot encode.
pub open spec fn address_error(a: Seq<char>) -> Seq<char> {
    "Invalid XRP address: "@ + a
}

/// The error for `a` when it is no classic XRP Ledger address.
pub fn check_address(a: &str) -> (out: Result<(), String>)
    ensures
        is_classic_address(a@) ==> out is Ok,
        !is_classic_address(a@) ==> (out matches Err(e) && e@ == address_error(a@)),
{
    if classic_address(a) {
        Ok(())
    } else {
        Err(concat("Invalid XRP address: ", a))
    }
}

/// Where signing and encoding a transaction stopped.
#[derive(Debug, Clone, Copy, PartialEq, Eq)]
pub enum BlobFailure {
    /// A signing field could not be set in the transaction's JSON text.
    Reserialize,
    /// The unsigned transaction could not be encoded.
    UnsignedEncoding,
    /// The secret key is no secp256k1 secret key.
    InvalidKey,
    /// The signed transaction could not be encoded.
    FinalEncoding,
}

/// The signed blob of the transaction written as JSON text `json`: with
/// `SigningPubKey` set to the public key in upper-case hex, the unsigned
/// transaction is encoded and its signing digest signed with the secret
/// key; with `TxnSignature` set to that signature in upper-case hex, the
/// transaction is encoded again, and that encoding in upper-case hex is the
/// blob.
pub open spec fn signed_blob_of(json: Seq<char>, public_key: Seq<u8>, secret_key: Seq<u8>) -> Result<Seq<char>, BlobFailure> {
    match json_with_string_field(json, "SigningPubKey"@, hex_upper_text(public_key)) {
        None => Err(BlobFailure::Reserialize),
        Some(unsigned) => match tx_binary(unsigned) {
            None => Err(BlobFailure::UnsignedEncoding),
            Some(bytes) => if !is_secret_key(secret_key) {
                Err(BlobFailure::InvalidKey)
            } else {
                let signature = hex_upper_text(ecdsa_der_signature(secret_key, signing_digest_of(bytes)));
                match json_with_string_field(unsigned, "TxnSignature"@, signature) {
                    None => Err(BlobFailure::Reserialize),
                    Some(signed) => match tx_binary(signed) {
                        None => Err(BlobFailure::FinalEncoding),
                        Some(blob) => Ok(hex_upper_text(blob)),
                    },
                }
            },
        },
    }
}

/// Signs the transaction written as JSON text `json` with the key pair and
/// encodes it (see `signed_blob_of`); `json` is a text that the binary
/// codec returns on, as the transaction models write them.
pub fn sign_and_encode(json: &str, public_key: &[u8], secret_key: &[u8]) -> (out: Result<String, BlobFailure>)
    requires
        codec_accepts(json@),
    ensures
        match out {
            Ok(b) => signed_blob_of(json@, public_key@, secret_key@) == Ok::<Seq<char>, BlobFailure>(b@),
            Err(f) => signed_blob_of(json@, public_key@, secret_key@) == Err::<Seq<char>, BlobFailure>(f),
        },
{
    let pub_key_hex = signing_public_key(public_key);
    let unsigned = match with_string_field(json, "SigningPubKey", pub_key_hex.as_str()) {
        Some(t) => t,
        None => return Err(BlobFailure::Reserialize),
    };
    let unsigned_hex = match encode_tx(unsigned.as_str()) {
        Some(h) => h,
        None => return Err(BlobFailure::UnsignedEncoding),
    };
    let ghost bytes = tx_binary(unsigned@)->0;
    proof {
        hex_round_trip(bytes);
    }
    let unsigned_bytes = match hex_decode(unsigned_hex.as_str()) {
        Some(b) => b,
        None => return Err(BlobFailure::UnsignedEncoding),
    };
    assert(unsigned_bytes@ == bytes);
    let signature = match transaction_signature(secret_key, unsigned_bytes.as_slice()) {
        Some(s) => s,
        None => return Err(BlobFailure::InvalidKey),
    };
    let signed = match with_string_field(unsigned.as_str(), "TxnSignature", signature.as_str()) {
        Some(t) => t,
        None => return Err(BlobFailure::Reserialize),
    };
    match encode_tx(signed.as_str()) {
        Some(blob) => Ok(blob),
        None => Err(BlobFailure::FinalEncoding),
    }
}

} // verus!
