//! The XRP Ledger transaction models of the `xrpl` crate, serialised to
//! JSON, the binary format of `rippled_binary_codec`, and hexadecimal text.

use vstd::prelude::*;
use crate::amounts::{XrplAmount, XrplAmountView};
use crate::bridge::is_classic_address;
use crate::crypto::{hex_digit_upper, hex_upper_text};
use crate::signing::{TrustFlag, TrustSetPlan};
use crate::text::is_hex_digit;
use xrpl::models::transactions::offer_create::{OfferCreate, OfferCreateFlag};
use xrpl::models::transactions::trust_set::{TrustSet, TrustSetFlag};
use xrpl::models::{Amount, FlagCollection, IssuedCurrencyAmount};

verus! {

/// Whether `rippled_binary_codec::serialize::serialize_tx` returns on the
/// JSON text `json` rather than panicking. It panics where a field of type
/// `STObject`, or an element of an `STArray` field, is an empty JSON object
/// (it takes that object's first key without checking that there is one),
/// and where an account text (an `AccountID` field, or the issuer of an
/// issued amount) decodes, in `ripple-address-codec`, to fewer than five
/// bytes (it slices off the four checksum bytes before checking the
/// length).
pub uninterp spec fn codec_accepts(json: Seq<char>) -> bool;

/// The issuer of an issued amount is a classic address; an XRP amount has
/// none.
pub open spec fn issuer_is_classic(a: XrplAmountView) -> bool {
    match a {
        XrplAmountView::Xrp(_) => true,
        XrplAmountView::Issued(_, issuer, _) => is_classic_address(issuer),
    }
}

/// The JSON text of the `TrustSet` transaction of `account` with the fee
/// `fee`, the sequence `sequence`, the flags `flags` and the limit `limit`
/// of `currency` from `issuer`, as `xrpl` models it and `serde_json` writes
/// it, or the serialiser's error text.
pub uninterp spec fn trust_set_json_text(
    account: Seq<char>,
    fee: Seq<char>,
    sequence: u32,
    currency: Seq<char>,
    issuer: Seq<char>,
    limit: Seq<char>,
    flags: Seq<TrustFlag>,
) -> Result<Seq<char>, Seq<char>>;

/// `xrpl::models::transactions::trust_set::TrustSet::new` with the plan's
/// limit and flags, then `serde_json::to_value` written as text: the result
/// is `trust_set_json_text` of the arguments. The model sets no memos and no
/// signers (absent fields are not written), so the text holds no `STObject`
/// or `STArray` field; its account texts are `account` and the issuer, and
/// where both are classic addresses (which decode to twenty-five bytes)
/// `serialize_tx` returns on it. Nothing is said of other accounts.
#[verifier::external_body]
pub(crate) fn trust_set_json(account: &str, fee: &str, sequence: u32, plan: &TrustSetPlan) -> (out:
    Result<String, String>)
    ensures
        match out {
            Ok(t) => trust_set_json_text(account@, fee@, sequence, plan.currency@, plan.issuer@, plan.limit@, plan.flags@)
                == Ok::<Seq<char>, Seq<char>>(t@),
            Err(e) => trust_set_json_text(account@, fee@, sequence, plan.currency@, plan.issuer@, plan.limit@, plan.flags@)
                == Err::<Seq<char>, Seq<char>>(e@),
        },
        out matches Ok(t) ==> (is_classic_address(account@) && is_classic_address(plan.issuer@) ==> codec_accepts(t@)),
{
    let limit = IssuedCurrencyAmount::new(plan.currency.clone().into(), plan.issuer.clone().into(), plan.limit.clone().into());
    let flags: Vec<TrustSetFlag> = plan.flags.iter().map(|f| match f { TrustFlag::SetNoRipple => TrustSetFlag::TfSetNoRipple }).collect();
    let fee = Some(fee.into());
    let tx = TrustSet::new(account.into(), None, fee, Some(flags.into()), None, None, Some(sequence), None, None, None, limit, None, None);
    serde_json::to_value(&tx).map(|v| v.to_string()).map_err(|e| e.to_string())
}

/// The JSON text of the `OfferCreate` transaction of `account` with the fee
/// `fee`, the sequence `sequence` and the `Flags` bits `flags`, buying
/// `pays` for `gets`, as `xrpl` models it and `serde_json` writes it, or
/// the error text of the model or the serialiser.
pub uninterp spec fn offer_create_json_text(
    account: Seq<char>,
    fee: Seq<char>,
    sequence: u32,
    pays: XrplAmountView,
    gets: XrplAmountView,
    flags: u32,
) -> Result<Seq<char>, Seq<char>>;

/// `xrpl::models::transactions::offer_create::OfferCreate::new` with the
/// amounts and the flag collection of the bits `flags`
/// (`FlagCollection::try_from`), then `serde_json::to_value` written as
/// text: the result is `offer_create_json_text` of the arguments. The model
/// sets no memos and no signers, so the text holds no `STObject` or
/// `STArray` field; its account texts are `account` and the issuers of the
/// issued amounts, and where all are classic addresses `serialize_tx`
/// returns on it. Nothing is said of other accounts.
#[verifier::external_body]
pub(crate) fn offer_create_json(
    account: &str,
    fee: &str,
    sequence: u32,
    pays: &XrplAmount,
    gets: &XrplAmount,
    flags: u32,
) -> (out: Result<String, String>)
    ensures
        match out {
            Ok(t) => offer_create_json_text(account@, fee@, sequence, pays@, gets@, flags) == Ok::<Seq<char>, Seq<char>>(t@),
            Err(e) => offer_create_json_text(account@, fee@, sequence, pays@, gets@, flags) == Err::<Seq<char>, Seq<char>>(e@),
        },
        out matches Ok(t) ==> (is_classic_address(account@) && issuer_is_classic(pays@) && issuer_is_classic(gets@)
            ==> codec_accepts(t@)),
{
    let amount = |a: &XrplAmount| match a.clone() {
        XrplAmount::Xrp(d) => Amount::XRPAmount(d.into()),
        XrplAmount::Issued { currency, issuer, value } => IssuedCurrencyAmount::new(currency.into(), issuer.into(), value.into()).into(),
    };
    let flags = FlagCollection::<OfferCreateFlag>::try_from(flags).map_err(|e| e.to_string())?;
    let tx = OfferCreate::new(account.into(), None, Some(fee.into()), Some(flags), None, None, Some(sequence), None, None, None, amount(gets), amount(pays), None, None);
    Ok(serde_json::to_value(&tx).map_err(|e| e.to_string())?.to_string())
}

/// The JSON text `json` with the string `value` set under `key`, as
/// `serde_json` reads, changes and writes it (a document that is no object
/// is written back unchanged), or `None` where `json` does not parse.
pub uninterp spec fn json_with_string_field(json: Seq<char>, key: Seq<char>, value: Seq<char>) -> Option<Seq<char>>;

/// `serde_json::from_str::<Value>`, `Map::insert` of `Value::String(value)`
/// under `key`, and `to_string`: the result is `json_with_string_field` of
/// the arguments. The other fields are written back as they were read. The
/// `Blob` fields `SigningPubKey` and `TxnSignature` take any string without
/// panicking (text that is no hex gives `None`), so setting one of them
/// keeps a text that `serialize_tx` returns on; nothing is said of other
/// keys.
#[verifier::external_body]
pub(crate) fn with_string_field(json: &str, key: &str, value: &str) -> (out: Option<String>)
    ensures
        match out {
            Some(t) => json_with_string_field(json@, key@, value@) == Some(t@),
            None => json_with_string_field(json@, key@, value@) is None,
        },
        out matches Some(t) ==> (codec_accepts(json@) && (key@ == "SigningPubKey"@ || key@ == "TxnSignature"@)
            ==> codec_accepts(t@)),
{
    let mut v: serde_json::Value = match serde_json::from_str(json) {
        Ok(v) => v,
        Err(_) => return None,
    };
    if let Some(obj) = v.as_object_mut() {
        obj.insert(key.to_string(), serde_json::Value::String(value.to_string()));
    }
    Some(v.to_string())
}

/// The canonical binary encoding of the transaction written as JSON text
/// `json`, as `rippled_binary_codec` computes it, or `None` where the text
/// is no JSON object or one of its fields cannot be encoded.
pub uninterp spec fn tx_binary(json: Seq<char>) -> Option<Seq<u8>>;

/// `rippled_binary_codec::serialize::serialize_tx(json, false)`: the
/// encoding `tx_binary(json)`, which the crate writes as upper-case hex.
#[verifier::external_body]
pub(crate) fn encode_tx(json: &str) -> (hex: Option<String>)
    requires
        codec_accepts(json@),
    ensures
        match hex {
            Some(h) => tx_binary(json@) matches Some(b) && h@ == hex_upper_text(b),
            None => tx_binary(json@) is None,
        },
{
    rippled_binary_codec::serialize::serialize_tx(json.to_string(), false)
}

/// The value of a hexadecimal digit.
pub open spec fn hex_value(c: char) -> nat {
    if '0' <= c && c <= '9' {
        (c as int - '0' as int) as nat
    } else if 'a' <= c && c <= 'f' {
        (c as int - 'a' as int + 10) as nat
    } else {
        (c as int - 'A' as int + 10) as nat
    }
}

/// The bytes that `t` writes as two hexadecimal digits each (either case),
/// or `None` where its length is odd or a character is no hexadecimal
/// digit.
pub open spec fn hex_decoded(t: Seq<char>) -> Option<Seq<u8>> {
    if t.len() % 2 == 0 && forall|i: int| 0 <= i < t.len() ==> is_hex_digit(#[trigger] t[i]) {
        Some(Seq::new(t.len() / 2, |i: int| (hex_value(t[2 * i]) * 16 + hex_value(t[2 * i + 1])) as u8))
    } else {
        None
    }
}

/// `hex::decode`: the bytes `hex_decoded(text)`, or `None` where the text
/// is no hexadecimal (odd length or another character).
#[verifier::external_body]
pub(crate) fn hex_decode(text: &str) -> (bytes: Option<Vec<u8>>)
    ensures
        match bytes {
            Some(b) => hex_decoded(text@) == Some(b@),
            None => hex_decoded(text@) is None,
        },
{
    hex::decode(text).ok()
}

/// The upper-case hex text of `b` has two digits per byte: the high and the
/// low half of the byte.
pub proof fn lemma_hex_upper_digits(b: Seq<u8>)
    ensures
        hex_upper_text(b).len() == 2 * b.len(),
        forall|i: int| 0 <= i < b.len() ==> {
            &&& #[trigger] hex_upper_text(b)[2 * i] == hex_digit_upper((b[i] / 16) as nat)
            &&& hex_upper_text(b)[2 * i + 1] == hex_digit_upper((b[i] % 16) as nat)
        },
    decreases b.len(),
{
    if b.len() > 0 {
        let rest = b.drop_last();
        lemma_hex_upper_digits(rest);
        assert forall|i: int| 0 <= i < b.len() implies {
            &&& #[trigger] hex_upper_text(b)[2 * i] == hex_digit_upper((b[i] / 16) as nat)
            &&& hex_upper_text(b)[2 * i + 1] == hex_digit_upper((b[i] % 16) as nat)
        } by {
            if i < rest.len() {
                assert(hex_upper_text(rest)[2 * i] == hex_digit_upper((rest[i] / 16) as nat));
            }
        }
    }
}

/// A digit written by `hex_digit_upper` reads back as its value.
pub proof fn lemma_hex_digit_round_trip(n: nat)
    requires
        n < 16,
    ensures
        is_hex_digit(hex_digit_upper(n)),
        hex_value(hex_digit_upper(n)) == n,
{
}

/// Upper-case hex text decodes to the bytes it was written from.
pub proof fn hex_round_trip(b: Seq<u8>)
    ensures
        hex_decoded(hex_upper_text(b)) == Some(b),
{
    let t = hex_upper_text(b);
    lemma_hex_upper_digits(b);
    assert forall|i: int| 0 <= i < t.len() implies is_hex_digit(#[trigger] t[i]) by {
        let j = i / 2;
        assert(0 <= j < b.len());
        lemma_hex_digit_round_trip((b[j] / 16) as nat);
        lemma_hex_digit_round_trip((b[j] % 16) as nat);
        if i % 2 == 0 {
            assert(t[2 * j] == hex_digit_upper((b[j] / 16) as nat));
            assert(i == 2 * j);
        } else {
            assert(t[2 * j] == hex_digit_upper((b[j] / 16) as nat));
            assert(i == 2 * j + 1);
        }
    }
    let d = Seq::new(t.len() / 2, |i: int| (hex_value(t[2 * i]) * 16 + hex_value(t[2 * i + 1])) as u8);
    assert forall|i: int| 0 <= i < b.len() implies d[i] == b[i] by {
        assert(t[2 * i] == hex_digit_upper((b[i] / 16) as nat));
        lemma_hex_digit_round_trip((b[i] / 16) as nat);
        lemma_hex_digit_round_trip((b[i] % 16) as nat);
    }
    assert(d =~= b);
}

} // verus!
