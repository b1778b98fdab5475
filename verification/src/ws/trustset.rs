//! The signed `TrustSet` transaction that enables an issued currency.

use vstd::prelude::*;
use crate::amounts::asset_config;
use crate::bridge::Bip44Wallet;
use crate::codec::{trust_set_json, trust_set_json_text};
use crate::bridge::is_classic_address;
use crate::signing::{address_error, check_address, sign_and_encode, signed_blob_of, trustset_plan, BlobFailure, TrustFlag};
use crate::text::{concat, owned, text_result};
use crate::ws::WSCommand;

verus! {

/// The error text for a failure to sign or encode a trust line.
pub open spec fn trustset_failure_text(f: BlobFailure) -> Seq<char> {
    match f {
        BlobFailure::Reserialize => "Failed to reserialize JSON"@,
        BlobFailure::UnsignedEncoding => "Failed to encode unsigned trustline to hex"@,
        BlobFailure::InvalidKey => "Invalid secret key"@,
        BlobFailure::FinalEncoding => "Failed to encode final trustset to hex"@,
    }
}

/// The signed blob of a trust line to `currency` from `issuer` with limit
/// `limit`, set by `wallet` with the fee `fee` at sequence `sequence`. The
/// wallet's address and the issuer must be classic addresses for the
/// transaction to be encoded.
pub open spec fn trustset_blob_of(
    wallet: Bip44Wallet,
    fee: Seq<char>,
    sequence: u32,
    currency: Seq<char>,
    issuer: Seq<char>,
    limit: Seq<char>,
) -> Result<Seq<char>, Seq<char>> {
    match trust_set_json_text(wallet.address@, fee, sequence, currency, issuer, limit, seq![TrustFlag::SetNoRipple]) {
        Err(e) => Err("Failed to serialize trustline to JSON: "@ + e),
        Ok(json) => if !is_classic_address(wallet.address@) {
            Err(address_error(wallet.address@))
        } else if !is_classic_address(issuer) {
            Err(address_error(issuer))
        } else {
            match signed_blob_of(json, wallet.public_key@, wallet.secret_key@) {
                Ok(blob) => Ok(blob),
                Err(f) => Err(trustset_failure_text(f)),
            }
        },
    }
}

fn failure_text(f: BlobFailure) -> (text: String)
    ensures
        text@ == trustset_failure_text(f),
{
    match f {
        BlobFailure::Reserialize => owned("Failed to reserialize JSON"),
        BlobFailure::UnsignedEncoding => owned("Failed to encode unsigned trustline to hex"),
        BlobFailure::InvalidKey => owned("Invalid secret key"),
        BlobFailure::FinalEncoding => owned("Failed to encode final trustset to hex"),
    }
}

/// The signed blob of the trust line that `cmd` asks for (the issued
/// currency named by its `wallet_type`, its limit or `1000000`), set by
/// `wallet_obj` with the fee `fee` at sequence `sequence`.
pub fn construct_blob(wallet_obj: &Bip44Wallet, cmd: &WSCommand, sequence: u32, fee: String) -> (out: Result<String, String>)
    ensures
        cmd.wallet_type is None ==> text_result(out) == Err::<Seq<char>, Seq<char>>("Missing asset type for trustset"@),
        cmd.wallet_type matches Some(t) ==> match asset_config(t@) {
            None => text_result(out) == Err::<Seq<char>, Seq<char>>("Unsupported asset type for trustset: "@ + t@),
            Some(c) => text_result(out) == trustset_blob_of(
                *wallet_obj,
                fee@,
                sequence,
                c.0,
                c.1,
                match cmd.trustline_limit { Some(l) => l@, None => "1000000"@ },
            ),
        },
{
    let plan = match trustset_plan(cmd) {
        Ok(p) => p,
        Err(e) => return Err(e),
    };
    let json = match trust_set_json(wallet_obj.address.as_str(), fee.as_str(), sequence, &plan) {
        Ok(j) => j,
        Err(e) => return Err(concat("Failed to serialize trustline to JSON: ", e.as_str())),
    };
    if let Err(e) = check_address(wallet_obj.address.as_str()) {
        return Err(e);
    }
    if let Err(e) = check_address(plan.issuer.as_str()) {
        return Err(e);
    }
    match sign_and_encode(json.as_str(), wallet_obj.public_key.as_slice(), wallet_obj.secret_key.as_slice()) {
        Ok(blob) => Ok(blob),
        Err(f) => Err(failure_text(f)),
    }
}

} // verus!
