//! The signed `OfferCreate` transaction of a trade.

use vstd::prelude::*;
use crate::amounts::{lemma_converted_amount_view, xrpl_amount_matches, xrpl_amount_valid, xrpl_amount_view_of, XrplAmountView};
use crate::bridge::Bip44Wallet;
use crate::bridge::is_classic_address;
use crate::codec::{issuer_is_classic, offer_create_json, offer_create_json_text};
use crate::amounts::XrplAmount;
use crate::signing::{
    address_error, check_address, offer_flags_mask, offer_flags_of, offer_flags_value, offer_plan, sign_and_encode, signed_blob_of, xrp_amount_fits,
    BlobFailure, OfferFlag,
};
use crate::text::{concat, owned, text_result};
use crate::ws::WSCommand;

verus! {

/// The error text for a failure to sign or encode an offer.
pub open spec fn offer_failure_text(f: BlobFailure) -> Seq<char> {
    match f {
        BlobFailure::Reserialize => "JSON Serialization Error"@,
        BlobFailure::UnsignedEncoding => "Binary encoding failed"@,
        BlobFailure::InvalidKey => "Invalid secret key"@,
        BlobFailure::FinalEncoding => "Final encoding failed"@,
    }
}

/// The issuer of an issued amount; an XRP amount has none.
pub open spec fn issuer_of(a: XrplAmountView) -> Seq<char> {
    match a {
        XrplAmountView::Xrp(_) => Seq::empty(),
        XrplAmountView::Issued(_, issuer, _) => issuer,
    }
}

/// The signed blob of an offer by `wallet`, with the fee `fee` at sequence
/// `sequence`, buying `pays` for `gets` with the flags `flags`. The
/// wallet's address and the issuers of the amounts must be classic
/// addresses for the transaction to be encoded.
pub open spec fn offer_blob_of(
    wallet: Bip44Wallet,
    fee: Seq<char>,
    sequence: u32,
    pays: XrplAmountView,
    gets: XrplAmountView,
    flags: Seq<OfferFlag>,
) -> Result<Seq<char>, Seq<char>> {
    match offer_create_json_text(wallet.address@, fee, sequence, pays, gets, offer_flags_mask(flags)) {
        Err(e) => Err("JSON Serialization Error: "@ + e),
        Ok(json) => if !is_classic_address(wallet.address@) {
            Err(address_error(wallet.address@))
        } else if !issuer_is_classic(pays) {
            Err(address_error(issuer_of(pays)))
        } else if !issuer_is_classic(gets) {
            Err(address_error(issuer_of(gets)))
        } else {
            match signed_blob_of(json, wallet.public_key@, wallet.secret_key@) {
                Ok(blob) => Ok(blob),
                Err(f) => Err(offer_failure_text(f)),
            }
        },
    }
}

/// The error for the issuer of `a` when it is no classic address.
fn check_issuer(a: &XrplAmount) -> (out: Result<(), String>)
    ensures
        issuer_is_classic(a@) ==> out is Ok,
        !issuer_is_classic(a@) ==> (out matches Err(e) && e@ == address_error(issuer_of(a@))),
{
    match a {
        XrplAmount::Xrp(_) => Ok(()),
        XrplAmount::Issued { issuer, .. } => check_address(issuer.as_str()),
    }
}

fn failure_text(f: BlobFailure) -> (text: String)
    ensures
        text@ == offer_failure_text(f),
{
    match f {
        BlobFailure::Reserialize => owned("JSON Serialization Error"),
        BlobFailure::UnsignedEncoding => owned("Binary encoding failed"),
        BlobFailure::InvalidKey => owned("Invalid secret key"),
        BlobFailure::FinalEncoding => owned("Final encoding failed"),
    }
}

/// The signed blob of the offer that `cmd` asks for, by `wallet_obj` with
/// the fee `fee` at sequence `sequence`: errors as `offer_plan` reports
/// them, then the offer's amounts converted, flags taken from the names in
/// `cmd.flags`, signed and encoded.
pub fn construct_blob(wallet_obj: &Bip44Wallet, cmd: &WSCommand, sequence: u32, fee: String) -> (out: Result<String, String>)
    requires
        xrp_amount_fits(cmd.taker_pays),
        xrp_amount_fits(cmd.taker_gets),
    ensures
        cmd.taker_pays is None ==> text_result(out) == Err::<Seq<char>, Seq<char>>("Missing taker_pays"@),
        cmd.taker_pays is Some && cmd.taker_gets is None ==> text_result(out) == Err::<Seq<char>, Seq<char>>("Missing taker_gets"@),
        cmd.taker_pays matches Some(p) ==> (cmd.taker_gets matches Some(g) ==> {
            &&& !xrpl_amount_valid(p.0@, p.1@) ==> (out matches Err(e) && xrpl_amount_matches(p.0@, p.1@, Err(e)))
            &&& xrpl_amount_valid(p.0@, p.1@) && !xrpl_amount_valid(g.0@, g.1@) ==> (out matches Err(e)
                && xrpl_amount_matches(g.0@, g.1@, Err(e)))
            &&& xrpl_amount_valid(p.0@, p.1@) && xrpl_amount_valid(g.0@, g.1@) ==> text_result(out) == offer_blob_of(
                *wallet_obj,
                fee@,
                sequence,
                xrpl_amount_view_of(p.0@, p.1@),
                xrpl_amount_view_of(g.0@, g.1@),
                match cmd.flags { Some(names) => offer_flags_of(names@), None => Seq::empty() },
            )
        }),
{
    let plan = match offer_plan(cmd) {
        Ok(p) => p,
        Err(e) => return Err(e),
    };
    proof {
        if cmd.taker_pays is Some && cmd.taker_gets is Some {
            let p = cmd.taker_pays->0;
            let g = cmd.taker_gets->0;
            lemma_converted_amount_view(p.0@, p.1@, plan.taker_pays);
            lemma_converted_amount_view(g.0@, g.1@, plan.taker_gets);
            assert(plan.flags@ == (match cmd.flags { Some(names) => offer_flags_of(names@), None => Seq::<OfferFlag>::empty() }));
        }
    }
    let mask = offer_flags_value(&plan.flags);
    let json = match offer_create_json(
        wallet_obj.address.as_str(),
        fee.as_str(),
        sequence,
        &plan.taker_pays,
        &plan.taker_gets,
        mask,
    ) {
        Ok(j) => j,
        Err(e) => return Err(concat("JSON Serialization Error: ", e.as_str())),
    };
    if let Err(e) = check_address(wallet_obj.address.as_str()) {
        return Err(e);
    }
    if let Err(e) = check_issuer(&plan.taker_pays) {
        return Err(e);
    }
    if let Err(e) = check_issuer(&plan.taker_gets) {
        return Err(e);
    }
    match sign_and_encode(json.as_str(), wallet_obj.public_key.as_slice(), wallet_obj.secret_key.as_slice()) {
        Ok(blob) => Ok(blob),
        Err(f) => Err(failure_text(f)),
    }
}

} // verus!
