//! Trust-line limit replies for the issued currencies.

use vstd::prelude::*;
use crate::text::{owned, same_text};
use crate::json::{Json, str_field, get_str};
use crate::amounts::{is_float_text, is_float_literal};

verus! {

/// An issued currency whose trust line the backend reports.
#[derive(Debug, Clone, Copy, PartialEq, Eq)]
pub enum Asset {
    Rlusd,
    Euro,
    Xsgd,
}

/// The asset whose trust line a reply of command `c` reports.
pub open spec fn asset_of_command(c: Seq<char>) -> Option<Asset> {
    if c == "get_trustline_limit"@ {
        Some(Asset::Rlusd)
    } else if c == "get_trustline_euro_limit"@ {
        Some(Asset::Euro)
    } else if c == "get_trustline_sgd_limit"@ {
        Some(Asset::Xsgd)
    } else {
        None
    }
}

impl Asset {
    /// The asset of a reply's command.
    pub fn from_command(command: &str) -> (a: Option<Asset>)
        ensures
            a == asset_of_command(command@),
    {
        if same_text(command, "get_trustline_limit") {
            Some(Asset::Rlusd)
        } else if same_text(command, "get_trustline_euro_limit") {
            Some(Asset::Euro)
        } else if same_text(command, "get_trustline_sgd_limit") {
            Some(Asset::Xsgd)
        } else {
            None
        }
    }
}

/// A trust-line reply: the asset now has a trust line; `limit` is the new
/// limit as the reply writes it, when it reads as a number (otherwise the
/// known limit stays).
#[derive(Debug, Clone, PartialEq, Eq)]
pub struct TrustlineUpdate {
    pub asset: Asset,
    pub limit: Option<String>,
}

/// The new limit text of a reply, when it is a string that reads as a number.
pub open spec fn limit_of(data: Json) -> Option<Seq<char>> {
    match str_field(data, "trustline_limit"@) {
        Some(l) => if is_float_text(l) { Some(l) } else { None },
        None => None,
    }
}

/// Reads a trust-line reply: an error without a command, nothing for
/// commands that are no trust-line reply.
pub fn trustline_update(data: &Json) -> (out: Result<Option<TrustlineUpdate>, String>)
    ensures
        str_field(*data, "command"@) is None ==> (out matches Err(e) && e@ == "Missing command field"@),
        str_field(*data, "command"@) matches Some(c) ==> match asset_of_command(c) {
            None => out matches Ok(None),
            Some(a) => out matches Ok(Some(u)) && u.asset == a
                && (u.limit matches Some(l) ==> limit_of(*data) == Some(l@))
                && (u.limit is None ==> limit_of(*data) is None),
        },
{
    let command = match get_str(data, "command") {
        Some(c) => c,
        None => return Err(owned("Missing command field")),
    };
    let asset = match Asset::from_command(command) {
        Some(a) => a,
        None => return Ok(None),
    };
    let limit = match get_str(data, "trustline_limit") {
        Some(l) => if is_float_literal(l) { Some(owned(l)) } else { None },
        None => None,
    };
    Ok(Some(TrustlineUpdate { asset, limit }))
}

} // verus!
