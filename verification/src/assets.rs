//! The assets that can be sent from the XRP wallet.

use vstd::prelude::*;
use crate::text::same_text;
use crate::crypto::{all_ascii, ascii_lower, ascii_upper, unicode_uppercase, to_uppercase};

verus! {

/// An asset that the XRP wallet can send.
#[derive(Debug, Clone, Copy, PartialEq, Eq)]
pub enum SendAsset {
    Xrp,
    Rlusd,
    Euro,
    Sgd,
}

/// The asset named by an upper-case ticker; anything unknown is XRP.
pub open spec fn asset_of_upper(upper: Seq<char>) -> SendAsset {
    if upper == "RLUSD"@ {
        SendAsset::Rlusd
    } else if upper == "EUROP"@ {
        SendAsset::Euro
    } else if upper == "XSGD"@ {
        SendAsset::Sgd
    } else {
        SendAsset::Xrp
    }
}

/// The ticker shown for each asset.
pub open spec fn asset_label(a: SendAsset) -> Seq<char> {
    match a {
        SendAsset::Xrp => "XRP"@,
        SendAsset::Rlusd => "RLUSD"@,
        SendAsset::Euro => "EUROP"@,
        SendAsset::Sgd => "XSGD"@,
    }
}

impl SendAsset {
    /// The asset for a ticker that is already in upper case.
    pub fn from_upper(upper: &str) -> (a: SendAsset)
        ensures
            a == asset_of_upper(upper@),
    {
        if same_text(upper, "RLUSD") {
            SendAsset::Rlusd
        } else if same_text(upper, "EUROP") {
            SendAsset::Euro
        } else if same_text(upper, "XSGD") {
            SendAsset::Sgd
        } else {
            SendAsset::Xrp
        }
    }

    /// The asset for a ticker in any case (Unicode upper-casing first);
    /// anything unknown is XRP.
    pub fn from_str(s: &str) -> (a: SendAsset)
        ensures
            a == asset_of_upper(unicode_uppercase(s@)),
            all_ascii(s@) ==> a == asset_of_upper(ascii_upper(s@)),
    {
        let upper = to_uppercase(s);
        SendAsset::from_upper(upper.as_str())
    }

    /// The asset's ticker.
    pub fn label(&self) -> (l: &'static str)
        ensures
            l@ == asset_label(*self),
    {
        match self {
            SendAsset::Xrp => "XRP",
            SendAsset::Rlusd => "RLUSD",
            SendAsset::Euro => "EUROP",
            SendAsset::Sgd => "XSGD",
        }
    }

    /// Only XRP has a market rate against USD.
    pub fn has_usd_equivalent(&self) -> (b: bool)
        ensures
            b == (*self == SendAsset::Xrp),
    {
        match self {
            SendAsset::Xrp => true,
            _ => false,
        }
    }

    /// The key of the asset's USD rate in the rate table, if it has one.
    pub fn fiat_rate_key(&self) -> (k: Option<&'static str>)
        ensures
            *self == SendAsset::Xrp ==> (k matches Some(s) && s@ == "XRP/USD"@),
            *self != SendAsset::Xrp ==> k is None,
    {
        match self {
            SendAsset::Xrp => Some("XRP/USD"),
            _ => None,
        }
    }
}

/// A known ticker names its asset again: the label of every asset, read
/// back, is that asset.
pub proof fn label_names_its_asset(a: SendAsset)
    ensures
        asset_of_upper(asset_label(a)) == a,
{
    reveal_strlit("XRP");
    reveal_strlit("RLUSD");
    reveal_strlit("EUROP");
    reveal_strlit("XSGD");
    assert("XRP"@.len() == 3 && "XSGD"@.len() == 4 && "RLUSD"@.len() == 5 && "EUROP"@.len() == 5);
    assert("RLUSD"@[0] != "EUROP"@[0]);
}

/// Tickers are read regardless of case: the label of every asset written in
/// lower case is ASCII and, upper-cased again, names that asset.
pub proof fn lower_case_label_names_its_asset(a: SendAsset)
    ensures
        all_ascii(ascii_lower(asset_label(a))),
        asset_of_upper(ascii_upper(ascii_lower(asset_label(a)))) == a,
{
    label_names_its_asset(a);
    let l = asset_label(a);
    reveal_strlit("XRP");
    reveal_strlit("RLUSD");
    reveal_strlit("EUROP");
    reveal_strlit("XSGD");
    assert forall|i: int| 0 <= i < l.len() implies 'A' <= #[trigger] l[i] <= 'Z' by {}
    assert forall|i: int| 0 <= i < l.len() implies ((((l[i] as u32) + 32) as char) as u32) == (l[i] as u32) + 32
        && (((((l[i] as u32) + 32) as char) as u32 - 32) as char) == l[i] by {
        assert(((l[i] as u32) + 32) < 0xD800);
    }
    assert(ascii_upper(ascii_lower(l)) =~= l);
}

} // verus!
