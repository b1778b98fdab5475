//! Balance requests for the issued currencies, and the balance replies.

use vstd::prelude::*;
use crate::text::{owned, same_text, concat, append_text};
use crate::json::{Json, str_field, get_str};
use crate::ws::{WSCommand, Request};

verus! {

/// An asset whose balance the backend reports.
#[derive(Debug, Clone, Copy, PartialEq, Eq)]
pub enum Asset {
    Xrp,
    Rlusd,
    Euro,
    Xsgd,
}

/// The asset whose balance a reply of command `c` carries.
pub open spec fn asset_of_command(c: Seq<char>) -> Option<Asset> {
    if c == "xrp_balance"@ {
        Some(Asset::Xrp)
    } else if c == "get_rlusd_balance"@ {
        Some(Asset::Rlusd)
    } else if c == "get_euro_balance"@ {
        Some(Asset::Euro)
    } else if c == "get_xsgd_balance"@ {
        Some(Asset::Xsgd)
    } else {
        None
    }
}

/// The member of a reply that holds the asset's balance.
pub open spec fn balance_key(a: Asset) -> Seq<char> {
    match a {
        Asset::Xrp => "balance"@,
        Asset::Rlusd => "rlusd_balance"@,
        Asset::Euro => "euro_balance"@,
        Asset::Xsgd => "xsgd_balance"@,
    }
}

impl Asset {
    /// The asset of a reply's command.
    pub fn from_command(command: &str) -> (a: Option<Asset>)
        ensures
            a == asset_of_command(command@),
    {
        if same_text(command, "xrp_balance") {
            Some(Asset::Xrp)
        } else if same_text(command, "get_rlusd_balance") {
            Some(Asset::Rlusd)
        } else if same_text(command, "get_euro_balance") {
            Some(Asset::Euro)
        } else if same_text(command, "get_xsgd_balance") {
            Some(Asset::Xsgd)
        } else {
            None
        }
    }

    /// The reply member that holds the asset's balance.
    pub fn json_key(&self) -> (k: &'static str)
        ensures
            k@ == balance_key(*self),
    {
        match self {
            Asset::Xrp => "balance",
            Asset::Rlusd => "rlusd_balance",
            Asset::Euro => "euro_balance",
            Asset::Xsgd => "xsgd_balance",
        }
    }
}

/// The balance commands that the wallet sends itself (XRP balances are
/// pushed by the backend).
pub open spec fn is_balance_request(c: Seq<char>) -> bool {
    c == "get_rlusd_balance"@ || c == "get_euro_balance"@ || c == "get_xsgd_balance"@
}

/// The request for a balance command: an error without a wallet, nothing
/// for a command that is not a balance request, else the command for the
/// wallet.
pub fn balance_request(cmd: &WSCommand) -> (out: Result<Option<Request>, String>)
    ensures
        cmd.wallet is None ==> (out matches Err(e) && e@ == "Missing wallet parameter"@),
        cmd.wallet matches Some(w) ==> if is_balance_request(cmd.command@) {
            out matches Ok(Some(r)) && r.command@ == cmd.command@ && r.key@ == "wallet"@ && r.value@ == w@
        } else {
            out matches Ok(None)
        },
{
    let wallet = match &cmd.wallet {
        Some(w) => w,
        None => return Err(owned("Missing wallet parameter")),
    };
    let c = cmd.command.as_str();
    if same_text(c, "get_rlusd_balance") || same_text(c, "get_euro_balance") || same_text(c, "get_xsgd_balance") {
        Ok(Some(Request { command: owned(c), key: owned("wallet"), value: wallet.clone() }))
    } else {
        Ok(None)
    }
}

/// A balance to apply: the asset, the wallet and the balance as the reply
/// writes it (drops for XRP, units for the issued currencies).
#[derive(Debug, Clone, PartialEq, Eq)]
pub struct BalanceUpdate {
    pub asset: Asset,
    pub wallet: String,
    pub raw_balance: String,
}

/// What a balance reply for `current` leads to.
pub open spec fn balance_update_of(data: Json, current: Seq<char>) -> Result<Option<(Asset, Seq<char>, Seq<char>)>, Seq<char>> {
    match str_field(data, "wallet"@) {
        None => Err("Missing wallet field"@),
        Some(w) => if w != current {
            Ok(None)
        } else {
            match str_field(data, "command"@) {
                None => Err("Missing command field"@),
                Some(c) => match asset_of_command(c) {
                    None => Ok(None),
                    Some(a) => match str_field(data, balance_key(a)) {
                        None => Err("Missing "@ + balance_key(a) + " field"@),
                        Some(b) => Ok(Some((a, w, b))),
                    },
                },
            }
        },
    }
}

/// Reads a balance reply for the current wallet: replies for another
/// wallet and other commands change nothing.
pub fn balance_update(data: &Json, current_wallet: &str) -> (out: Result<Option<BalanceUpdate>, String>)
    ensures
        out matches Ok(Some(u)) ==> balance_update_of(*data, current_wallet@) == Ok::<Option<(Asset, Seq<char>, Seq<char>)>, Seq<char>>(Some((u.asset, u.wallet@, u.raw_balance@))),
        out matches Ok(None) ==> balance_update_of(*data, current_wallet@) == Ok::<Option<(Asset, Seq<char>, Seq<char>)>, Seq<char>>(None),
        out matches Err(e) ==> balance_update_of(*data, current_wallet@) == Err::<Option<(Asset, Seq<char>, Seq<char>)>, Seq<char>>(e@),
{
    let wallet = match get_str(data, "wallet") {
        Some(w) => w,
        None => return Err(owned("Missing wallet field")),
    };
    if !same_text(wallet, current_wallet) {
        return Ok(None);
    }
    let command = match get_str(data, "command") {
        Some(c) => c,
        None => return Err(owned("Missing command field")),
    };
    let asset = match Asset::from_command(command) {
        Some(a) => a,
        None => return Ok(None),
    };
    let key = asset.json_key();
    match get_str(data, key) {
        None => {
            let mut msg = concat("Missing ", key);
            append_text(&mut msg, " field");
            Err(msg)
        },
        Some(b) => Ok(Some(BalanceUpdate { asset, wallet: owned(wallet), raw_balance: owned(b) })),
    }
}

/// A balance reply for the current wallet is read from the member of its
/// own asset: `balance` for `xrp_balance`, `rlusd_balance` for
/// `get_rlusd_balance`, `euro_balance` for `get_euro_balance` and
/// `xsgd_balance` for `get_xsgd_balance`; the text there is the balance
/// read, for that asset and that wallet.
pub proof fn balance_read_from_its_member(data: Json, wallet: Seq<char>, b: Seq<char>)
    requires
        str_field(data, "wallet"@) == Some(wallet),
    ensures
        str_field(data, "command"@) == Some("xrp_balance"@) && str_field(data, "balance"@) == Some(b)
            ==> balance_update_of(data, wallet) == Ok::<Option<(Asset, Seq<char>, Seq<char>)>, Seq<char>>(Some((Asset::Xrp, wallet, b))),
        str_field(data, "command"@) == Some("get_rlusd_balance"@) && str_field(data, "rlusd_balance"@) == Some(b)
            ==> balance_update_of(data, wallet) == Ok::<Option<(Asset, Seq<char>, Seq<char>)>, Seq<char>>(Some((Asset::Rlusd, wallet, b))),
        str_field(data, "command"@) == Some("get_euro_balance"@) && str_field(data, "euro_balance"@) == Some(b)
            ==> balance_update_of(data, wallet) == Ok::<Option<(Asset, Seq<char>, Seq<char>)>, Seq<char>>(Some((Asset::Euro, wallet, b))),
        str_field(data, "command"@) == Some("get_xsgd_balance"@) && str_field(data, "xsgd_balance"@) == Some(b)
            ==> balance_update_of(data, wallet) == Ok::<Option<(Asset, Seq<char>, Seq<char>)>, Seq<char>>(Some((Asset::Xsgd, wallet, b))),
{
    reveal_strlit("xrp_balance");
    reveal_strlit("get_rlusd_balance");
    reveal_strlit("get_euro_balance");
    reveal_strlit("get_xsgd_balance");
    assert("xrp_balance"@ != "get_rlusd_balance"@ && "xrp_balance"@ != "get_euro_balance"@
        && "xrp_balance"@ != "get_xsgd_balance"@) by {
        assert("xrp_balance"@[0] != "get_rlusd_balance"@[0]);
        assert("xrp_balance"@[0] != "get_euro_balance"@[0]);
        assert("xrp_balance"@[0] != "get_xsgd_balance"@[0]);
    }
    assert("get_rlusd_balance"@ != "get_euro_balance"@ && "get_rlusd_balance"@ != "get_xsgd_balance"@
        && "get_euro_balance"@ != "get_xsgd_balance"@) by {
        assert("get_rlusd_balance"@[4] != "get_euro_balance"@[4]);
        assert("get_rlusd_balance"@[4] != "get_xsgd_balance"@[4]);
        assert("get_euro_balance"@[4] != "get_xsgd_balance"@[4]);
    }
}

/// Each asset's balance sits in a member of its own: no two assets read
/// the same member.
pub proof fn balance_members_distinct(a: Asset, c: Asset)
    requires
        a != c,
    ensures
        balance_key(a) != balance_key(c),
{
    reveal_strlit("balance");
    reveal_strlit("rlusd_balance");
    reveal_strlit("euro_balance");
    reveal_strlit("xsgd_balance");
    assert("balance"@[0] != "rlusd_balance"@[0] && "balance"@[0] != "euro_balance"@[0] && "balance"@[0] != "xsgd_balance"@[0]);
    assert("rlusd_balance"@[0] != "euro_balance"@[0] && "rlusd_balance"@[0] != "xsgd_balance"@[0]
        && "euro_balance"@[0] != "xsgd_balance"@[0]);
}

} // verus!
