//! What the wallet restores at start-up from its settings and wallet files.

use vstd::prelude::*;
use crate::text::{owned, same_text};
use crate::json::{Json, json_get, json_bool, str_field, get_str};
use crate::state::Theme;
use crate::ws::WSCommand;

verus! {

/// The theme that a JSON value names, as serde reads the `Theme` enum:
/// the string `"Light"` or `"Dark"`, or an object of one entry with that
/// name and a `null` value.
pub open spec fn theme_of(v: Json) -> Option<Theme> {
    match v {
        Json::Str(s) => if s@ == "Light"@ {
            Some(Theme::Light)
        } else if s@ == "Dark"@ {
            Some(Theme::Dark)
        } else {
            None
        },
        Json::Object(entries) => if entries@.len() == 1 && entries@[0].1 == Json::Null {
            if entries@[0].0@ == "Light"@ {
                Some(Theme::Light)
            } else if entries@[0].0@ == "Dark"@ {
                Some(Theme::Dark)
            } else {
                None
            }
        } else {
            None
        },
        _ => None,
    }
}

fn theme_name(s: &str) -> (out: Option<Theme>)
    ensures
        s@ == "Light"@ ==> out == Some(Theme::Light),
        s@ == "Dark"@ ==> out == Some(Theme::Dark),
        s@ != "Light"@ && s@ != "Dark"@ ==> out is None,
{
    proof {
        reveal_strlit("Light");
        reveal_strlit("Dark");
        assert("Light"@.len() != "Dark"@.len());
    }
    if same_text(s, "Light") {
        Some(Theme::Light)
    } else if same_text(s, "Dark") {
        Some(Theme::Dark)
    } else {
        None
    }
}

/// The theme that a JSON value names (see `theme_of`).
pub fn theme_from_json(v: &Json) -> (out: Option<Theme>)
    ensures
        out == theme_of(*v),
{
    match v {
        Json::Str(s) => theme_name(s.as_str()),
        Json::Object(entries) => {
            if entries.len() == 1 && entries[0].1.is_null() {
                theme_name(entries[0].0.as_str())
            } else {
                None
            }
        },
        _ => None,
    }
}

/// The settings kept in the settings file: the theme (dark unless it names
/// one) and whether balances are hidden (not unless it says so).
pub open spec fn settings_of(v: Json) -> (Theme, bool) {
    let theme = match json_get(v, "theme"@) {
        Some(t) => match theme_of(t) {
            Some(th) => th,
            None => Theme::Dark,
        },
        None => Theme::Dark,
    };
    let hidden = match json_bool(json_get(v, "is_hidden"@)) {
        Some(b) => b,
        None => false,
    };
    (theme, hidden)
}

/// The settings read from the settings file.
pub fn settings_from_json(v: &Json) -> (out: (Theme, bool))
    ensures
        out == settings_of(*v),
{
    let theme = match v.get("theme") {
        Some(t) => match theme_from_json(t) {
            Some(th) => th,
            None => Theme::Dark,
        },
        None => Theme::Dark,
    };
    let hidden = match v.get("is_hidden") {
        Some(h) => match h.as_bool() {
            Some(b) => b,
            None => false,
        },
        None => false,
    };
    (theme, hidden)
}

/// The settings written when there is no settings file.
pub fn default_settings() -> (out: (Theme, bool))
    ensures
        out == (Theme::Dark, false),
{
    (Theme::Dark, false)
}

/// A wallet restored from its file: its address, whether its key was
/// deleted from the device, and the command that fetches its cached balance.
#[derive(Debug, Clone, PartialEq, Eq)]
pub struct RestoredWallet {
    pub address: String,
    pub private_key_deleted: bool,
    pub command: WSCommand,
}

/// What a wallet file restores: nothing unless it holds a non-empty
/// `address`; a missing deletion flag counts as not deleted.
pub open spec fn restored_of(v: Json) -> Option<(Seq<char>, bool)> {
    match str_field(v, "address"@) {
        Some(a) => if a.len() != 0 {
            Some((a, json_bool(json_get(v, "private_key_deleted"@)) == Some(true)))
        } else {
            None
        },
        None => None,
    }
}

/// Restores a wallet from its file, with the command `balance_command`
/// that fetches its cached balance (`get_cached_balance` for XRP,
/// `get_bitcoin_cached_balance` for Bitcoin).
pub fn restore_wallet(v: &Json, balance_command: &str) -> (out: Option<RestoredWallet>)
    ensures
        out is None <==> restored_of(*v) is None,
        out matches Some(r) ==> {
            &&& restored_of(*v) == Some((r.address@, r.private_key_deleted))
            &&& fetches_balance(r.command, balance_command@, r.address@)
        },
{
    let address = match get_str(v, "address") {
        Some(a) => a,
        None => return None,
    };
    if address.is_empty() {
        return None;
    }
    let deleted = match v.get("private_key_deleted") {
        Some(d) => match d.as_bool() {
            Some(b) => b,
            None => false,
        },
        None => false,
    };
    let mut command = WSCommand::named(owned(balance_command));
    command.wallet = Some(owned(address));
    Some(RestoredWallet { address: owned(address), private_key_deleted: deleted, command })
}

/// What the wallet restores at start-up.
#[derive(Debug, Clone, PartialEq, Eq)]
pub struct Startup {
    /// The theme.
    pub theme: Theme,
    /// Whether balances are hidden.
    pub hide_balance: bool,
    /// Whether the settings file is missing and the defaults are to be
    /// written.
    pub write_default_settings: bool,
    /// The XRP wallet, if its file restores one.
    pub xrp: Option<RestoredWallet>,
    /// The Bitcoin wallet, if its file restores one.
    pub btc: Option<RestoredWallet>,
}

/// `r` is what `restore_wallet` gives for the file `file` with the command
/// `command`.
pub open spec fn restores(file: Option<Json>, command: Seq<char>, r: Option<RestoredWallet>) -> bool {
    match file {
        None => r is None,
        Some(v) => match r {
            None => restored_of(v) is None,
            Some(w) => restored_of(v) == Some((w.address@, w.private_key_deleted)) && fetches_balance(
                w.command,
                command,
                w.address@,
            ),
        },
    }
}

/// `c` is the command `command` for the wallet `address`, with every other
/// field empty.
pub open spec fn fetches_balance(c: WSCommand, command: Seq<char>, address: Seq<char>) -> bool {
    &&& c.command@ == command
    &&& c.wallet matches Some(w) && w@ == address
    &&& c.recipient is None && c.amount is None && c.passphrase is None
    &&& c.trustline_limit is None && c.fee is None && c.tx_type is None
    &&& c.taker_pays is None && c.taker_gets is None && c.seed is None
    &&& c.flags is None && c.wallet_type is None && c.bip39 is None
}

/// What the start-up restores from the settings file and the two wallet
/// files, each given when it exists and reads as JSON: the settings (the
/// defaults, to be written, when there is no settings file), and each
/// wallet with the command that fetches its cached balance.
pub fn load_wallets(settings: Option<&Json>, xrp: Option<&Json>, btc: Option<&Json>) -> (out: Startup)
    ensures
        match settings {
            Some(v) => (out.theme, out.hide_balance) == settings_of(*v) && !out.write_default_settings,
            None => out.theme == Theme::Dark && !out.hide_balance && out.write_default_settings,
        },
        restores(
            match xrp { Some(v) => Some(*v), None => None },
            "get_cached_balance"@,
            out.xrp,
        ),
        restores(
            match btc { Some(v) => Some(*v), None => None },
            "get_bitcoin_cached_balance"@,
            out.btc,
        ),
{
    let (settings, write_default_settings) = match settings {
        Some(v) => (settings_from_json(v), false),
        None => (default_settings(), true),
    };
    let xrp = match xrp {
        Some(v) => restore_wallet(v, "get_cached_balance"),
        None => None,
    };
    let btc = match btc {
        Some(v) => restore_wallet(v, "get_bitcoin_cached_balance"),
        None => None,
    };
    Startup { theme: settings.0, hide_balance: settings.1, write_default_settings, xrp, btc }
}

} // verus!
