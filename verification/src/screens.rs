//! Which screen the application shows: the update prompt when the backend
//! announces another release, else the dashboard once the PIN was accepted,
//! else the PIN screen; and what the dashboard shows of the balances while
//! they are hidden.

use vstd::prelude::*;
use crate::text::{owned, same_text};

verus! {

/// The release of this application, compared with the one the backend
/// announces.
pub open spec fn release_spec() -> Seq<char> {
    "0.3.1"@
}

/// The screens of the application.
#[derive(Debug, Clone, Copy, PartialEq, Eq)]
pub enum AppState {
    PinEntry,
    Dashboard,
    UpdatePrompt,
}

/// The screen to show, given the release the backend announced (if any)
/// and whether the wallet is unlocked.
pub open spec fn view_spec(remote: Option<Seq<char>>, unlocked: bool) -> AppState {
    match remote {
        Some(v) if v != release_spec() => AppState::UpdatePrompt,
        _ => if unlocked {
            AppState::Dashboard
        } else {
            AppState::PinEntry
        },
    }
}

/// The screen to show.
pub fn current_view(remote_version: Option<&str>, unlocked: bool) -> (view: AppState)
    ensures
        view == view_spec(
            match remote_version {
                Some(v) => Some(v@),
                None => None,
            },
            unlocked,
        ),
{
    match remote_version {
        Some(v) => {
            if !same_text(v, "0.3.1") {
                return AppState::UpdatePrompt;
            }
        },
        None => {},
    }
    if unlocked {
        AppState::Dashboard
    } else {
        AppState::PinEntry
    }
}

/// An announced release other than this one always leads to the update
/// prompt, whether or not the wallet is unlocked.
pub proof fn other_release_prompts_update(v: Seq<char>, unlocked: bool)
    requires
        v != release_spec(),
    ensures
        view_spec(Some(v), unlocked) == AppState::UpdatePrompt,
{
}

/// The dashboard is shown only once the wallet is unlocked.
pub proof fn dashboard_needs_unlock(remote: Option<Seq<char>>)
    ensures
        view_spec(remote, false) != AppState::Dashboard,
{
}

/// The mask shown in place of a hidden balance.
pub open spec fn balance_mask() -> Seq<char> {
    "****"@
}

/// What the dashboard shows for a balance that reads `formatted`: the mask
/// while balances are hidden, else the balance as formatted.
pub fn shown_balance(hide_balance: bool, formatted: &str) -> (shown: String)
    ensures
        shown@ == (if hide_balance { balance_mask() } else { formatted@ }),
{
    if hide_balance {
        owned("****")
    } else {
        owned(formatted)
    }
}

/// The integer and fraction parts shown for the dashboard's total: the
/// mask and nothing while balances are hidden, else the parts as
/// formatted.
pub fn shown_total(hide_balance: bool, int_part: &str, frac_part: &str) -> (shown: (String, String))
    ensures
        hide_balance ==> shown.0@ == balance_mask() && shown.1@.len() == 0,
        !hide_balance ==> shown.0@ == int_part@ && shown.1@ == frac_part@,
{
    if hide_balance {
        (owned("****"), String::new())
    } else {
        (owned(int_part), owned(frac_part))
    }
}

/// Hidden balances show no digit: every balance and the total show only
/// the mask, whatever the amounts.
pub proof fn hidden_balances_show_no_digit(i: int)
    requires
        0 <= i < balance_mask().len(),
    ensures
        !('0' <= balance_mask()[i] <= '9'),
{
    reveal_strlit("****");
}

/// The status of the exchange-rate feed on the dashboard.
pub fn feed_status_text(connected: bool) -> (text: &'static str)
    ensures
        text@ == (if connected { "ONLINE"@ } else { "OFFLINE"@ }),
{
    if connected {
        "ONLINE"
    } else {
        "OFFLINE"
    }
}

} // verus!
