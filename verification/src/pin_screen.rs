//! The PIN entry screen: which prompt it shows, which input it takes and
//! what a submitted PIN leads to.

use vstd::prelude::*;
use vstd::string::StringSliceAdditionalSpecFns;
use crate::text::{chars_of, owned, concat, same_text};
use crate::numbers::{signed_decimal_text, signed_decimal_string};
use crate::crypto::{numeric_char, is_numeric};

verus! {

/// What the screen asks for.
#[derive(Debug, Clone, Copy, PartialEq, Eq)]
pub enum PinPrompt {
    /// No PIN is stored yet: choose one.
    Create,
    /// Type the chosen PIN again.
    Confirm,
    /// A PIN is stored: type it.
    Enter,
}

/// The prompt for a screen, given whether a PIN record exists and the PIN
/// chosen so far (empty when none).
pub open spec fn prompt_for(pin_exists: bool, pending: Seq<char>) -> PinPrompt {
    if !pin_exists {
        if pending.len() == 0 { PinPrompt::Create } else { PinPrompt::Confirm }
    } else {
        PinPrompt::Enter
    }
}

/// The prompt for the screen.
pub fn pin_prompt(pin_exists: bool, pending: &str) -> (p: PinPrompt)
    ensures
        p == prompt_for(pin_exists, pending@),
{
    if !pin_exists {
        if pending.is_empty() { PinPrompt::Create } else { PinPrompt::Confirm }
    } else {
        PinPrompt::Enter
    }
}

/// The label shown for each prompt.
pub open spec fn prompt_label_text(p: PinPrompt) -> Seq<char> {
    match p {
        PinPrompt::Create => "CREATE PIN:"@,
        PinPrompt::Confirm => "CONFIRM PIN:"@,
        PinPrompt::Enter => "ENTER PIN:"@,
    }
}

/// The PIN screen asks for what it needs: `ENTER PIN:` exactly when a PIN
/// is stored, `CREATE PIN:` when none is and none was chosen yet, and
/// `CONFIRM PIN:` when one was chosen and awaits confirmation.
pub proof fn prompt_asks_for_what_is_needed(pin_exists: bool, pending: Seq<char>)
    ensures
        (prompt_label_text(prompt_for(pin_exists, pending)) == "ENTER PIN:"@) <==> pin_exists,
        (prompt_label_text(prompt_for(pin_exists, pending)) == "CREATE PIN:"@) <==> (!pin_exists && pending.len() == 0),
        (prompt_label_text(prompt_for(pin_exists, pending)) == "CONFIRM PIN:"@) <==> (!pin_exists && pending.len() > 0),
{
    reveal_strlit("ENTER PIN:");
    reveal_strlit("CREATE PIN:");
    reveal_strlit("CONFIRM PIN:");
    assert("ENTER PIN:"@[0] != "CREATE PIN:"@[0] && "ENTER PIN:"@[0] != "CONFIRM PIN:"@[0]);
    assert("CREATE PIN:"@[1] != "CONFIRM PIN:"@[1]);
}

/// The label shown for a prompt.
pub fn prompt_label(p: PinPrompt) -> (label: &'static str)
    ensures
        label@ == prompt_label_text(p),
{
    match p {
        PinPrompt::Create => "CREATE PIN:",
        PinPrompt::Confirm => "CONFIRM PIN:",
        PinPrompt::Enter => "ENTER PIN:",
    }
}

/// The state of the screen.
#[derive(Debug, Clone, PartialEq, Eq)]
pub struct PinScreenState {
    /// What has been typed.
    pub input: String,
    /// The PIN chosen at the `Create` prompt, awaiting confirmation.
    pub pending: String,
    /// The error line, if any.
    pub error: Option<String>,
    /// Attempts left at the `Enter` prompt (it only counts down).
    pub attempts_left: i32,
    /// A submission is being handled.
    pub processing: bool,
}

/// What the application does after a submission.
#[derive(Debug, Clone, PartialEq, Eq)]
pub enum PinScreenAction {
    /// Nothing beyond the new state.
    Stay,
    /// Store a new record for this PIN, then open the wallet.
    SavePinAndUnlock(String),
    /// Open the wallet.
    Unlock,
}

/// A fresh screen: nothing typed, five attempts.
pub fn new_pin_screen() -> (s: PinScreenState)
    ensures
        s.input@.len() == 0,
        s.pending@.len() == 0,
        s.error is None,
        s.attempts_left == 5,
        !s.processing,
{
    PinScreenState { input: String::new(), pending: String::new(), error: None, attempts_left: 5, processing: false }
}

/// Whether the field takes `value`: at most six bytes, all numeric.
pub open spec fn input_accepted(value: &str) -> bool {
    value.spec_bytes().len() <= 6 && forall|i: int| 0 <= i < value@.len() ==> numeric_char(#[trigger] value@[i])
}

/// A value of six ASCII digits is six bytes long and accepted by the
/// field, so typing it replaces the input and submits it.
pub proof fn six_digits_submit(value: &str)
    requires
        value@.len() == 6,
        forall|i: int| 0 <= i < 6 ==> '0' <= #[trigger] value@[i] <= '9',
    ensures
        value.spec_bytes().len() == 6,
        input_accepted(value),
{
    assert(vstd::utf8::is_ascii_chars(value@));
    vstd::string::is_ascii_spec_bytes(value);
}

/// The field changed to `value`. An accepted value replaces the input;
/// the result says whether it is six bytes long, which submits it.
pub fn input_changed(state: &mut PinScreenState, value: &str) -> (submit: bool)
    ensures
        input_accepted(value) ==> final(state).input@ == value@,
        input_accepted(value) ==> submit == (value.spec_bytes().len() == 6),
        !input_accepted(value) ==> *final(state) == *old(state) && !submit,
        final(state).pending == old(state).pending,
        final(state).error == old(state).error,
        final(state).attempts_left == old(state).attempts_left,
        final(state).processing == old(state).processing,
{
    let cs = chars_of(value);
    let n = cs.len();
    let mut all_numeric = true;
    for i in 0..n
        invariant
            n == cs@.len(),
            cs@ == value@,
            all_numeric == forall|j: int| 0 <= j < i ==> numeric_char(#[trigger] value@[j]),
    {
        if !is_numeric(cs[i]) {
            all_numeric = false;
        }
    }
    let len = value.as_bytes().len();
    if len <= 6 && all_numeric {
        state.input = owned(value);
        len == 6
    } else {
        false
    }
}

/// The error line after a wrong PIN.
pub open spec fn denied_text(left: int) -> Seq<char> {
    "DENIED: "@ + signed_decimal_text(left) + " LEFT"@
}

/// A submission of the typed input, given whether a PIN record exists and,
/// at the `Enter` prompt, whether the typed PIN matched it. Nothing happens
/// while a submission is handled or when nothing is typed.
pub open spec fn submit_result(
    old: PinScreenState,
    pin_exists: bool,
    entered_pin_ok: bool,
    new: PinScreenState,
    action: PinScreenAction,
) -> bool {
    if old.processing || old.input@.len() == 0 {
        new == old && action == PinScreenAction::Stay
    } else {
        &&& !new.processing
        &&& match prompt_for(pin_exists, old.pending@) {
            PinPrompt::Create => {
                &&& new.pending@ == old.input@ && new.input@.len() == 0 && new.error is None
                &&& new.attempts_left == old.attempts_left
                &&& action == PinScreenAction::Stay
            },
            PinPrompt::Confirm => if old.input@ == old.pending@ {
                &&& new.input == old.input && new.pending == old.pending && new.error == old.error
                &&& new.attempts_left == old.attempts_left
                &&& action matches PinScreenAction::SavePinAndUnlock(p) && p@ == old.input@
            } else {
                &&& new.input@.len() == 0 && new.pending@.len() == 0
                &&& new.error matches Some(e) && e@ == "MISMATCH"@
                &&& new.attempts_left == old.attempts_left
                &&& action == PinScreenAction::Stay
            },
            PinPrompt::Enter => if entered_pin_ok {
                &&& new.input == old.input && new.pending == old.pending && new.error == old.error
                &&& new.attempts_left == old.attempts_left
                &&& action == PinScreenAction::Unlock
            } else {
                &&& new.input@.len() == 0 && new.pending == old.pending
                &&& new.attempts_left == old.attempts_left - 1
                &&& new.error matches Some(e) && e@ == denied_text(old.attempts_left - 1)
                &&& action == PinScreenAction::Stay
            },
        }
    }
}

/// A submission opens the wallet only on the stored PIN at the `ENTER`
/// prompt, or on a confirmation that repeats the chosen PIN, which is then
/// stored; a wrong PIN costs exactly one attempt and says how many are left,
/// and nothing else changes the attempts.
pub proof fn pin_screen_opens_only_on_a_match(
    old: PinScreenState,
    pin_exists: bool,
    entered_pin_ok: bool,
    new: PinScreenState,
    action: PinScreenAction,
)
    requires
        submit_result(old, pin_exists, entered_pin_ok, new, action),
        !old.processing,
        old.input@.len() > 0,
    ensures
        (action == PinScreenAction::Unlock) <==> (pin_exists && entered_pin_ok),
        (action is SavePinAndUnlock) <==> (!pin_exists && old.pending@.len() > 0 && old.input@ == old.pending@),
        action matches PinScreenAction::SavePinAndUnlock(p) ==> p@ == old.pending@,
        pin_exists && !entered_pin_ok ==> new.attempts_left == old.attempts_left - 1 && (new.error matches Some(e)
            && e@ == "DENIED: "@ + signed_decimal_text(new.attempts_left as int) + " LEFT"@),
        !(pin_exists && !entered_pin_ok) ==> new.attempts_left == old.attempts_left,
{
}

/// Handles a submission of the typed input (see `submit_result`).
pub fn submit_pin(state: &mut PinScreenState, pin_exists: bool, entered_pin_ok: bool) -> (action: PinScreenAction)
    requires
        old(state).attempts_left > i32::MIN,
    ensures
        submit_result(*old(state), pin_exists, entered_pin_ok, *final(state), action),
{
    if state.processing || state.input.as_str().is_empty() {
        return PinScreenAction::Stay;
    }
    let prompt = pin_prompt(pin_exists, state.pending.as_str());
    let action = match prompt {
        PinPrompt::Create => {
            state.pending = state.input.clone();
            state.input = String::new();
            state.error = None;
            PinScreenAction::Stay
        },
        PinPrompt::Confirm => {
            if same_text(state.input.as_str(), state.pending.as_str()) {
                PinScreenAction::SavePinAndUnlock(state.input.clone())
            } else {
                state.error = Some(owned("MISMATCH"));
                state.pending = String::new();
                state.input = String::new();
                PinScreenAction::Stay
            }
        },
        PinPrompt::Enter => {
            if entered_pin_ok {
                PinScreenAction::Unlock
            } else {
                let left = state.attempts_left - 1;
                state.attempts_left = left;
                state.input = String::new();
                let count = signed_decimal_string(left as i64);
                let mut msg = concat("DENIED: ", count.as_str());
                crate::text::append_text(&mut msg, " LEFT");
                state.error = Some(msg);
                PinScreenAction::Stay
            }
        },
    };
    state.processing = false;
    action
}

/// Whether the change-PIN form may be submitted: the old and the new PIN
/// are filled in, and the new one is confirmed.
pub fn change_pin_ready(old_pin: &str, new_pin: &str, confirm_pin: &str) -> (ready: bool)
    ensures
        ready == (old_pin@.len() > 0 && new_pin@.len() > 0 && new_pin@ == confirm_pin@),
{
    !new_pin.is_empty() && !old_pin.is_empty() && same_text(new_pin, confirm_pin)
}

} // verus!
