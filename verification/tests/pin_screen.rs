use dannesk::pin_screen::{
    change_pin_ready, input_changed, new_pin_screen, pin_prompt, prompt_label, submit_pin, PinPrompt, PinScreenAction,
};

#[test]
fn prompts_follow_the_record_and_the_pending_pin() {
    assert_eq!(pin_prompt(false, ""), PinPrompt::Create);
    assert_eq!(pin_prompt(false, "123456"), PinPrompt::Confirm);
    assert_eq!(pin_prompt(true, ""), PinPrompt::Enter);
    assert_eq!(prompt_label(PinPrompt::Create), "CREATE PIN:");
    assert_eq!(prompt_label(PinPrompt::Confirm), "CONFIRM PIN:");
    assert_eq!(prompt_label(PinPrompt::Enter), "ENTER PIN:");
}

#[test]
fn input_takes_up_to_six_numeric_bytes() {
    let mut s = new_pin_screen();
    assert!(!input_changed(&mut s, "123"));
    assert_eq!(s.input, "123");
    assert!(input_changed(&mut s, "123456"));
    assert_eq!(s.input, "123456");
    assert!(!input_changed(&mut s, "1234567"));
    assert_eq!(s.input, "123456");
    assert!(!input_changed(&mut s, "12a"));
    assert_eq!(s.input, "123456");
    assert!(input_changed(&mut s, "٣٣٣"));
    assert_eq!(s.input, "٣٣٣");
}

#[test]
fn choosing_then_confirming_a_pin_unlocks() {
    let mut s = new_pin_screen();
    input_changed(&mut s, "246810");
    assert_eq!(submit_pin(&mut s, false, false), PinScreenAction::Stay);
    assert_eq!(s.pending, "246810");
    assert_eq!(s.input, "");
    input_changed(&mut s, "246810");
    assert_eq!(submit_pin(&mut s, false, false), PinScreenAction::SavePinAndUnlock("246810".to_string()));
}

#[test]
fn a_mismatched_confirmation_starts_over() {
    let mut s = new_pin_screen();
    input_changed(&mut s, "246810");
    submit_pin(&mut s, false, false);
    input_changed(&mut s, "111111");
    assert_eq!(submit_pin(&mut s, false, false), PinScreenAction::Stay);
    assert_eq!(s.error, Some("MISMATCH".to_string()));
    assert_eq!(s.pending, "");
    assert_eq!(s.input, "");
}

#[test]
fn wrong_pins_count_down() {
    let mut s = new_pin_screen();
    input_changed(&mut s, "000000");
    assert_eq!(submit_pin(&mut s, true, false), PinScreenAction::Stay);
    assert_eq!(s.attempts_left, 4);
    assert_eq!(s.error, Some("DENIED: 4 LEFT".to_string()));
    for _ in 0..5 {
        input_changed(&mut s, "000000");
        submit_pin(&mut s, true, false);
    }
    assert_eq!(s.attempts_left, -1);
    assert_eq!(s.error, Some("DENIED: -1 LEFT".to_string()));
    input_changed(&mut s, "123456");
    assert_eq!(submit_pin(&mut s, true, true), PinScreenAction::Unlock);
}

#[test]
fn empty_input_is_not_submitted() {
    let mut s = new_pin_screen();
    assert_eq!(submit_pin(&mut s, true, false), PinScreenAction::Stay);
    assert_eq!(s.attempts_left, 5);
    assert_eq!(s.error, None);
}

#[test]
fn change_pin_form_needs_both_pins_and_a_confirmation() {
    assert!(change_pin_ready("123456", "654321", "654321"));
    assert!(!change_pin_ready("", "654321", "654321"));
    assert!(!change_pin_ready("123456", "", ""));
    assert!(!change_pin_ready("123456", "654321", "654320"));
}
