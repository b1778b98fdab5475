use dannesk::screens::{current_view, feed_status_text, shown_balance, shown_total, AppState};

#[test]
fn newer_release_shows_update_prompt() {
    assert_eq!(current_view(Some("0.4.0"), true), AppState::UpdatePrompt);
    assert_eq!(current_view(Some("0.4.0"), false), AppState::UpdatePrompt);
}

#[test]
fn same_release_goes_by_lock_state() {
    assert_eq!(current_view(Some("0.3.1"), false), AppState::PinEntry);
    assert_eq!(current_view(Some("0.3.1"), true), AppState::Dashboard);
}

#[test]
fn no_announced_release_goes_by_lock_state() {
    assert_eq!(current_view(None, false), AppState::PinEntry);
    assert_eq!(current_view(None, true), AppState::Dashboard);
}

#[test]
fn hidden_balances_are_masked() {
    assert_eq!(shown_balance(true, "12.50"), "****");
    assert_eq!(shown_balance(false, "12.50"), "12.50");
    assert_eq!(shown_total(true, "1,234", ".56"), ("****".to_string(), String::new()));
    assert_eq!(shown_total(false, "1,234", ".56"), ("1,234".to_string(), ".56".to_string()));
    assert_eq!(feed_status_text(true), "ONLINE");
    assert_eq!(feed_status_text(false), "OFFLINE");
}
