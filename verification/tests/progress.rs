use dannesk::progress::{
    overlay_frame, overlay_timeout, progress_done, progress_status, spinner, status_label, timeout_report, ProgressStatus,
};
use dannesk::ws::ProgressUpdate;

fn report(percent: u8, message: &str) -> ProgressUpdate {
    ProgressUpdate { percent, message: message.to_string() }
}

#[test]
fn running_report_is_not_done() {
    let p = report(40, "Signing transaction");
    assert!(!progress_done(&p));
    assert_eq!(progress_status(&p), ProgressStatus::Running);
}

#[test]
fn complete_report_succeeds() {
    let p = report(100, "Transaction submitted");
    assert!(progress_done(&p));
    assert_eq!(progress_status(&p), ProgressStatus::Succeeded);
}

#[test]
fn error_words_end_the_operation_in_any_case() {
    let p = report(30, "Network ERROR while sending");
    assert!(progress_done(&p));
    assert_eq!(progress_status(&p), ProgressStatus::Failed);
    let q = report(10, "Import Failed");
    assert!(progress_done(&q));
    assert_eq!(progress_status(&q), ProgressStatus::Failed);
}

#[test]
fn timeout_is_shown_as_failure_but_does_not_end_by_itself() {
    let p = report(50, "Request timeout");
    assert!(!progress_done(&p));
    assert_eq!(progress_status(&p), ProgressStatus::Failed);
}

#[test]
fn late_report_is_replaced_by_the_timeout_report() {
    let p = report(60, "Waiting");
    let r = timeout_report(Some(&p)).unwrap();
    assert_eq!(r.percent, 100);
    assert_eq!(r.message, "SYSTEM_TIMEOUT // PLEASE_RETRY");
    assert!(progress_done(&r));
    assert_eq!(progress_status(&r), ProgressStatus::Failed);
    assert_eq!(timeout_report(Some(&report(100, "Done"))), None);
    assert_eq!(timeout_report(None), None);
}

#[test]
fn labels_follow_the_status() {
    assert_eq!(status_label(ProgressStatus::Succeeded, 87, 0), "[OK] 100%");
    assert_eq!(status_label(ProgressStatus::Failed, 42, 3), "[FAIL] 42%");
    assert_eq!(status_label(ProgressStatus::Running, 7, 0), "[|] 7%");
    assert_eq!(status_label(ProgressStatus::Running, 7, 8), "[/] 7%");
    assert_eq!(status_label(ProgressStatus::Running, 7, 16), "[-] 7%");
    assert_eq!(status_label(ProgressStatus::Running, 7, 31), "[\\] 7%");
    assert_eq!(spinner(32), '|');
}

#[test]
fn the_overlay_closes_half_a_second_after_the_end() {
    let running = ProgressUpdate { percent: 40, message: "Working".to_string() };
    let done = ProgressUpdate { percent: 100, message: "Done".to_string() };
    assert_eq!(overlay_frame(None, 100, Some(&running)), (None, false));
    assert_eq!(overlay_frame(None, 1000, Some(&done)), (Some(1000), false));
    assert_eq!(overlay_frame(Some(1000), 1499, Some(&done)), (Some(1000), false));
    assert_eq!(overlay_frame(Some(1000), 1500, Some(&done)), (Some(1000), true));
    let failed = ProgressUpdate { percent: 60, message: "Transfer FAILED".to_string() };
    assert_eq!(overlay_frame(None, 7, Some(&failed)), (Some(7), false));
    assert_eq!(overlay_frame(Some(7), 9000, None), (Some(7), false));
}

#[test]
fn the_overlay_times_out_after_fifteen_seconds() {
    let running = ProgressUpdate { percent: 40, message: "Working".to_string() };
    assert_eq!(overlay_timeout(1000, 15999, Some(&running)), None);
    let r = overlay_timeout(1000, 16000, Some(&running)).unwrap();
    assert_eq!((r.percent, r.message.as_str()), (100, "SYSTEM_TIMEOUT // PLEASE_RETRY"));
    let done = ProgressUpdate { percent: 100, message: "Done".to_string() };
    assert_eq!(overlay_timeout(0, 20000, Some(&done)), None);
    assert_eq!(overlay_timeout(0, 20000, None), None);
}
