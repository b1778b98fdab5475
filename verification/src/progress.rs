//! What the progress overlay makes of a progress report: whether the
//! operation has ended, whether it failed, the report that replaces one
//! that took too long, and the status label.

use vstd::prelude::*;
use crate::crypto::{to_lowercase, unicode_lowercase};
use crate::numbers::{decimal_string, decimal_text};
use crate::text::{append_text, contains_seq, contains_text, owned, push_char};
use crate::ws::{finished, ProgressUpdate};

verus! {

/// How a report stands on the overlay.
#[derive(Debug, Clone, Copy, PartialEq, Eq)]
pub enum ProgressStatus {
    Running,
    Failed,
    Succeeded,
}

/// A lower-cased message that ends the operation as failed.
pub open spec fn tells_failure(lower: Seq<char>) -> bool {
    contains_seq(lower, "error"@) || contains_seq(lower, "failed"@)
}

/// A lower-cased message that is shown as a failure.
pub open spec fn shows_failure(lower: Seq<char>) -> bool {
    tells_failure(lower) || contains_seq(lower, "timeout"@)
}

/// The report ends the operation: it is complete, or it tells of a failure.
pub open spec fn report_done(p: ProgressUpdate) -> bool {
    p.percent >= 100 || tells_failure(unicode_lowercase(p.message@))
}

/// The status of a report whose message reads `lower` in lower case.
pub open spec fn status_spec(lower: Seq<char>, percent: u8) -> ProgressStatus {
    if shows_failure(lower) {
        ProgressStatus::Failed
    } else if percent >= 100 {
        ProgressStatus::Succeeded
    } else {
        ProgressStatus::Running
    }
}

/// The status of a report, from its lower-cased message and its percentage.
pub fn status_of(lower: &str, percent: u8) -> (s: ProgressStatus)
    ensures
        s == status_spec(lower@, percent),
{
    if contains_text(lower, "error") || contains_text(lower, "failed") || contains_text(
        lower,
        "timeout",
    ) {
        ProgressStatus::Failed
    } else if percent >= 100 {
        ProgressStatus::Succeeded
    } else {
        ProgressStatus::Running
    }
}

/// Whether a report, whose message reads `lower` in lower case, ends the
/// operation.
pub fn done_of(lower: &str, percent: u8) -> (b: bool)
    ensures
        b == (percent >= 100 || tells_failure(lower@)),
{
    percent >= 100 || contains_text(lower, "error") || contains_text(lower, "failed")
}

/// The status of a report.
pub fn progress_status(p: &ProgressUpdate) -> (s: ProgressStatus)
    ensures
        s == status_spec(unicode_lowercase(p.message@), p.percent),
{
    let lower = to_lowercase(p.message.as_str());
    status_of(lower.as_str(), p.percent)
}

/// Whether a report ends the operation, so that the overlay closes.
pub fn progress_done(p: &ProgressUpdate) -> (b: bool)
    ensures
        b == report_done(*p),
{
    let lower = to_lowercase(p.message.as_str());
    done_of(lower.as_str(), p.percent)
}

/// What replaces the current report once the operation has run too long:
/// a complete report with the timeout message, unless there is no report or
/// it is already complete.
pub fn timeout_report(current: Option<&ProgressUpdate>) -> (r: Option<ProgressUpdate>)
    ensures
        match current {
            Some(p) => if p.percent < 100 {
                r matches Some(q) && q.percent == 100 && q.message@
                    == "SYSTEM_TIMEOUT // PLEASE_RETRY"@
            } else {
                r is None
            },
            None => r is None,
        },
{
    match current {
        Some(p) => {
            if p.percent < 100 {
                Some(finished(owned("SYSTEM_TIMEOUT // PLEASE_RETRY")))
            } else {
                None
            }
        },
        None => None,
    }
}

/// The spinner character shown at animation frame `frame`: it turns every
/// eight frames through `|`, `/`, `-`, `\\`.
pub open spec fn spinner_spec(frame: u64) -> char {
    let k = (frame / 8) % 4;
    if k == 0 {
        '|'
    } else if k == 1 {
        '/'
    } else if k == 2 {
        '-'
    } else {
        '\\'
    }
}

/// The status label of the overlay: `[OK] 100%` on success, `[FAIL] n%` on
/// failure and `[c] n%` with the spinner character `c` while running, where
/// `n` is the percentage shown.
pub open spec fn status_label_spec(status: ProgressStatus, shown: u8, frame: u64) -> Seq<char> {
    match status {
        ProgressStatus::Succeeded => "[OK] 100%"@,
        ProgressStatus::Failed => "[FAIL] "@ + decimal_text(shown as nat) + "%"@,
        ProgressStatus::Running => seq!['[', spinner_spec(frame), ']', ' '] + decimal_text(
            shown as nat,
        ) + "%"@,
    }
}

/// The spinner character at animation frame `frame`.
pub fn spinner(frame: u64) -> (c: char)
    ensures
        c == spinner_spec(frame),
{
    let k = (frame / 8) % 4;
    if k == 0 {
        '|'
    } else if k == 1 {
        '/'
    } else if k == 2 {
        '-'
    } else {
        '\\'
    }
}

/// The status label for `status`, with `shown` percent on display at
/// animation frame `frame`.
pub fn status_label(status: ProgressStatus, shown: u8, frame: u64) -> (label: String)
    ensures
        label@ == status_label_spec(status, shown, frame),
{
    match status {
        ProgressStatus::Succeeded => owned("[OK] 100%"),
        ProgressStatus::Failed => {
            let mut out = owned("[FAIL] ");
            append_text(&mut out, decimal_string(shown as u128).as_str());
            append_text(&mut out, "%");
            out
        },
        ProgressStatus::Running => {
            let mut out = String::new();
            push_char(&mut out, '[');
            push_char(&mut out, spinner(frame));
            push_char(&mut out, ']');
            push_char(&mut out, ' ');
            append_text(&mut out, decimal_string(shown as u128).as_str());
            append_text(&mut out, "%");
            assert(out@ =~= seq!['[', spinner_spec(frame), ']', ' '] + decimal_text(shown as nat)
                + "%"@);
            out
        },
    }
}

/// A report that ends the operation is shown as a success or a failure,
/// never as still running.
pub proof fn done_report_is_settled(p: ProgressUpdate)
    requires
        report_done(p),
    ensures
        status_spec(unicode_lowercase(p.message@), p.percent) != ProgressStatus::Running,
{
}

/// The report that replaces a late one ends the operation.
pub proof fn timeout_report_is_done(q: ProgressUpdate)
    requires
        q.percent == 100,
        q.message@ == "SYSTEM_TIMEOUT // PLEASE_RETRY"@,
    ensures
        report_done(q),
{
}

/// How long after the overlay opens a report still running is replaced by
/// the timeout report, in milliseconds.
pub const TIMEOUT_MS: u64 = 15000;

/// How long a finished report stays on show before the overlay closes, in
/// milliseconds.
pub const SETTLE_MS: u64 = 500;

/// The report that the timeout puts in place of `current`, if any, `now`
/// milliseconds after the overlay opened at `opened`: none before
/// `TIMEOUT_MS`; after it, a complete report with the timeout message in
/// place of a report still running.
pub open spec fn timeout_result(opened: u64, now: u64, current: Option<ProgressUpdate>, r: Option<ProgressUpdate>) -> bool {
    if (now as int) < opened + TIMEOUT_MS {
        r is None
    } else {
        match current {
            Some(p) => if p.percent < 100 {
                r matches Some(q) && q.percent == 100 && q.message@ == "SYSTEM_TIMEOUT // PLEASE_RETRY"@
            } else {
                r is None
            },
            None => r is None,
        }
    }
}

/// The timeout of an overlay opened at `opened`, checked at `now`.
pub fn overlay_timeout(opened: u64, now: u64, current: Option<&ProgressUpdate>) -> (r: Option<ProgressUpdate>)
    ensures
        timeout_result(opened, now, match current { Some(p) => Some(*p), None => None }, r),
{
    if now < opened || now - opened < TIMEOUT_MS {
        None
    } else {
        timeout_report(current)
    }
}

/// When the overlay first saw a finished report, after a frame at `now`
/// that shows `current`: the frame that first shows a finished report
/// starts the clock, which then keeps its time.
pub open spec fn settle_clock(finished_at: Option<u64>, now: u64, current: Option<ProgressUpdate>) -> Option<u64> {
    match current {
        Some(p) => if report_done(p) && finished_at is None {
            Some(now)
        } else {
            finished_at
        },
        None => finished_at,
    }
}

/// Whether the overlay closes at the frame at `now`: it shows a finished
/// report, and `SETTLE_MS` have passed since the clock started.
pub open spec fn settles(finished_at: Option<u64>, now: u64, current: Option<ProgressUpdate>) -> bool {
    match current {
        Some(p) => report_done(p) && (settle_clock(finished_at, now, current) matches Some(f) && now >= f + SETTLE_MS),
        None => false,
    }
}

/// One animation frame of the overlay at `now`, with the clock
/// `finished_at`: the clock afterwards, and whether the overlay closes.
pub fn overlay_frame(finished_at: Option<u64>, now: u64, current: Option<&ProgressUpdate>) -> (out: (Option<u64>, bool))
    ensures
        out.0 == settle_clock(finished_at, now, match current { Some(p) => Some(*p), None => None }),
        out.1 == settles(finished_at, now, match current { Some(p) => Some(*p), None => None }),
{
    match current {
        Some(p) => {
            if progress_done(p) {
                let f = match finished_at {
                    Some(f) => f,
                    None => now,
                };
                (Some(f), now >= f && now - f >= SETTLE_MS)
            } else {
                (finished_at, false)
            }
        },
        None => (finished_at, false),
    }
}

/// The clock after the first `n` frames, at `times` showing `reports`.
pub open spec fn clock_after(times: Seq<u64>, reports: Seq<Option<ProgressUpdate>>, n: nat) -> Option<u64>
    decreases n,
{
    if n == 0 {
        None
    } else {
        settle_clock(clock_after(times, reports, (n - 1) as nat), times[n - 1], reports[n - 1])
    }
}

/// Frame `j` showed a finished report.
pub open spec fn shows_done(reports: Seq<Option<ProgressUpdate>>, j: int) -> bool {
    reports[j] matches Some(p) && report_done(p)
}

proof fn lemma_clock_started_by_done_frame(times: Seq<u64>, reports: Seq<Option<ProgressUpdate>>, n: nat)
    requires
        n <= times.len(),
        times.len() == reports.len(),
    ensures
        clock_after(times, reports, n) matches Some(f) ==> exists|j: int| 0 <= j < n && #[trigger] shows_done(reports, j)
            && times[j] == f,
    decreases n,
{
    if n > 0 {
        lemma_clock_started_by_done_frame(times, reports, (n - 1) as nat);
        let j = n - 1;
        if clock_after(times, reports, (n - 1) as nat) is None && clock_after(times, reports, n) is Some {
            assert(shows_done(reports, j));
        }
    }
}

/// The overlay closes only once a finished report has been on show for
/// `SETTLE_MS`: the frame that closes it comes at least that long after a
/// frame that showed a finished report.
pub proof fn closes_only_after_settling(times: Seq<u64>, reports: Seq<Option<ProgressUpdate>>, i: nat)
    requires
        i < times.len(),
        times.len() == reports.len(),
        settles(clock_after(times, reports, i), times[i as int], reports[i as int]),
    ensures
        exists|j: int| 0 <= j <= i && #[trigger] shows_done(reports, j) && times[i as int] >= times[j] + SETTLE_MS,
{
    lemma_clock_started_by_done_frame(times, reports, i);
    if clock_after(times, reports, i) is None {
        assert(shows_done(reports, i as int));
    }
}

/// A frame that shows a finished report `SETTLE_MS` or more after the clock
/// started closes the overlay.
pub proof fn settled_report_closes(finished_at: u64, now: u64, p: ProgressUpdate)
    requires
        report_done(p),
        now >= finished_at + SETTLE_MS,
    ensures
        settles(Some(finished_at), now, Some(p)),
{
}

/// A report still running when the timeout is checked, `TIMEOUT_MS` or
/// more after the overlay opened, is replaced by a report that ends the
/// operation.
pub proof fn late_report_times_out(opened: u64, now: u64, p: ProgressUpdate, r: Option<ProgressUpdate>)
    requires
        now >= opened + TIMEOUT_MS,
        p.percent < 100,
        timeout_result(opened, now, Some(p), r),
    ensures
        r matches Some(q) && report_done(q),
{
    timeout_report_is_done(r->0);
}

/// The overlay shows a report as failed exactly when its lower-cased
/// message contains `error`, `failed` or `timeout`; otherwise as succeeded
/// exactly when it is complete, and as running while it is not.
pub proof fn status_follows_message_and_percent(lower: Seq<char>, percent: u8)
    ensures
        (status_spec(lower, percent) == ProgressStatus::Failed) <==> (contains_seq(lower, "error"@) || contains_seq(
            lower,
            "failed"@,
        ) || contains_seq(lower, "timeout"@)),
        (status_spec(lower, percent) == ProgressStatus::Succeeded) <==> (!(contains_seq(lower, "error"@)
            || contains_seq(lower, "failed"@) || contains_seq(lower, "timeout"@)) && percent >= 100),
        (status_spec(lower, percent) == ProgressStatus::Running) <==> (!(contains_seq(lower, "error"@)
            || contains_seq(lower, "failed"@) || contains_seq(lower, "timeout"@)) && percent < 100),
{
}

/// A report ends the operation exactly when it is complete or its
/// lower-cased message contains `error` or `failed`.
pub proof fn done_follows_message_and_percent(p: ProgressUpdate)
    ensures
        report_done(p) <==> (p.percent >= 100 || contains_seq(unicode_lowercase(p.message@), "error"@) || contains_seq(
            unicode_lowercase(p.message@),
            "failed"@,
        )),
{
}

} // verus!
