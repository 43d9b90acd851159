use waitfor::engine::{step, wait_for};
use waitfor::msg::Msg;
use waitfor::reporter::{Phase, Reporter};

fn progress(m: &str) -> Option<Msg> {
    Some(Msg::Progress(m.to_string()))
}

fn success(m: &str) -> Option<Msg> {
    Some(Msg::Success(m.to_string()))
}

fn failure(m: &str) -> Option<Msg> {
    Some(Msg::Failure(m.to_string()))
}

#[test]
fn success_scenario_labels_and_poll_count() {
    let polls = vec![
        Some(Msg::NoUpdate),
        progress("50%"),
        progress("90%"),
        success("done"),
    ];
    let out = wait_for("label0".to_string(), polls);
    assert_eq!(out.consumed, 4);
    assert_eq!(out.reporter.phase(), Phase::Succeeded);
    assert_eq!(out.reporter.label().as_str(), "done");
    assert!(!out.reporter.is_active());
}

#[test]
fn success_scenario_label_transitions() {
    let mut reporter = Reporter::start("label0".to_string());
    assert_eq!(reporter.label().as_str(), "label0");

    assert!(!step(&mut reporter, Some(Msg::NoUpdate)));
    assert_eq!(reporter.label().as_str(), "label0");

    assert!(!step(&mut reporter, progress("50%")));
    assert_eq!(reporter.label().as_str(), "50%");

    assert!(!step(&mut reporter, progress("90%")));
    assert_eq!(reporter.label().as_str(), "90%");

    assert!(step(&mut reporter, success("done")));
    assert_eq!(reporter.label().as_str(), "done");
    assert_eq!(reporter.phase(), Phase::Succeeded);

    reporter.stop();
    assert!(!reporter.is_ticking());
    assert_eq!(reporter.stop_count(), 1);
}

#[test]
fn failure_scenario_ends_failed_never_success() {
    let polls = vec![progress("x"), failure("boom")];
    let out = wait_for("start".to_string(), polls);
    assert_eq!(out.consumed, 2);
    assert_eq!(out.reporter.phase(), Phase::Failed);
    assert_ne!(out.reporter.phase(), Phase::Succeeded);
    assert_eq!(out.reporter.label().as_str(), "boom");
}

#[test]
fn no_update_condition_never_terminates_within_cutoff() {
    let polls = vec![
        Some(Msg::NoUpdate),
        None,
        Some(Msg::NoUpdate),
        None,
        None,
        Some(Msg::NoUpdate),
    ];
    let n = polls.len();
    let out = wait_for("waiting".to_string(), polls);
    assert_eq!(out.consumed, n);
    assert!(out.reporter.is_active());
    assert_eq!(out.reporter.phase(), Phase::Running);
    assert_eq!(out.reporter.label().as_str(), "waiting");
}

#[test]
fn terminates_exactly_at_first_terminal_event() {
    let polls = vec![
        progress("early"),
        success("first"),
        failure("later"),
        success("even later"),
    ];
    let out = wait_for("start".to_string(), polls);
    assert_eq!(out.consumed, 2);
    assert_eq!(out.reporter.phase(), Phase::Succeeded);
    assert_eq!(out.reporter.label().as_str(), "first");
}

#[test]
fn update_with_same_label_is_idempotent() {
    let mut reporter = Reporter::start("a".to_string());
    reporter.update("b".to_string());
    let label_once = reporter.label().clone();
    let phase_once = reporter.phase();
    let ticking_once = reporter.is_ticking();
    reporter.update("b".to_string());
    assert_eq!(reporter.label(), &label_once);
    assert_eq!(reporter.phase(), phase_once);
    assert_eq!(reporter.is_ticking(), ticking_once);
}

#[test]
fn timeout_between_progress_events_keeps_label() {
    let mut reporter = Reporter::start("start".to_string());
    assert!(!step(&mut reporter, progress("a")));
    assert!(!step(&mut reporter, None));
    assert_eq!(reporter.label().as_str(), "a");
    assert!(!step(&mut reporter, progress("b")));
    assert_eq!(reporter.label().as_str(), "b");
}

#[test]
fn teardown_happens_exactly_once_on_success() {
    let out = wait_for("start".to_string(), vec![success("ok")]);
    assert_eq!(out.reporter.stop_count(), 1);
    assert!(!out.reporter.is_ticking());
}

#[test]
fn teardown_happens_exactly_once_on_failure() {
    let out = wait_for("start".to_string(), vec![failure("bad")]);
    assert_eq!(out.reporter.stop_count(), 1);
    assert!(!out.reporter.is_ticking());
}

#[test]
fn teardown_happens_exactly_once_on_cutoff() {
    let out = wait_for("start".to_string(), vec![None, Some(Msg::NoUpdate)]);
    assert_eq!(out.reporter.stop_count(), 1);
    assert!(!out.reporter.is_ticking());
}

#[test]
fn empty_poll_sequence_leaves_reporter_live() {
    let out = wait_for("nothing yet".to_string(), Vec::new());
    assert_eq!(out.consumed, 0);
    assert!(out.reporter.is_active());
    assert_eq!(out.reporter.label().as_str(), "nothing yet");
    assert_eq!(out.reporter.stop_count(), 1);
}

#[test]
fn stop_is_safe_to_repeat_after_terminal_line() {
    let mut reporter = Reporter::start("start".to_string());
    assert!(step(&mut reporter, failure("gone")));
    assert!(!reporter.is_ticking());
    reporter.stop();
    reporter.stop();
    assert_eq!(reporter.stop_count(), 2);
    assert_eq!(reporter.phase(), Phase::Failed);
    assert_eq!(reporter.label().as_str(), "gone");
}

#[test]
fn progress_does_not_end_the_cycle() {
    let mut reporter = Reporter::start("start".to_string());
    assert!(!step(&mut reporter, progress("still going")));
    assert!(reporter.is_active());
    assert!(reporter.is_ticking());
}
