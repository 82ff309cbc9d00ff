// The retry orchestrator driven over recorded schedules of attempt events.

use spkrd::error::SpeakerError;
use spkrd::speaker::retry_step;
use spkrd::speaker::run_retry_schedule;
use spkrd::speaker::RetryAction;
use spkrd::speaker::RETRY_INTERVAL_MS;

fn busy() -> Result<(), SpeakerError> {
    Err(SpeakerError::DeviceBusy)
}

/// The ideal schedule: attempt `i` observes `i` whole retry intervals.
fn ideal_elapsed(n: usize) -> Vec<u64> {
    (0..n as u64).map(|i| i * RETRY_INTERVAL_MS).collect()
}

#[test]
fn test_timeout_attempt_count() {
    // Timeout 30 s, interval 1 s, device permanently busy: the outcome is
    // the busy timeout, after 31 attempts — within the expected 29..=31.
    let n = 40;
    let events: Vec<Result<(), SpeakerError>> = (0..n).map(|_| busy()).collect();
    let (outcome, attempts) = run_retry_schedule(events, &ideal_elapsed(n), 30_000);

    assert_eq!(outcome, Some(Err(SpeakerError::Timeout)));
    assert_eq!(attempts, 31);
    assert!(29 <= attempts && attempts <= 31);
}

#[test]
fn test_success_after_busy_attempts() {
    let events = vec![busy(), busy(), Ok(())];
    let (outcome, attempts) = run_retry_schedule(events, &ideal_elapsed(3), 30_000);

    assert_eq!(outcome, Some(Ok(2)));
    assert_eq!(attempts, 3);
}

#[test]
fn test_immediate_success_has_zero_retries() {
    let events = vec![Ok(())];
    let (outcome, attempts) = run_retry_schedule(events, &ideal_elapsed(1), 30_000);

    assert_eq!(outcome, Some(Ok(0)));
    assert_eq!(attempts, 1);
}

#[test]
fn test_hard_error_is_not_retried() {
    let events = vec![
        Err(SpeakerError::DeviceError("Permission denied".to_string())),
        busy(),
        Ok(()),
    ];
    let (outcome, attempts) = run_retry_schedule(events, &ideal_elapsed(3), 30_000);

    assert_eq!(
        outcome,
        Some(Err(SpeakerError::DeviceError("Permission denied".to_string())))
    );
    assert_eq!(attempts, 1);
}

#[test]
fn test_zero_timeout_still_makes_one_attempt() {
    let events = vec![busy(), busy()];
    let (outcome, attempts) = run_retry_schedule(events, &ideal_elapsed(2), 0);

    assert_eq!(outcome, Some(Err(SpeakerError::Timeout)));
    assert_eq!(attempts, 1);
}

#[test]
fn test_schedule_exhausted_before_decision() {
    let events = vec![busy(), busy()];
    let (outcome, attempts) = run_retry_schedule(events, &ideal_elapsed(2), 30_000);

    assert_eq!(outcome, None);
    assert_eq!(attempts, 2);
}

#[test]
fn test_empty_schedule_decides_nothing() {
    let (outcome, attempts) = run_retry_schedule(Vec::new(), &Vec::new(), 30_000);

    assert_eq!(outcome, None);
    assert_eq!(attempts, 0);
}

#[test]
fn test_step_busy_inside_window_sleeps_and_counts() {
    let (action, retries) = retry_step(3, busy(), 1_000, 30_000);
    assert!(matches!(action, RetryAction::SleepAndRetry));
    assert_eq!(retries, 4);
}

#[test]
fn test_step_busy_at_window_end_times_out() {
    let (action, retries) = retry_step(7, busy(), 30_000, 30_000);
    match action {
        RetryAction::Finish(outcome) => assert_eq!(outcome, Err(SpeakerError::Timeout)),
        RetryAction::SleepAndRetry => panic!("the window is spent; the loop must stop"),
    }
    assert_eq!(retries, 7);
}

#[test]
fn test_step_success_reports_prior_busy_count() {
    let (action, _) = retry_step(5, Ok(()), 12_345, 30_000);
    match action {
        RetryAction::Finish(outcome) => assert_eq!(outcome, Ok(5)),
        RetryAction::SleepAndRetry => panic!("a successful attempt finishes the request"),
    }
}
