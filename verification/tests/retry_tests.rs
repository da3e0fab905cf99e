use relay::retry::RetryState;
use relay::retry::RETRY_ATTEMPTS;

/// Drives the retry bookkeeping over a fixed script of attempt outcomes
/// (`true` is success), the way a caller would around a fallible step.
/// Returns (attempts made, pauses taken, whether the step succeeded).
fn run_script(outcomes: &[bool]) -> (usize, usize, bool) {
    let mut state = RetryState::new();
    let mut attempts = 0usize;
    let mut pauses = 0usize;
    loop {
        let outcome = outcomes[attempts];
        attempts += 1;
        if outcome {
            return (attempts, pauses, true);
        }
        if state.record_failure() {
            pauses += 1;
        } else {
            return (attempts, pauses, false);
        }
    }
}

#[test]
fn three_attempts_in_all() {
    assert_eq!(RETRY_ATTEMPTS, 3);
}

#[test]
fn success_on_third_attempt_after_two_pauses() {
    let (attempts, pauses, ok) = run_script(&[false, false, true]);
    assert!(ok);
    assert_eq!(attempts, 3);
    assert_eq!(pauses, 2);
}

#[test]
fn immediate_success_needs_one_attempt() {
    let (attempts, pauses, ok) = run_script(&[true]);
    assert!(ok);
    assert_eq!(attempts, 1);
    assert_eq!(pauses, 0);
}

#[test]
fn persistent_failure_stops_after_three_attempts() {
    let (attempts, _pauses, ok) = run_script(&[false, false, false, false]);
    assert!(!ok);
    assert_eq!(attempts, 3);
}
