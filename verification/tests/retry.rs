use orchestrate::retry::{RetryEvent, RetryLoop, TIMEOUT_BUDGET};

#[test]
fn timeout_guard_holds_for_exactly_the_budget() {
    let mut lp = RetryLoop::new();
    // Attempts 1, 2, 3: the timeout branch is eligible and fires.
    for attempt in 1..=TIMEOUT_BUDGET {
        assert!(lp.next_timeout_guard());
        let done = lp.step(RetryEvent::TimeoutFired);
        assert!(!done);
        assert_eq!(lp.attempt_count, attempt);
    }
    // From attempt 4 on the guard is permanently false: the timeout branch
    // can never fire again, so only the main task can resolve an iteration.
    assert!(!lp.next_timeout_guard());
    let done = lp.step(RetryEvent::MainTaskCompleted);
    assert!(done);
    assert!(lp.finished);
    assert_eq!(lp.attempt_count, 4);
}

#[test]
fn loop_terminates_only_via_main_task() {
    let mut lp = RetryLoop::new();
    let done = lp.step(RetryEvent::TimeoutFired);
    assert!(!done);
    assert!(!lp.finished);
    let done = lp.step(RetryEvent::MainTaskCompleted);
    assert!(done);
    assert!(lp.finished);
}

#[test]
fn main_task_may_win_the_first_iteration() {
    let mut lp = RetryLoop::new();
    assert!(lp.next_timeout_guard());
    let done = lp.step(RetryEvent::MainTaskCompleted);
    assert!(done);
    assert_eq!(lp.attempt_count, 1);
}

#[test]
fn budget_is_three() {
    assert_eq!(TIMEOUT_BUDGET, 3);
}
