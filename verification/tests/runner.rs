use orchestrate::channel::SignalChannel;
use orchestrate::race::{select_winner, RaceOutcome};
use orchestrate::runner::{perform_runner_event, RunnerEvent, RUNNER_CANCEL_BRANCH};

#[test]
fn completed_leaf_forwards_its_result() {
    let mut chan: SignalChannel<String> = SignalChannel::new();
    let sent = perform_runner_event(
        &mut chan,
        RunnerEvent::LeafCompleted(String::from("Hello, world!")),
    );
    assert!(sent);
    let got = chan.receive();
    assert_eq!(got, Ok(String::from("Hello, world!")));
}

#[test]
fn consumer_dropped_before_leaf_completes_means_no_send() {
    // The consumer end is dropped while the leaf operation is still running:
    // the cancellation branch is the only completed one, so it wins the
    // runner's race ...
    let guards = vec![true, true];
    let completed = vec![false, true];
    let outcome = select_winner(&guards, &completed);
    assert_eq!(outcome, Some(RaceOutcome { winner: RUNNER_CANCEL_BRANCH }));

    // ... and the runner abandons its work without attempting a send.
    let mut chan: SignalChannel<String> = SignalChannel::new();
    chan.drop_consumer();
    let sent = perform_runner_event(&mut chan, RunnerEvent::ConsumerGone);
    assert!(!sent);
    assert!(!chan.sent);
    assert!(chan.slot.is_none());
}

#[test]
fn send_races_against_a_gone_consumer_and_fails_silently() {
    // The leaf finished first, but by the time the send happens the consumer
    // is gone: the send fails and the failure is tolerated.
    let mut chan: SignalChannel<String> = SignalChannel::new();
    chan.drop_consumer();
    let sent = perform_runner_event(
        &mut chan,
        RunnerEvent::LeafCompleted(String::from("Hello, world!")),
    );
    assert!(!sent);
    assert!(!chan.sent);
}
