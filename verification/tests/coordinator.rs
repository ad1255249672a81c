use orchestrate::coordinator::{
    Coordinator, Phase, TopLevelSignal, INTERRUPT_BRANCH, PIPELINE_A_BRANCH, TICKER_BRANCH,
};
use orchestrate::leaf::parallel_join;
use orchestrate::race::{select_winner, RaceOutcome};
use orchestrate::retry::{RetryEvent, RetryLoop};

// The four top-level branches, all unguarded; the ticker (branch 0) loops
// forever and never completes.
fn top_level_guards() -> Vec<bool> {
    vec![true, true, true, true]
}

#[test]
fn immediate_interrupt_skips_the_pipelines() {
    // An external interrupt arrives while neither pipeline has produced a
    // result: the interrupt branch resolves the race.
    let completed = vec![false, true, false, false];
    let outcome = select_winner(&top_level_guards(), &completed);
    assert_eq!(outcome, Some(RaceOutcome { winner: INTERRUPT_BRANCH }));

    // The coordinator then proceeds directly to the retry loop.
    let mut coord = Coordinator::new();
    coord.launch_background();
    coord.record_join(parallel_join(3, 5));
    coord.resolve_signal(TopLevelSignal::Interrupt);
    assert_eq!(coord.phase, Phase::Signalled);
    assert!(matches!(coord.resolved, Some(TopLevelSignal::Interrupt)));

    let mut lp = RetryLoop::new();
    let done = lp.step(RetryEvent::MainTaskCompleted);
    assert!(done);
    coord.finish();
    assert_eq!(coord.phase, Phase::Finished);
}

#[test]
fn ticker_never_resolves_the_race() {
    // However the other branches stand, the ticker cannot win: it never
    // completes.
    let nothing_yet = vec![false, false, false, false];
    assert_eq!(select_winner(&top_level_guards(), &nothing_yet), None);

    let all_others = vec![false, true, true, true];
    let outcome = select_winner(&top_level_guards(), &all_others).unwrap();
    assert_ne!(outcome.winner, TICKER_BRANCH);
}

#[test]
fn pipeline_result_resolves_when_no_interrupt() {
    let completed = vec![false, false, true, false];
    let outcome = select_winner(&top_level_guards(), &completed);
    assert_eq!(outcome, Some(RaceOutcome { winner: PIPELINE_A_BRANCH }));

    let mut coord = Coordinator::new();
    coord.launch_background();
    coord.record_join(parallel_join(3, 5));
    coord.resolve_signal(TopLevelSignal::PipelineA(String::from("Hello, world!")));
    assert_eq!(coord.phase, Phase::Signalled);
    let joined = coord.join_result.as_ref().unwrap();
    assert_eq!(joined.first, String::from("《3》request_date"));
    assert_eq!(joined.second, String::from("《5》request_date"));
}
