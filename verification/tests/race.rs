use orchestrate::race::{select_winner, RaceOutcome};

#[test]
fn one_winner_among_unguarded_branches() {
    // Two unguarded branches, both completed: exactly one outcome, one winner.
    let guards = vec![true, true];
    let completed = vec![true, true];
    let outcome = select_winner(&guards, &completed);
    assert_eq!(outcome, Some(RaceOutcome { winner: 0 }));
}

#[test]
fn later_branch_wins_when_it_alone_completed() {
    let guards = vec![true, true, true];
    let completed = vec![false, false, true];
    let outcome = select_winner(&guards, &completed);
    assert_eq!(outcome, Some(RaceOutcome { winner: 2 }));
}

#[test]
fn guarded_out_branch_never_wins() {
    // The first branch completed, but its guard is false: it is excluded
    // from the invocation entirely and cannot win.
    let guards = vec![false, true];
    let completed = vec![true, true];
    let outcome = select_winner(&guards, &completed);
    assert_eq!(outcome, Some(RaceOutcome { winner: 1 }));
}

#[test]
fn guarded_out_branch_never_wins_even_alone() {
    // Only the guarded-out branch has completed: the race stays pending,
    // however long it runs.
    let guards = vec![false, true];
    let completed = vec![true, false];
    let outcome = select_winner(&guards, &completed);
    assert_eq!(outcome, None);
}

#[test]
fn race_pending_while_nothing_completed() {
    let guards = vec![true, true, true, true];
    let completed = vec![false, false, false, false];
    assert_eq!(select_winner(&guards, &completed), None);
}
