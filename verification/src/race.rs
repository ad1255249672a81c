//! Race Selector: the primitive that waits on several concurrently
//! progressing branches and resolves as soon as the first eligible one
//! completes, abandoning the rest.
//!
//! A race invocation is modelled by two sequences of equal length: the
//! branches' guards, evaluated once at setup, and which branches have
//! completed by the time the selector resolves. The selector picks exactly
//! one branch that is both eligible (guard true) and completed. Callers must
//! not depend on which of several simultaneously ready branches is picked;
//! this model resolves the tie by lowest index.

use vstd::prelude::*;

verus! {

/// The resolution of one race invocation: the single branch whose completion
/// handler runs.
#[derive(Clone, Copy, PartialEq, Eq, Structural, Debug)]
pub struct RaceOutcome {
    pub winner: usize,
}

/// A branch is eligible for a race invocation exactly when its guard,
/// evaluated once at setup, was true.
pub open spec fn eligible(guards: Seq<bool>, i: int) -> bool {
    0 <= i < guards.len() && guards[i]
}

/// An outcome the selector may produce: the winner is an eligible, completed
/// branch, and no eligible branch of lower index had completed.
pub open spec fn valid_outcome(guards: Seq<bool>, completed: Seq<bool>, outcome: RaceOutcome) -> bool {
    &&& guards.len() == completed.len()
    &&& 0 <= outcome.winner < guards.len()
    &&& guards[outcome.winner as int]
    &&& completed[outcome.winner as int]
    &&& forall|j: int| 0 <= j < outcome.winner ==> !(guards[j] && completed[j])
}

/// In the model, a race invocation runs exactly its winner's completion
/// handler.
pub open spec fn handler_executes(outcome: RaceOutcome, branch: int) -> bool {
    outcome.winner == branch
}

/// Resolve a race invocation: given each branch's guard and whether it has
/// completed, pick the winning branch, or report that no eligible branch has
/// completed yet (the race is still pending).
pub fn select_winner(guards: &Vec<bool>, completed: &Vec<bool>) -> (r: Option<RaceOutcome>)
    requires
        guards@.len() == completed@.len(),
    ensures
        match r {
            Some(outcome) => valid_outcome(guards@, completed@, outcome),
            None => forall|j: int| 0 <= j < guards@.len() ==> !(guards@[j] && completed@[j]),
        },
{
    let n = guards.len();
    let mut i: usize = 0;
    while i < n
        invariant
            n == guards@.len(),
            guards@.len() == completed@.len(),
            i <= n,
            forall|j: int| 0 <= j < i ==> !(guards@[j] && completed@[j]),
        decreases n - i,
    {
        if guards[i] && completed[i] {
            return Some(RaceOutcome { winner: i });
        }
        i = i + 1;
    }
    None
}

/// Exactly one branch's completion handler executes per race invocation:
/// the winner's handler runs, and no other branch's handler runs for that
/// invocation, however many branches were eligible.
pub proof fn lemma_exactly_one_handler(guards: Seq<bool>, completed: Seq<bool>, outcome: RaceOutcome)
    requires
        valid_outcome(guards, completed, outcome),
    ensures
        handler_executes(outcome, outcome.winner as int),
        forall|j: int| j != outcome.winner ==> !handler_executes(outcome, j),
{
}

/// A branch whose guard was false is excluded from the invocation entirely:
/// it can never be the branch whose handler executes, however long the race
/// runs and whatever completes.
pub proof fn lemma_guarded_out_branch_never_wins(
    guards: Seq<bool>,
    completed: Seq<bool>,
    outcome: RaceOutcome,
    i: int,
)
    requires
        valid_outcome(guards, completed, outcome),
        0 <= i < guards.len(),
        !guards[i],
    ensures
        !handler_executes(outcome, i),
{
}

} // verus!
