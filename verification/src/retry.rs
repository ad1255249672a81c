//! Bounded Retry Loop: a loop that races a guarded timeout branch against an
//! unguarded main-task branch. The timeout branch is eligible only while the
//! attempt counter is within a fixed budget; the loop terminates exactly when
//! the main task completes.

use vstd::prelude::*;
use crate::race;
use crate::race::RaceOutcome;

verus! {

/// Number of attempts during which the timeout branch may still fire.
pub const TIMEOUT_BUDGET: u64 = 3;

/// Time units the guarded timeout branch sleeps before firing.
pub const TIMEOUT_INTERVAL: u64 = 1;

/// Time units the main task takes per attempt.
pub const MAIN_TASK_DURATION: u64 = 2;

/// Index of an iteration's guarded timeout branch.
pub const RETRY_TIMEOUT_BRANCH: usize = 0;

/// Index of an iteration's unguarded main-task branch.
pub const RETRY_MAIN_BRANCH: usize = 1;

/// Outcome of one iteration's two-branch race.
#[derive(Clone, Copy, PartialEq, Eq, Structural, Debug)]
pub enum RetryEvent {
    /// The guarded timeout branch won the iteration's race.
    TimeoutFired,
    /// The unguarded main-task branch completed; the loop terminates.
    MainTaskCompleted,
}

/// The timeout branch's guard: true exactly while the attempt number is
/// within the budget.
pub open spec fn timeout_eligible(attempt: u64) -> bool {
    attempt <= TIMEOUT_BUDGET
}

/// The guards of one iteration's race: the timeout branch under its guard,
/// the main-task branch always eligible.
pub open spec fn retry_guards(timeout_guard: bool) -> Seq<bool> {
    seq![timeout_guard, true]
}

/// The main-task branch is eligible in every iteration, whatever the
/// timeout guard: the loop is never blocked from terminating.
pub proof fn lemma_main_task_always_eligible(timeout_guard: bool)
    ensures
        race::eligible(retry_guards(timeout_guard), RETRY_MAIN_BRANCH as int),
{
}

/// Once the budget is exhausted the timeout branch is ineligible, so every
/// later iteration's race can only resolve through the main task.
pub proof fn lemma_exhausted_budget_only_main_task(completed: Seq<bool>, outcome: RaceOutcome)
    requires
        race::valid_outcome(retry_guards(false), completed, outcome),
    ensures
        outcome.winner == RETRY_MAIN_BRANCH,
{
    assert(!retry_guards(false)[RETRY_TIMEOUT_BRANCH as int]);
}

/// Which events a loop run may record: a timeout may fire only in an
/// iteration whose attempt number (index + 1) is within the budget, and the
/// main task's completion ends the loop, so it can only be the last event.
pub open spec fn valid_trace(events: Seq<RetryEvent>) -> bool {
    forall|i: int|
        0 <= i < events.len() ==> {
            &&& (events[i] is TimeoutFired ==> i + 1 <= TIMEOUT_BUDGET)
            &&& (events[i] is MainTaskCompleted ==> i == events.len() - 1)
        }
}

/// A loop run has reached its terminal state exactly when its last recorded
/// event is the main task's completion.
pub open spec fn terminated(events: Seq<RetryEvent>) -> bool {
    events.len() > 0 && events.last() is MainTaskCompleted
}

/// How many times the timeout branch fired in a run.
pub open spec fn timeout_count(events: Seq<RetryEvent>) -> nat
    decreases events.len(),
{
    if events.len() == 0 {
        0
    } else {
        timeout_count(events.drop_last()) + if events.last() is TimeoutFired {
            1nat
        } else {
            0nat
        }
    }
}

/// State of one Bounded Retry Loop invocation.
pub struct RetryLoop {
    /// Number of iterations begun so far.
    pub attempt_count: u64,
    /// Whether the main-task branch has completed.
    pub finished: bool,
    /// The events recorded so far, one per finished iteration.
    pub history: Ghost<Seq<RetryEvent>>,
}

impl RetryLoop {
    /// The loop's invariant: the counter counts recorded iterations, the
    /// record is one the loop's rules allow, and the loop is finished exactly
    /// when the record ends with the main task's completion.
    pub open spec fn wf(self) -> bool {
        &&& self.attempt_count == self.history@.len()
        &&& valid_trace(self.history@)
        &&& self.finished == terminated(self.history@)
    }

    /// A fresh loop: no attempts made, not finished.
    pub fn new() -> (r: RetryLoop)
        ensures
            r.wf(),
            r.attempt_count == 0,
            !r.finished,
            r.history@ == Seq::<RetryEvent>::empty(),
    {
        RetryLoop { attempt_count: 0, finished: false, history: Ghost(Seq::empty()) }
    }

    /// The guard the next iteration's timeout branch must be raced under.
    pub fn next_timeout_guard(&self) -> (g: bool)
        requires
            self.attempt_count < u64::MAX,
        ensures
            g == timeout_eligible((self.attempt_count + 1) as u64),
    {
        self.attempt_count + 1 <= TIMEOUT_BUDGET
    }

    /// Record the outcome of one iteration's race. A timeout may only be
    /// recorded when the iteration's guard held; the returned flag says
    /// whether the loop has reached its terminal state.
    pub fn step(&mut self, event: RetryEvent) -> (done: bool)
        requires
            old(self).wf(),
            !old(self).finished,
            old(self).attempt_count < u64::MAX,
            event is TimeoutFired ==> timeout_eligible((old(self).attempt_count + 1) as u64),
        ensures
            final(self).wf(),
            final(self).attempt_count == old(self).attempt_count + 1,
            final(self).history@ == old(self).history@.push(event),
            final(self).finished == (event is MainTaskCompleted),
            done == final(self).finished,
    {
        proof {
            lemma_not_terminated_all_timeouts(self.history@);
        }
        self.attempt_count = self.attempt_count + 1;
        self.finished = matches!(event, RetryEvent::MainTaskCompleted);
        self.history = Ghost(self.history@.push(event));
        self.finished
    }
}

/// In a valid, unterminated run every recorded event is a timeout firing:
/// the main task's completion could only stand last, and a run whose last
/// event it is has terminated.
pub proof fn lemma_not_terminated_all_timeouts(events: Seq<RetryEvent>)
    requires
        valid_trace(events),
        !terminated(events),
    ensures
        forall|i: int| 0 <= i < events.len() ==> events[i] is TimeoutFired,
{
    assert forall|i: int| 0 <= i < events.len() implies events[i] is TimeoutFired by {
        if events[i] is MainTaskCompleted {
            assert(i == events.len() - 1);
        }
    }
}

/// The timeout branch never fires more often than a run has events.
proof fn lemma_timeout_count_le_len(events: Seq<RetryEvent>)
    ensures
        timeout_count(events) <= events.len(),
    decreases events.len(),
{
    if events.len() > 0 {
        lemma_timeout_count_le_len(events.drop_last());
    }
}

/// Bounded timeout signalling: across the whole life of one retry loop the
/// timeout branch fires at most `TIMEOUT_BUDGET` times, however long the
/// main task takes.
pub proof fn lemma_timeout_budget(events: Seq<RetryEvent>)
    requires
        valid_trace(events),
    ensures
        timeout_count(events) <= TIMEOUT_BUDGET,
    decreases events.len(),
{
    if events.len() == 0 {
    } else if events.len() <= TIMEOUT_BUDGET {
        lemma_timeout_count_le_len(events);
    } else {
        let head = events.drop_last();
        assert(valid_trace(head)) by {
            assert forall|i: int|
                0 <= i < head.len() implies {
                    &&& (head[i] is TimeoutFired ==> i + 1 <= TIMEOUT_BUDGET)
                    &&& (head[i] is MainTaskCompleted ==> i == head.len() - 1)
                } by {
                assert(head[i] == events[i]);
                if head[i] is MainTaskCompleted {
                    assert(i == events.len() - 1);
                }
            }
        }
        lemma_timeout_budget(head);
        assert(!(events.last() is TimeoutFired));
    }
}

/// The budget bound carried to the loop's state: however many iterations a
/// well-formed loop has run, its recorded timeouts number at most
/// `TIMEOUT_BUDGET`.
pub proof fn lemma_loop_timeouts_bounded(lp: RetryLoop)
    requires
        lp.wf(),
    ensures
        timeout_count(lp.history@) <= TIMEOUT_BUDGET,
{
    lemma_timeout_budget(lp.history@);
}

/// The loop terminates only through the main task: a terminated run ends
/// with `MainTaskCompleted`, and exhausting the timeout budget alone never
/// terminates a run.
pub proof fn lemma_terminates_only_via_main_task(events: Seq<RetryEvent>)
    requires
        valid_trace(events),
        terminated(events),
    ensures
        events.last() is MainTaskCompleted,
        forall|i: int| 0 <= i < events.len() - 1 ==> events[i] is TimeoutFired,
{
    assert forall|i: int| 0 <= i < events.len() - 1 implies events[i] is TimeoutFired by {
        if events[i] is MainTaskCompleted {
            assert(i == events.len() - 1);
        }
    }
}

} // verus!
