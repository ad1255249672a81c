//! Coordinator: the fixed top-level sequencing. It launches two background
//! pipelines, joins a parallel pair of leaf operations, waits in a four-way
//! race for the first signal — a never-completing periodic ticker, an
//! external interrupt, or either pipeline's result — and then drives the
//! bounded retry loop to its terminal state.

use vstd::prelude::*;
use crate::leaf::JoinOutcome;
use crate::race;
use crate::race::RaceOutcome;

verus! {

/// Delay of the quicker leaf operation in the joined pair, in time units.
pub const FIRST_LEAF_DELAY: u64 = 3;

/// Delay of the slower leaf operation in the joined pair, in time units.
pub const SECOND_LEAF_DELAY: u64 = 5;

/// Delay before the first background pipeline's leaf operation completes.
pub const SLOW_IO_DELAY: u64 = 8;

/// Delay before the farewell pipeline sends its message.
pub const FAREWELL_DELAY: u64 = 20;

/// Period of the "still waiting" ticker.
pub const TICK_INTERVAL: u64 = 1;

/// Index of the top-level race's ticker branch.
pub const TICKER_BRANCH: usize = 0;

/// Index of the top-level race's external-interrupt branch.
pub const INTERRUPT_BRANCH: usize = 1;

/// Index of the branch receiving the first pipeline's result.
pub const PIPELINE_A_BRANCH: usize = 2;

/// Index of the branch receiving the second pipeline's result.
pub const PIPELINE_B_BRANCH: usize = 3;

/// Where the coordinator stands in its fixed sequence.
#[derive(Clone, Copy, PartialEq, Eq, Structural, Debug)]
pub enum Phase {
    /// Nothing started yet.
    Starting,
    /// Both background pipelines are running.
    BackgroundLaunched,
    /// The parallel pair has been joined; both results are in hand.
    PairJoined,
    /// The top-level race has resolved; next comes the retry loop.
    Signalled,
    /// The retry loop reached its terminal state; the run is over.
    Finished,
}

/// What resolved the top-level race. The ticker has no variant here: it
/// never completes, so it never resolves the race.
pub enum TopLevelSignal {
    /// The external interrupt arrived.
    Interrupt,
    /// The first pipeline's result came through its channel.
    PipelineA(String),
    /// The second pipeline's result came through its channel.
    PipelineB(String),
}

/// All four top-level branches are unguarded.
pub open spec fn top_level_guards() -> Seq<bool> {
    seq![true, true, true, true]
}

/// Which top-level branches have completed. The ticker loops forever and
/// never completes, so its entry is fixed false.
pub open spec fn top_level_completed(interrupt: bool, pipe_a: bool, pipe_b: bool) -> Seq<bool> {
    seq![false, interrupt, pipe_a, pipe_b]
}

/// The branch a signal arrives on.
pub open spec fn signal_branch(sig: TopLevelSignal) -> int {
    match sig {
        TopLevelSignal::Interrupt => INTERRUPT_BRANCH as int,
        TopLevelSignal::PipelineA(_) => PIPELINE_A_BRANCH as int,
        TopLevelSignal::PipelineB(_) => PIPELINE_B_BRANCH as int,
    }
}

/// The coordinator's state.
pub struct Coordinator {
    /// Where the fixed sequence stands.
    pub phase: Phase,
    /// The joined pair's results, once the join has returned.
    pub join_result: Option<JoinOutcome>,
    /// What resolved the top-level race, once it has.
    pub resolved: Option<TopLevelSignal>,
}

impl Coordinator {
    /// Sequencing invariant: results exist exactly from the phase that
    /// produces them onward.
    pub open spec fn wf(self) -> bool {
        &&& (self.join_result is Some <==> (self.phase is PairJoined || self.phase is Signalled
            || self.phase is Finished))
        &&& (self.resolved is Some <==> (self.phase is Signalled || self.phase is Finished))
    }

    /// A coordinator that has done nothing yet.
    pub fn new() -> (c: Coordinator)
        ensures
            c.wf(),
            c.phase is Starting,
            c.join_result is None,
            c.resolved is None,
    {
        Coordinator { phase: Phase::Starting, join_result: None, resolved: None }
    }

    /// Step 1: both background pipelines are launched, each owning the
    /// producer end of its own signal channel.
    pub fn launch_background(&mut self)
        requires
            old(self).wf(),
            old(self).phase is Starting,
        ensures
            final(self).wf(),
            final(self).phase is BackgroundLaunched,
            final(self).join_result is None,
            final(self).resolved is None,
    {
        self.phase = Phase::BackgroundLaunched;
    }

    /// Step 2: the parallel pair of leaf operations has been joined — both
    /// results retained, the call having returned only after the slower one.
    pub fn record_join(&mut self, outcome: JoinOutcome)
        requires
            old(self).wf(),
            old(self).phase is BackgroundLaunched,
        ensures
            final(self).wf(),
            final(self).phase is PairJoined,
            final(self).join_result == Some(outcome),
            final(self).resolved is None,
    {
        self.join_result = Some(outcome);
        self.phase = Phase::PairJoined;
    }

    /// Step 3: the top-level race resolved with the given signal; the
    /// remaining branches are abandoned and the retry loop comes next.
    pub fn resolve_signal(&mut self, sig: TopLevelSignal)
        requires
            old(self).wf(),
            old(self).phase is PairJoined,
        ensures
            final(self).wf(),
            final(self).phase is Signalled,
            final(self).resolved == Some(sig),
            final(self).join_result == old(self).join_result,
    {
        self.resolved = Some(sig);
        self.phase = Phase::Signalled;
    }

    /// Step 4 done: the retry loop reached its terminal state; the run exits.
    pub fn finish(&mut self)
        requires
            old(self).wf(),
            old(self).phase is Signalled,
        ensures
            final(self).wf(),
            final(self).phase is Finished,
            final(self).resolved == old(self).resolved,
            final(self).join_result == old(self).join_result,
    {
        self.phase = Phase::Finished;
    }
}

/// The ticker branch never completes, so it never resolves the top-level
/// race, however many ticks it prints while the race runs.
pub proof fn lemma_ticker_never_resolves(
    interrupt: bool,
    pipe_a: bool,
    pipe_b: bool,
    outcome: RaceOutcome,
)
    requires
        race::valid_outcome(
            top_level_guards(),
            top_level_completed(interrupt, pipe_a, pipe_b),
            outcome,
        ),
    ensures
        outcome.winner != TICKER_BRANCH,
{
    assert(!top_level_completed(interrupt, pipe_a, pipe_b)[TICKER_BRANCH as int]);
}

/// An external interrupt issued before either pipeline has produced a result
/// resolves the top-level race through the interrupt branch: the run
/// proceeds directly to the retry loop without waiting for the pipelines.
pub proof fn lemma_immediate_interrupt(outcome: RaceOutcome)
    requires
        race::valid_outcome(top_level_guards(), top_level_completed(true, false, false), outcome),
    ensures
        outcome.winner == INTERRUPT_BRANCH,
{
    assert(top_level_completed(true, false, false)[INTERRUPT_BRANCH as int]);
}

} // verus!
