//! Background Task Runner: runs a leaf operation concurrently with the
//! coordinator and forwards its outcome through a signal channel, racing the
//! operation against the discovery that the consumer end is gone. Whichever
//! branch completes first decides whether a result is sent at all: this is
//! how "stop working when nobody will read the result" is expressed.

use vstd::prelude::*;
use crate::channel::{ChannelOp, SignalChannel};
use crate::race;
use crate::race::RaceOutcome;

verus! {

/// Index of the branch that awaits the leaf operation.
pub const RUNNER_LEAF_BRANCH: usize = 0;

/// Index of the branch that awaits the consumer end's disappearance.
pub const RUNNER_CANCEL_BRANCH: usize = 1;

/// What completed first inside a runner's race.
pub enum RunnerEvent<V> {
    /// The leaf operation finished with its result.
    LeafCompleted(V),
    /// The paired consumer end was dropped; nobody will read a result.
    ConsumerGone,
}

/// Both of the runner's branches are unguarded.
pub open spec fn runner_guards() -> Seq<bool> {
    seq![true, true]
}

/// Which of the runner's branches have completed, leaf branch first.
pub open spec fn runner_completed(leaf_done: bool, consumer_gone: bool) -> Seq<bool> {
    seq![leaf_done, consumer_gone]
}

/// A runner attempts a send exactly when the leaf branch won its race.
pub open spec fn runner_sends(outcome: RaceOutcome) -> bool {
    outcome.winner == RUNNER_LEAF_BRANCH
}

/// Execute the winning branch of a runner's race against the runner's
/// channel: forward the leaf's result (tolerating a failed send), or abandon
/// without sending when the consumer is gone. Either way the producer end is
/// used up. Returns whether a value was actually handed over.
pub fn perform_runner_event<V>(chan: &mut SignalChannel<V>, event: RunnerEvent<V>) -> (sent: bool)
    requires
        old(chan).wf(),
        old(chan).producer_alive,
    ensures
        final(chan).wf(),
        !final(chan).producer_alive,
        (event matches RunnerEvent::LeafCompleted(v) ==> {
            &&& *final(chan) == old(chan).spec_step(ChannelOp::Send(v))
            &&& sent == old(chan).consumer_alive
        }),
        event is ConsumerGone ==> (*final(chan) == old(chan).spec_step(ChannelOp::DropProducer)
            && !sent && final(chan).sent == old(chan).sent),
{
    match event {
        RunnerEvent::LeafCompleted(v) => {
            let r = chan.send(v);
            r.is_ok()
        },
        RunnerEvent::ConsumerGone => {
            chan.drop_producer();
            false
        },
    }
}

/// A runner whose consumer end is dropped before its leaf operation
/// completes resolves its race through the cancellation branch, so no send
/// is attempted for that run.
pub proof fn lemma_cancelled_runner_never_sends(outcome: RaceOutcome)
    requires
        race::valid_outcome(runner_guards(), runner_completed(false, true), outcome),
    ensures
        outcome.winner == RUNNER_CANCEL_BRANCH,
        !runner_sends(outcome),
{
    assert(!runner_completed(false, true)[RUNNER_LEAF_BRANCH as int]);
}

} // verus!
