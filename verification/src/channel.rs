//! Signal Channel: a single-use, single-value handoff primitive that connects
//! exactly one producer to exactly one consumer.
//!
//! The model tracks the joint state of the pair of ends created together.
//! Sending consumes the producer end, receiving consumes the consumer end,
//! and either end may instead be dropped unused; at most one value ever flows
//! through the channel. A producer can observe that the consumer is gone and
//! abandon its work, which is how cooperative cancellation is expressed.

use vstd::prelude::*;

verus! {

/// Errors of the handoff primitive.
#[derive(Clone, Copy, PartialEq, Eq, Structural, Debug)]
pub enum ChannelError {
    /// A value was sent after the consumer end was dropped. Always non-fatal
    /// to the sender; the value is discarded.
    SendFailed,
    /// A receive resolved after the producer end was dropped without sending.
    ChannelClosed,
}

/// Joint state of one producer/consumer pair.
pub struct SignalChannel<V> {
    /// The producer end has neither sent nor been dropped.
    pub producer_alive: bool,
    /// The consumer end has neither received nor been dropped.
    pub consumer_alive: bool,
    /// The value sent but not yet received, if any.
    pub slot: Option<V>,
    /// A send has succeeded.
    pub sent: bool,
    /// A receive has yielded the value.
    pub delivered: bool,
}

/// One operation on a channel, for reasoning about whole histories.
pub enum ChannelOp<V> {
    /// The producer sends a value, consuming its end.
    Send(V),
    /// The producer end is dropped without sending.
    DropProducer,
    /// The consumer end is dropped without receiving.
    DropConsumer,
    /// The consumer awaits the value and the wait resolves.
    Receive,
}

impl<V> SignalChannel<V> {
    /// Channel invariant: each flag records an irreversible step, and a value
    /// sits in the slot exactly between a successful send and its receipt.
    pub open spec fn wf(self) -> bool {
        &&& self.sent ==> !self.producer_alive
        &&& self.delivered ==> !self.consumer_alive
        &&& self.delivered ==> self.sent
        &&& (self.slot is Some) <==> (self.sent && !self.delivered)
    }

    /// The state of a freshly created pair.
    pub open spec fn spec_init() -> SignalChannel<V> {
        SignalChannel {
            producer_alive: true,
            consumer_alive: true,
            slot: None,
            sent: false,
            delivered: false,
        }
    }

    /// Whether an operation can happen in this state: each end acts only
    /// while alive, and a receive resolves only once a value is present or
    /// the producer is gone (otherwise the consumer keeps waiting).
    pub open spec fn op_enabled(self, op: ChannelOp<V>) -> bool {
        match op {
            ChannelOp::Send(_) => self.producer_alive,
            ChannelOp::DropProducer => self.producer_alive,
            ChannelOp::DropConsumer => self.consumer_alive,
            ChannelOp::Receive => self.consumer_alive && (self.slot is Some
                || !self.producer_alive),
        }
    }

    /// The state after an operation.
    pub open spec fn spec_step(self, op: ChannelOp<V>) -> SignalChannel<V> {
        match op {
            ChannelOp::Send(v) => if self.consumer_alive {
                SignalChannel {
                    producer_alive: false,
                    consumer_alive: self.consumer_alive,
                    slot: Some(v),
                    sent: true,
                    delivered: self.delivered,
                }
            } else {
                SignalChannel {
                    producer_alive: false,
                    consumer_alive: self.consumer_alive,
                    slot: self.slot,
                    sent: self.sent,
                    delivered: self.delivered,
                }
            },
            ChannelOp::DropProducer => SignalChannel {
                producer_alive: false,
                consumer_alive: self.consumer_alive,
                slot: self.slot,
                sent: self.sent,
                delivered: self.delivered,
            },
            ChannelOp::DropConsumer => SignalChannel {
                producer_alive: self.producer_alive,
                consumer_alive: false,
                slot: self.slot,
                sent: self.sent,
                delivered: self.delivered,
            },
            ChannelOp::Receive => if self.slot is Some {
                SignalChannel {
                    producer_alive: self.producer_alive,
                    consumer_alive: false,
                    slot: None,
                    sent: self.sent,
                    delivered: true,
                }
            } else {
                SignalChannel {
                    producer_alive: self.producer_alive,
                    consumer_alive: false,
                    slot: self.slot,
                    sent: self.sent,
                    delivered: self.delivered,
                }
            },
        }
    }

    /// Create a channel: both ends alive, nothing sent, nothing delivered.
    pub fn new() -> (c: SignalChannel<V>)
        ensures
            c == Self::spec_init(),
            c.wf(),
    {
        SignalChannel {
            producer_alive: true,
            consumer_alive: true,
            slot: None,
            sent: false,
            delivered: false,
        }
    }

    /// Send a value, consuming the producer end. Succeeds exactly when the
    /// consumer end is still alive; otherwise the value is discarded and the
    /// failure is one callers tolerate silently.
    pub fn send(&mut self, v: V) -> (r: Result<(), ChannelError>)
        requires
            old(self).wf(),
            old(self).producer_alive,
        ensures
            final(self).wf(),
            *final(self) == old(self).spec_step(ChannelOp::Send(v)),
            (r is Ok <==> old(self).consumer_alive),
            r is Err ==> r == Err::<(), ChannelError>(ChannelError::SendFailed),
            old(self).consumer_alive ==> final(self).slot == Some(v) && final(self).sent,
            !old(self).consumer_alive ==> *final(self) == (SignalChannel {
                producer_alive: false,
                ..*old(self)
            }),
    {
        self.producer_alive = false;
        if self.consumer_alive {
            self.slot = Some(v);
            self.sent = true;
            Ok(())
        } else {
            Err(ChannelError::SendFailed)
        }
    }

    /// The producer's view of consumer disinterest: true once the consumer
    /// end is gone. Awaiting this as a race branch is how a producer stops
    /// working when nobody will read the result.
    pub fn consumer_gone(&self) -> (r: bool)
        ensures
            r == !self.consumer_alive,
    {
        !self.consumer_alive
    }

    /// Drop the producer end without sending.
    pub fn drop_producer(&mut self)
        requires
            old(self).wf(),
            old(self).producer_alive,
        ensures
            final(self).wf(),
            *final(self) == old(self).spec_step(ChannelOp::DropProducer),
            *final(self) == (SignalChannel { producer_alive: false, ..*old(self) }),
    {
        self.producer_alive = false;
    }

    /// Drop the consumer end without receiving. A value already in flight is
    /// lost: no receive can follow.
    pub fn drop_consumer(&mut self)
        requires
            old(self).wf(),
            old(self).consumer_alive,
        ensures
            final(self).wf(),
            *final(self) == old(self).spec_step(ChannelOp::DropConsumer),
            *final(self) == (SignalChannel { consumer_alive: false, ..*old(self) }),
    {
        self.consumer_alive = false;
    }

    /// The consumer's wait resolves, consuming the consumer end. It yields
    /// the value exactly when one was sent; if the producer end was dropped
    /// without sending, it fails with `ChannelClosed`.
    pub fn receive(&mut self) -> (r: Result<V, ChannelError>)
        requires
            old(self).wf(),
            old(self).op_enabled(ChannelOp::Receive),
        ensures
            final(self).wf(),
            *final(self) == old(self).spec_step(ChannelOp::Receive),
            (r is Ok <==> old(self).slot is Some),
            old(self).slot matches Some(v) ==> (r == Ok::<V, ChannelError>(v)
                && final(self).delivered),
            old(self).slot is None ==> r == Err::<V, ChannelError>(ChannelError::ChannelClosed)
                && !old(self).sent && final(self).delivered == old(self).delivered,
    {
        self.consumer_alive = false;
        let taken = self.slot.take();
        match taken {
            Some(v) => {
                self.delivered = true;
                Ok(v)
            },
            None => Err(ChannelError::ChannelClosed),
        }
    }
}

/// Whether a whole sequence of operations can happen from a given state.
pub open spec fn valid_ops<V>(s: SignalChannel<V>, ops: Seq<ChannelOp<V>>) -> bool
    decreases ops.len(),
{
    ops.len() == 0 || (s.op_enabled(ops[0]) && valid_ops(s.spec_step(ops[0]), ops.drop_first()))
}

/// The values the consumer's receives yield over a sequence of operations.
pub open spec fn deliveries<V>(s: SignalChannel<V>, ops: Seq<ChannelOp<V>>) -> Seq<V>
    decreases ops.len(),
{
    if ops.len() == 0 {
        Seq::empty()
    } else {
        let rest = deliveries(s.spec_step(ops[0]), ops.drop_first());
        if ops[0] is Receive && s.slot is Some {
            seq![s.slot->0] + rest
        } else {
            rest
        }
    }
}

/// The values the producer's sends carry over a sequence of operations.
pub open spec fn sends<V>(ops: Seq<ChannelOp<V>>) -> Seq<V>
    decreases ops.len(),
{
    if ops.len() == 0 {
        Seq::empty()
    } else {
        let rest = sends(ops.drop_first());
        match ops[0] {
            ChannelOp::Send(v) => seq![v] + rest,
            _ => rest,
        }
    }
}

/// Receiving consumes the consumer end, so from any state at most one
/// receive over a whole history can yield a value — and none at all once the
/// consumer end is gone.
proof fn lemma_deliveries_need_consumer<V>(s: SignalChannel<V>, ops: Seq<ChannelOp<V>>)
    requires
        valid_ops(s, ops),
    ensures
        deliveries(s, ops).len() <= if s.consumer_alive {
            1nat
        } else {
            0nat
        },
    decreases ops.len(),
{
    if ops.len() > 0 {
        lemma_deliveries_need_consumer(s.spec_step(ops[0]), ops.drop_first());
    }
}

/// Every value a receive yields was carried by the slot at the start or by
/// some send in the history.
proof fn lemma_delivered_from_slot_or_send<V>(s: SignalChannel<V>, ops: Seq<ChannelOp<V>>)
    requires
        valid_ops(s, ops),
    ensures
        forall|i: int|
            0 <= i < deliveries(s, ops).len() ==> (s.slot matches Some(v) && deliveries(s, ops)[i]
                == v) || sends(ops).contains(#[trigger] deliveries(s, ops)[i]),
    decreases ops.len(),
{
    if ops.len() > 0 {
        let s1 = s.spec_step(ops[0]);
        let rest = ops.drop_first();
        lemma_delivered_from_slot_or_send(s1, rest);
        assert forall|i: int|
            0 <= i < deliveries(s, ops).len() implies (s.slot matches Some(v) && deliveries(
            s,
            ops,
        )[i] == v) || sends(ops).contains(#[trigger] deliveries(s, ops)[i]) by {
            let d = deliveries(s, ops);
            let dr = deliveries(s1, rest);
            if ops[0] is Receive && s.slot is Some {
                if i > 0 {
                    assert(d[i] == dr[i - 1]);
                    lemma_slot_or_send_case(s, s1, ops, rest, dr[i - 1]);
                }
            } else {
                assert(d[i] == dr[i]);
                lemma_slot_or_send_case(s, s1, ops, rest, dr[i]);
            }
        }
    }
}

/// Step case of the provenance argument: a value that, after one operation,
/// is either in the slot or among the later sends was, before the operation,
/// either in the slot or among all the sends.
proof fn lemma_slot_or_send_case<V>(
    s: SignalChannel<V>,
    s1: SignalChannel<V>,
    ops: Seq<ChannelOp<V>>,
    rest: Seq<ChannelOp<V>>,
    x: V,
)
    requires
        ops.len() > 0,
        s1 == s.spec_step(ops[0]),
        rest == ops.drop_first(),
        (s1.slot matches Some(v) && x == v) || sends(rest).contains(x),
    ensures
        (s.slot matches Some(v) && x == v) || sends(ops).contains(x),
{
    if s1.slot matches Some(v) && x == v {
        match ops[0] {
            ChannelOp::Send(w) => {
                if s.consumer_alive {
                    assert(sends(ops)[0] == w);
                    assert(sends(ops).contains(x));
                } else {
                    assert(s.slot == s1.slot);
                }
            },
            _ => {
                assert(s.slot == s1.slot);
            },
        }
    } else {
        let j = choose|j: int| 0 <= j < sends(rest).len() && sends(rest)[j] == x;
        match ops[0] {
            ChannelOp::Send(w) => {
                assert(sends(ops) == seq![w] + sends(rest));
                assert(sends(ops)[j + 1] == x);
            },
            _ => {
                assert(sends(ops) == sends(rest));
            },
        }
        assert(sends(ops).contains(x));
    }
}

/// At-most-once delivery: over any possible history of a freshly created
/// channel, the consumer receives at most one value, and a received value is
/// one the paired producer sent.
pub proof fn lemma_at_most_once_delivery<V>(ops: Seq<ChannelOp<V>>)
    requires
        valid_ops(SignalChannel::<V>::spec_init(), ops),
    ensures
        deliveries(SignalChannel::<V>::spec_init(), ops).len() <= 1,
        forall|i: int|
            0 <= i < deliveries(SignalChannel::<V>::spec_init(), ops).len() ==> sends(
                ops,
            ).contains(#[trigger] deliveries(SignalChannel::<V>::spec_init(), ops)[i]),
{
    let s = SignalChannel::<V>::spec_init();
    lemma_deliveries_need_consumer(s, ops);
    lemma_delivered_from_slot_or_send(s, ops);
}

} // verus!
