//! What the channel delivers, over whole histories of sends and receives.
//!
//! Producers and the consumer take turns at the channel in some order. A
//! history is that order: the sends of all producers, each with its event, and
//! the receives of the consumer in between. What is stated here holds of every
//! history, and so of every way in which the calls of several producers and of
//! the consumer can fall together.

use crate::channel::{lemma_send_all, ChannelState, Received};
use crate::event::{records_of, AllocationEvent};
use vstd::prelude::*;

verus! {

/// One turn at the channel.
pub enum ChannelOp {
    /// A producer offers an event.
    Send(AllocationEvent),
    /// The consumer asks for the oldest event.
    Receive,
}

/// Where a history has led: the channel as it is now, the events the consumer
/// has received so far, oldest first, and the number of sends that were
/// refused.
#[verifier::ext_equal]
pub struct Delivery {
    pub state: ChannelState,
    pub observed: Seq<AllocationEvent>,
    pub dropped: nat,
}

impl Delivery {
    /// Before the first turn: nothing observed, nothing dropped.
    pub open spec fn begin(state: ChannelState) -> Delivery {
        Delivery { state, observed: Seq::empty(), dropped: 0 }
    }

    /// The events that the channel has taken, in the order in which it took
    /// them: those the consumer has received, followed by those that wait for
    /// it. This is what the consumer has seen once it has emptied the channel.
    pub open spec fn delivered(self) -> Seq<AllocationEvent> {
        self.observed + self.state.pending
    }

    /// One more turn.
    pub open spec fn step(self, op: ChannelOp) -> Delivery {
        match op {
            ChannelOp::Send(event) => Delivery {
                state: self.state.send(event),
                observed: self.observed,
                dropped: if self.state.accepts() {
                    self.dropped
                } else {
                    self.dropped + 1
                },
            },
            ChannelOp::Receive => Delivery {
                state: self.state.after_receive(),
                observed: match self.state.head() {
                    Received::Event(event) => self.observed.push(event),
                    _ => self.observed,
                },
                dropped: self.dropped,
            },
        }
    }
}

/// Where the history `ops` leads from the channel `state`.
pub open spec fn replay(state: ChannelState, ops: Seq<ChannelOp>) -> Delivery
    decreases ops.len(),
{
    if ops.len() == 0 {
        Delivery::begin(state)
    } else {
        replay(state, ops.drop_last()).step(ops.last())
    }
}

/// The events of the sends of a history, in the order of the calls.
pub open spec fn sent(ops: Seq<ChannelOp>) -> Seq<AllocationEvent>
    decreases ops.len(),
{
    if ops.len() == 0 {
        Seq::empty()
    } else {
        match ops.last() {
            ChannelOp::Send(event) => sent(ops.drop_last()).push(event),
            ChannelOp::Receive => sent(ops.drop_last()),
        }
    }
}

/// A receive changes neither what was delivered nor its order. It moves the
/// oldest waiting event over to the consumer, and on an empty channel it does
/// nothing.
pub proof fn lemma_receive_keeps_delivered(before: Delivery)
    ensures
        before.step(ChannelOp::Receive).delivered() == before.delivered(),
        before.step(ChannelOp::Receive).dropped == before.dropped,
        before.state.pending.len() > 0 ==> before.step(ChannelOp::Receive).observed
            == before.observed.push(before.state.pending[0]),
        before.state.pending.len() == 0 ==> before.step(ChannelOp::Receive) == before,
{
}

/// Every send is accounted for. After any history the channel is within its
/// capacity, and each event that was sent, or was queued at the start, was
/// either delivered or dropped: the two counts add up to the number of events.
pub proof fn lemma_every_send_accounted(state: ChannelState, ops: Seq<ChannelOp>)
    requires
        state.bounded(),
    ensures
        replay(state, ops).state.bounded(),
        replay(state, ops).state.capacity == state.capacity,
        replay(state, ops).state.open == state.open,
        replay(state, ops).delivered().len() + replay(state, ops).dropped == state.pending.len()
            + sent(ops).len(),
    decreases ops.len(),
{
    if ops.len() > 0 {
        lemma_every_send_accounted(state, ops.drop_last());
    }
}

/// Nothing is lost while there is room. If the channel is open and has a free
/// slot for every event that is sent, no send is refused, and what is delivered
/// is what was queued at the start followed by what was sent, in the order of
/// the calls, wherever the receives fall between them. The calls of any one
/// producer are thus delivered in that producer's own order.
pub proof fn lemma_nothing_lost_within_capacity(state: ChannelState, ops: Seq<ChannelOp>)
    requires
        state.open,
        state.pending.len() + sent(ops).len() <= state.capacity,
    ensures
        replay(state, ops).dropped == 0,
        replay(state, ops).delivered() == state.pending + sent(ops),
    decreases ops.len(),
{
    if ops.len() > 0 {
        let earlier = ops.drop_last();
        lemma_nothing_lost_within_capacity(state, earlier);
        lemma_every_send_accounted(state, earlier);
        let before = replay(state, earlier);
        match ops.last() {
            ChannelOp::Send(event) => {
                assert((state.pending + sent(earlier)).push(event) == state.pending + sent(
                    earlier,
                ).push(event));
            },
            ChannelOp::Receive => {
                lemma_receive_keeps_delivered(before);
            },
        }
    }
}

/// Every call is observed when a new channel has room for all of them: the
/// consumer gets exactly one record for each call, with the address and size of
/// that call, in the order of the calls.
pub proof fn lemma_all_calls_observed(capacity: nat, ops: Seq<ChannelOp>)
    requires
        sent(ops).len() <= capacity,
    ensures
        replay(ChannelState::fresh(capacity), ops).delivered() == sent(ops),
        records_of(replay(ChannelState::fresh(capacity), ops).delivered()).len() == sent(
            ops,
        ).len(),
        forall|i: int|
            0 <= i < sent(ops).len() ==> #[trigger] records_of(
                replay(ChannelState::fresh(capacity), ops).delivered(),
            )[i] == sent(ops)[i].spec_record(),
{
    lemma_nothing_lost_within_capacity(ChannelState::fresh(capacity), ops);
}

/// With no consumer at work, a new channel keeps the first `capacity` events
/// and drops every one that comes after: at most `capacity` events are ever
/// there to be observed, however many are sent.
pub proof fn lemma_overflow_is_dropped(capacity: nat, events: Seq<AllocationEvent>)
    ensures
        ChannelState::fresh(capacity).send_all(events).pending.len() <= capacity,
        events.len() <= capacity ==> ChannelState::fresh(capacity).send_all(events).pending
            == events,
        events.len() > capacity ==> ChannelState::fresh(capacity).send_all(events).pending
            == events.take(capacity as int),
{
    lemma_send_all(ChannelState::fresh(capacity), events);
}

} // verus!
