//! The event channel: a bounded first-in, first-out queue between the
//! interposer and the consumer. A send never waits: when the channel is full,
//! the event is refused and the channel stays as it was.

use crate::event::AllocationEvent;
use std::collections::VecDeque;
use vstd::prelude::*;

verus! {

/// The number of events the tracing channel holds: large enough to take a
/// burst of allocations, and still a bound on the memory that tracing uses.
pub const CHANNEL_CAPACITY: usize = 10000;

/// The largest capacity a channel can be made with. The room for all events is
/// allocated when the channel is made, and that one allocation has to fit the
/// address space.
pub const MAX_CAPACITY: usize = 16777216;

/// What a channel is, as a mathematical value: the events waiting in it, oldest
/// first, the number of events it has room for, and whether a producer is left.
#[verifier::ext_equal]
pub struct ChannelState {
    pub pending: Seq<AllocationEvent>,
    pub capacity: nat,
    pub open: bool,
}

impl ChannelState {
    /// An open, empty channel with room for `capacity` events.
    pub open spec fn fresh(capacity: nat) -> ChannelState {
        ChannelState { pending: Seq::empty(), capacity, open: true }
    }

    /// A channel never holds more events than it has room for.
    pub open spec fn bounded(self) -> bool {
        self.pending.len() <= self.capacity
    }

    /// Whether a send is taken: a producer is left and a slot is free.
    pub open spec fn accepts(self) -> bool {
        self.open && self.pending.len() < self.capacity
    }

    /// The channel after one send: the event joins the end of the queue where
    /// the send is taken, and nothing changes where it is not.
    pub open spec fn send(self, event: AllocationEvent) -> ChannelState {
        if self.accepts() {
            ChannelState { pending: self.pending.push(event), ..self }
        } else {
            self
        }
    }

    /// The channel after the sends of `events`, one after the other.
    pub open spec fn send_all(self, events: Seq<AllocationEvent>) -> ChannelState
        decreases events.len(),
    {
        if events.len() == 0 {
            self
        } else {
            self.send_all(events.drop_last()).send(events.last())
        }
    }

    /// The number of free slots.
    pub open spec fn room(self) -> nat {
        if self.pending.len() <= self.capacity {
            (self.capacity - self.pending.len()) as nat
        } else {
            0
        }
    }

    /// How many of `count` sends in a row are taken: all of them while there
    /// is room and a producer, and none after that.
    pub open spec fn taken(self, count: nat) -> nat {
        if !self.open {
            0
        } else if count <= self.room() {
            count
        } else {
            self.room()
        }
    }

    /// What the next receive hands out.
    pub open spec fn head(self) -> Received {
        if self.pending.len() > 0 {
            Received::Event(self.pending[0])
        } else if self.open {
            Received::Empty
        } else {
            Received::Closed
        }
    }

    /// The channel after one receive: the oldest event is gone, if there was one.
    pub open spec fn after_receive(self) -> ChannelState {
        if self.pending.len() > 0 {
            ChannelState { pending: self.pending.drop_first(), ..self }
        } else {
            self
        }
    }

    /// The channel after its last producer has gone. What is queued stays.
    pub open spec fn closed(self) -> ChannelState {
        ChannelState { open: false, ..self }
    }

    /// The channel with nothing left in it.
    pub open spec fn drained(self) -> ChannelState {
        ChannelState { pending: Seq::empty(), ..self }
    }
}

/// What a receive found.
#[derive(Clone, Copy, Debug, PartialEq, Eq, Structural)]
pub enum Received {
    /// The oldest event in the channel, now removed from it.
    Event(AllocationEvent),
    /// Nothing is queued, but a producer is left: this is where a consumer waits.
    Empty,
    /// Nothing is queued and no producer is left: nothing will ever arrive.
    Closed,
}

/// A bounded queue of allocation events.
pub struct EventChannel {
    queue: VecDeque<AllocationEvent>,
    capacity: usize,
    open: bool,
}

impl View for EventChannel {
    type V = ChannelState;

    closed spec fn view(&self) -> ChannelState {
        ChannelState { pending: self.queue@, capacity: self.capacity as nat, open: self.open }
    }
}

impl EventChannel {
    #[verifier::type_invariant]
    spec fn within_capacity(self) -> bool {
        self.queue@.len() <= self.capacity
    }

    /// An open, empty channel with room for `capacity` events. All the room is
    /// set aside here, so that a later send has none to ask for.
    pub fn new(capacity: usize) -> (channel: EventChannel)
        requires
            capacity <= MAX_CAPACITY,
        ensures
            channel@ == ChannelState::fresh(capacity as nat),
    {
        EventChannel { queue: VecDeque::with_capacity(capacity), capacity, open: true }
    }

    /// The number of events the channel has room for.
    pub fn capacity(&self) -> (capacity: usize)
        ensures
            capacity == self@.capacity,
    {
        self.capacity
    }

    /// The number of events waiting in the channel. It never exceeds the
    /// capacity.
    pub fn len(&self) -> (len: usize)
        ensures
            len == self@.pending.len(),
            len <= self@.capacity,
    {
        proof {
            use_type_invariant(self);
        }
        self.queue.len()
    }

    /// Whether nothing is waiting in the channel.
    pub fn is_empty(&self) -> (empty: bool)
        ensures
            empty == (self@.pending.len() == 0),
    {
        self.queue.len() == 0
    }

    /// Whether the last producer has gone.
    pub fn is_closed(&self) -> (closed: bool)
        ensures
            closed == !self@.open,
    {
        !self.open
    }

    /// Offers an event to the channel without waiting. Returns whether it was
    /// queued; where it was not, it is dropped and the channel is unchanged.
    pub fn try_send(&mut self, event: AllocationEvent) -> (queued: bool)
        ensures
            queued == old(self)@.accepts(),
            final(self)@ == old(self)@.send(event),
            final(self)@.bounded(),
    {
        proof {
            use_type_invariant(&*self);
        }
        if self.open && self.queue.len() < self.capacity {
            // The queue is worked on outside the channel, so that the channel
            // is within its capacity at every moment.
            let mut queue = VecDeque::new();
            std::mem::swap(&mut queue, &mut self.queue);
            queue.push_back(event);
            self.queue = queue;
            true
        } else {
            false
        }
    }

    /// Takes the oldest event out of the channel, if there is one, and says
    /// otherwise whether one may still come.
    pub fn receive(&mut self) -> (received: Received)
        ensures
            received == old(self)@.head(),
            final(self)@ == old(self)@.after_receive(),
            final(self)@.bounded(),
    {
        proof {
            use_type_invariant(&*self);
        }
        let mut queue = VecDeque::new();
        std::mem::swap(&mut queue, &mut self.queue);
        let oldest = queue.pop_front();
        self.queue = queue;
        match oldest {
            Some(event) => Received::Event(event),
            None => if self.open {
                Received::Empty
            } else {
                Received::Closed
            },
        }
    }

    /// Records that the last producer has gone: later sends are refused, and a
    /// receive reports the closure once the queue has run empty.
    pub fn close(&mut self)
        ensures
            final(self)@ == old(self)@.closed(),
            final(self)@.bounded(),
    {
        proof {
            use_type_invariant(&*self);
        }
        self.open = false;
    }
}

/// A run of sends takes the events in the order of the calls until the channel
/// is full, and refuses every one after that: what is queued in the end is what
/// was queued before, followed by the first `taken` events of the run.
pub proof fn lemma_send_all(state: ChannelState, events: Seq<AllocationEvent>)
    requires
        state.bounded(),
    ensures
        state.send_all(events).pending == state.pending + events.take(
            state.taken(events.len()) as int,
        ),
        state.send_all(events).capacity == state.capacity,
        state.send_all(events).open == state.open,
        state.send_all(events).bounded(),
    decreases events.len(),
{
    if events.len() > 0 {
        lemma_send_all(state, events.drop_last());
    }
}

/// A channel that is full or closed stays as it is, whatever is sent.
pub proof fn lemma_send_all_refused(state: ChannelState, events: Seq<AllocationEvent>)
    requires
        state.bounded(),
        !state.accepts(),
    ensures
        state.send_all(events) == state,
{
    lemma_send_all(state, events);
}

/// The channel after `count` receives in a row.
pub open spec fn receive_n(state: ChannelState, count: nat) -> ChannelState
    decreases count,
{
    if count == 0 {
        state
    } else {
        receive_n(state, (count - 1) as nat).after_receive()
    }
}

/// First in, first out. After `count` receives, with `count` no more than what
/// was queued, the channel holds the events from position `count` on, and the
/// next receive hands out the one at position `count`. When all are out, it
/// reports that the channel is empty, or closed where no producer is left.
pub proof fn lemma_receive_n(state: ChannelState, count: nat)
    requires
        count <= state.pending.len(),
    ensures
        receive_n(state, count).pending == state.pending.skip(count as int),
        receive_n(state, count).capacity == state.capacity,
        receive_n(state, count).open == state.open,
        count < state.pending.len() ==> receive_n(state, count).head() == Received::Event(
            state.pending[count as int],
        ),
        count == state.pending.len() ==> receive_n(state, count).head() == (if state.open {
            Received::Empty
        } else {
            Received::Closed
        }),
    decreases count,
{
    if count > 0 {
        lemma_receive_n(state, (count - 1) as nat);
    }
}

} // verus!
