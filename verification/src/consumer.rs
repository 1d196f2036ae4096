//! The trace consumer: it takes events out of the channel, oldest first, and
//! turns each into the record that is logged for it.
//!
//! Writing a record may take long, so the consumer only decides here what is
//! written. Whoever runs it does the writing and the waiting.

use crate::channel::{ChannelState, EventChannel, Received};
use crate::event::{records_of, TraceRecord};
use vstd::prelude::*;

verus! {

/// What the consumer does next.
#[derive(Clone, Copy, Debug, PartialEq, Eq, Structural)]
pub enum ConsumerStep {
    /// Write this record, then come back for the next event.
    Emit(TraceRecord),
    /// Nothing is queued: wait until a producer has sent something.
    Wait,
    /// The channel is closed and empty: the consumer is done, for good.
    Stop,
}

/// The step that follows from what a receive found.
pub open spec fn step_for(received: Received) -> ConsumerStep {
    match received {
        Received::Event(event) => ConsumerStep::Emit(event.spec_record()),
        Received::Empty => ConsumerStep::Wait,
        Received::Closed => ConsumerStep::Stop,
    }
}

/// One turn of the consumer's loop: takes the oldest event out of the channel
/// and says which record to write for it, or that there is nothing to write
/// now, or that there never will be again.
pub fn next_step(channel: &mut EventChannel) -> (step: ConsumerStep)
    ensures
        step == step_for(old(channel)@.head()),
        final(channel)@ == old(channel)@.after_receive(),
        final(channel)@.bounded(),
{
    match channel.receive() {
        Received::Event(event) => ConsumerStep::Emit(event.record()),
        Received::Empty => ConsumerStep::Wait,
        Received::Closed => ConsumerStep::Stop,
    }
}

/// Runs the consumer until the channel is empty: returns the records of all
/// queued events, one for each and in the order in which they were sent.
pub fn drain(channel: &mut EventChannel) -> (records: Vec<TraceRecord>)
    ensures
        records@ == records_of(old(channel)@.pending),
        final(channel)@ == old(channel)@.drained(),
        final(channel)@.bounded(),
{
    let ghost start: ChannelState = channel@;
    let mut records: Vec<TraceRecord> = Vec::new();
    loop
        invariant
            records@.len() <= start.pending.len(),
            records@ == records_of(start.pending.take(records@.len() as int)),
            channel@ == (ChannelState {
                pending: start.pending.skip(records@.len() as int),
                ..start
            }),
        ensures
            records@ == records_of(start.pending),
            channel@ == start.drained(),
            channel@.bounded(),
        decreases start.pending.len() - records@.len(),
    {
        match next_step(channel) {
            ConsumerStep::Emit(record) => {
                records.push(record);
            },
            _ => {
                break ;
            },
        }
    }
    records
}

} // verus!
