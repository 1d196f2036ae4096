//! The allocator interposer: what happens on each call of the allocator.
//!
//! Each call becomes one event and one attempt to queue it. Nothing here waits
//! and nothing is reported back to the allocator: when the channel has no room,
//! the event is lost and the traced program goes on as before.

use crate::channel::EventChannel;
use crate::event::AllocationEvent;
use vstd::prelude::*;

verus! {

/// Reports that `size` bytes were allocated at `addr`.
///
/// The event joins the end of the channel if a slot is free. If none is, the
/// event is dropped and the channel stays as it was.
pub fn on_allocate(channel: &mut EventChannel, addr: usize, size: usize)
    ensures
        final(channel)@ == old(channel)@.send(AllocationEvent::Allocated { addr, size }),
        final(channel)@.bounded(),
{
    let _ = channel.try_send(AllocationEvent::Allocated { addr, size });
}

/// Reports that the region at `addr` was released.
///
/// The event joins the end of the channel if a slot is free. If none is, the
/// event is dropped and the channel stays as it was.
pub fn on_deallocate(channel: &mut EventChannel, addr: usize)
    ensures
        final(channel)@ == old(channel)@.send(AllocationEvent::Deallocated { addr }),
        final(channel)@.bounded(),
{
    let _ = channel.try_send(AllocationEvent::Deallocated { addr });
}

} // verus!
