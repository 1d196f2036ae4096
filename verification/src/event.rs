//! Allocation events and the trace records they are reported as.

use vstd::prelude::*;

verus! {

/// One call of the allocator, as seen by the interposer.
///
/// `addr` identifies a memory region so that an allocation can be matched with
/// its release. It is never dereferenced: the memory may be gone by the time
/// the event is read.
#[derive(Clone, Copy, Debug, PartialEq, Eq, Structural)]
pub enum AllocationEvent {
    /// `size` bytes were allocated at `addr`.
    Allocated { addr: usize, size: usize },
    /// The region at `addr` was released.
    Deallocated { addr: usize },
}

/// Which of the two kinds of record a trace record is.
#[derive(Clone, Copy, Debug, PartialEq, Eq, Structural)]
pub enum RecordKind {
    Alloc,
    Dealloc,
}

/// A structured trace record: a kind, the address, and the size where the kind
/// has one.
#[derive(Clone, Copy, Debug, PartialEq, Eq, Structural)]
pub struct TraceRecord {
    pub kind: RecordKind,
    pub addr: usize,
    pub size: Option<usize>,
}

impl RecordKind {
    /// The tag under which records of this kind are logged.
    pub open spec fn spec_label(self) -> Seq<char> {
        match self {
            RecordKind::Alloc => "alloc"@,
            RecordKind::Dealloc => "dealloc"@,
        }
    }

    /// The tag under which records of this kind are logged: `alloc` or
    /// `dealloc`.
    pub fn label(self) -> (tag: &'static str)
        ensures
            tag@ == self.spec_label(),
    {
        match self {
            RecordKind::Alloc => "alloc",
            RecordKind::Dealloc => "dealloc",
        }
    }
}

impl AllocationEvent {
    /// The record an event is reported as: an allocation keeps its address and
    /// size, a deallocation its address and no size.
    pub open spec fn spec_record(self) -> TraceRecord {
        match self {
            AllocationEvent::Allocated { addr, size } => TraceRecord {
                kind: RecordKind::Alloc,
                addr,
                size: Some(size),
            },
            AllocationEvent::Deallocated { addr } => TraceRecord {
                kind: RecordKind::Dealloc,
                addr,
                size: None,
            },
        }
    }

    /// The record that the consumer emits for the event.
    pub fn record(&self) -> (record: TraceRecord)
        ensures
            record == self.spec_record(),
    {
        match self {
            AllocationEvent::Allocated { addr, size } => TraceRecord {
                kind: RecordKind::Alloc,
                addr: *addr,
                size: Some(*size),
            },
            AllocationEvent::Deallocated { addr } => TraceRecord {
                kind: RecordKind::Dealloc,
                addr: *addr,
                size: None,
            },
        }
    }
}

/// The records that a run of events is reported as, one for one and in order.
pub open spec fn records_of(events: Seq<AllocationEvent>) -> Seq<TraceRecord> {
    Seq::new(events.len(), |i: int| events[i].spec_record())
}

} // verus!
