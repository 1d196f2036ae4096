//! Allocation tracing: every allocation and deallocation of a process becomes
//! an event, events travel through a bounded channel that drops on overflow,
//! and a single consumer turns them into structured trace records.
//!
//! The library is the sequential core of that pipeline. A host shares the
//! channel between its threads, installs the interposer with the allocator and
//! writes the records to its log.

pub mod channel;
pub mod consumer;
pub mod delivery;
pub mod event;
pub mod lifecycle;
pub mod tracker;
