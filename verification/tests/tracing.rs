use alloc_trace::channel::{EventChannel, Received, CHANNEL_CAPACITY};
use alloc_trace::consumer::{drain, next_step, ConsumerStep};
use alloc_trace::event::{AllocationEvent, RecordKind, TraceRecord};
use alloc_trace::tracker::{on_allocate, on_deallocate};

fn alloc_record(addr: usize, size: usize) -> TraceRecord {
    TraceRecord { kind: RecordKind::Alloc, addr, size: Some(size) }
}

fn dealloc_record(addr: usize) -> TraceRecord {
    TraceRecord { kind: RecordKind::Dealloc, addr, size: None }
}

#[test]
fn allocation_event_becomes_alloc_record() {
    let event = AllocationEvent::Allocated { addr: 0xdead_0000, size: 4096 };
    assert_eq!(event.record(), alloc_record(0xdead_0000, 4096));
    assert_eq!(event.record().kind.label(), "alloc");
}

#[test]
fn deallocation_event_becomes_dealloc_record_without_size() {
    let event = AllocationEvent::Deallocated { addr: 0xdead_0000 };
    assert_eq!(event.record(), dealloc_record(0xdead_0000));
    assert_eq!(event.record().size, None);
    assert_eq!(event.record().kind.label(), "dealloc");
}

#[test]
fn zero_sized_allocation_keeps_its_size() {
    let event = AllocationEvent::Allocated { addr: 0, size: 0 };
    assert_eq!(event.record(), alloc_record(0, 0));
    assert_ne!(event.record(), dealloc_record(0));
}

#[test]
fn on_allocate_queues_one_allocated_event() {
    let mut channel = EventChannel::new(4);
    on_allocate(&mut channel, 0x2000, 128);
    assert_eq!(channel.len(), 1);
    assert_eq!(
        channel.receive(),
        Received::Event(AllocationEvent::Allocated { addr: 0x2000, size: 128 })
    );
}

#[test]
fn on_deallocate_queues_one_deallocated_event() {
    let mut channel = EventChannel::new(4);
    on_deallocate(&mut channel, 0x2000);
    assert_eq!(channel.len(), 1);
    assert_eq!(channel.receive(), Received::Event(AllocationEvent::Deallocated { addr: 0x2000 }));
}

#[test]
fn interposer_drops_silently_when_the_channel_is_full() {
    let mut channel = EventChannel::new(1);
    on_allocate(&mut channel, 1, 10);
    on_allocate(&mut channel, 2, 20);
    on_deallocate(&mut channel, 1);
    assert_eq!(channel.len(), 1);
    assert_eq!(drain(&mut channel), vec![alloc_record(1, 10)]);
}

#[test]
fn allocate_then_deallocate_gives_two_records_in_order() {
    let mut channel = EventChannel::new(CHANNEL_CAPACITY);
    on_allocate(&mut channel, 0x1000, 64);
    on_deallocate(&mut channel, 0x1000);

    assert_eq!(next_step(&mut channel), ConsumerStep::Emit(alloc_record(0x1000, 64)));
    assert_eq!(next_step(&mut channel), ConsumerStep::Emit(dealloc_record(0x1000)));
    assert_eq!(next_step(&mut channel), ConsumerStep::Wait);
}

#[test]
fn allocate_then_deallocate_drains_to_two_records() {
    let mut channel = EventChannel::new(CHANNEL_CAPACITY);
    on_allocate(&mut channel, 0x1000, 64);
    on_deallocate(&mut channel, 0x1000);

    let records = drain(&mut channel);
    assert_eq!(records, vec![alloc_record(0x1000, 64), dealloc_record(0x1000)]);
    assert_eq!(records[0].kind.label(), "alloc");
    assert_eq!(records[0].addr, 0x1000);
    assert_eq!(records[0].size, Some(64));
    assert_eq!(records[1].kind.label(), "dealloc");
    assert_eq!(records[1].addr, 0x1000);
    assert_eq!(records[1].size, None);
    assert!(channel.is_empty());
}

#[test]
fn consumer_waits_on_empty_channel_and_stops_on_closed_one() {
    let mut channel = EventChannel::new(2);
    assert_eq!(next_step(&mut channel), ConsumerStep::Wait);
    on_allocate(&mut channel, 7, 70);
    channel.close();
    assert_eq!(next_step(&mut channel), ConsumerStep::Emit(alloc_record(7, 70)));
    assert_eq!(next_step(&mut channel), ConsumerStep::Stop);
    assert_eq!(next_step(&mut channel), ConsumerStep::Stop);
}

#[test]
fn drain_of_empty_channel_gives_no_records() {
    let mut channel = EventChannel::new(2);
    assert_eq!(drain(&mut channel), Vec::<TraceRecord>::new());
    channel.close();
    assert_eq!(drain(&mut channel), Vec::<TraceRecord>::new());
    assert!(channel.is_closed());
}

#[test]
fn drain_leaves_capacity_and_closure_alone() {
    let mut channel = EventChannel::new(3);
    on_allocate(&mut channel, 1, 1);
    let _ = drain(&mut channel);
    assert_eq!(channel.capacity(), 3);
    assert!(!channel.is_closed());
    on_allocate(&mut channel, 2, 2);
    assert_eq!(drain(&mut channel), vec![alloc_record(2, 2)]);
}

#[test]
fn every_call_is_observed_when_the_calls_fit() {
    let mut channel = EventChannel::new(CHANNEL_CAPACITY);
    let mut expected = Vec::new();
    for i in 0..CHANNEL_CAPACITY {
        if i % 3 == 2 {
            on_deallocate(&mut channel, i - 1);
            expected.push(dealloc_record(i - 1));
        } else {
            on_allocate(&mut channel, i, 8 * i);
            expected.push(alloc_record(i, 8 * i));
        }
    }
    let records = drain(&mut channel);
    assert_eq!(records.len(), CHANNEL_CAPACITY);
    assert_eq!(records, expected);
}

#[test]
fn at_most_capacity_events_are_observed_without_a_consumer() {
    let mut channel = EventChannel::new(CHANNEL_CAPACITY);
    for i in 0..(CHANNEL_CAPACITY + 2_500) {
        on_allocate(&mut channel, i, 1);
        assert!(channel.len() <= CHANNEL_CAPACITY);
    }
    let records = drain(&mut channel);
    assert_eq!(records.len(), CHANNEL_CAPACITY);
    assert_eq!(records[0], alloc_record(0, 1));
    assert_eq!(records[CHANNEL_CAPACITY - 1], alloc_record(CHANNEL_CAPACITY - 1, 1));
}

#[test]
fn eight_producers_without_consumer_deliver_ten_thousand_of_sixteen_thousand() {
    let mut channel = EventChannel::new(CHANNEL_CAPACITY);
    let mut delivered = 0usize;
    let mut dropped = 0usize;
    for round in 0..2_000usize {
        for producer in 0..8usize {
            let event = AllocationEvent::Allocated { addr: producer * 0x1_0000 + round, size: 32 };
            if channel.try_send(event) {
                delivered += 1;
            } else {
                dropped += 1;
            }
        }
    }
    assert_eq!(delivered + dropped, 16_000);
    assert_eq!(delivered, 10_000);
    assert_eq!(dropped, 6_000);
    assert_eq!(drain(&mut channel).len(), 10_000);
}

#[test]
fn eight_producers_with_a_live_consumer_deliver_all_sixteen_thousand() {
    let mut channel = EventChannel::new(CHANNEL_CAPACITY);
    let mut delivered = 0usize;
    let mut dropped = 0usize;
    let mut observed = Vec::new();
    for round in 0..2_000usize {
        for producer in 0..8usize {
            let event = AllocationEvent::Allocated { addr: producer * 0x1_0000 + round, size: 32 };
            if channel.try_send(event) {
                delivered += 1;
            } else {
                dropped += 1;
            }
        }
        if round % 100 == 99 {
            observed.extend(drain(&mut channel));
        }
    }
    observed.extend(drain(&mut channel));
    assert_eq!(delivered + dropped, 16_000);
    assert_eq!(dropped, 0);
    assert_eq!(observed.len(), 16_000);
    for producer in 0..8usize {
        let seen: Vec<usize> = observed
            .iter()
            .filter(|record| record.addr / 0x1_0000 == producer)
            .map(|record| record.addr % 0x1_0000)
            .collect();
        let in_call_order: Vec<usize> = (0..2_000usize).collect();
        assert_eq!(seen, in_call_order);
    }
}

#[test]
fn a_slow_consumer_loses_events_but_every_send_is_accounted_for() {
    let mut channel = EventChannel::new(10);
    let mut delivered = 0usize;
    let mut dropped = 0usize;
    let mut observed = 0usize;
    for i in 0..100usize {
        if channel.try_send(AllocationEvent::Deallocated { addr: i }) {
            delivered += 1;
        } else {
            dropped += 1;
        }
        if i % 20 == 19 {
            if let ConsumerStep::Emit(_) = next_step(&mut channel) {
                observed += 1;
            }
        }
    }
    assert_eq!(delivered + dropped, 100);
    assert_eq!(observed + channel.len() + dropped, 100);
    assert_eq!(delivered, 14);
    assert_eq!(observed, 5);
    assert_eq!(channel.len(), 9);
}
