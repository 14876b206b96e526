use clap_validator::events::Event;
use clap_validator::events::EventPayload;
use clap_validator::events::EventQueue;

fn marker(time: u32, id: u32) -> Event {
    Event {
        time,
        space_id: 0,
        flags: 0,
        payload: EventPayload::ParamValue {
            param_id: id,
            port_index: -1,
            channel: -1,
            key: -1,
            note_id: -1,
            value_bits: 0,
        },
    }
}

fn param_id(event: &Event) -> u32 {
    match event.payload {
        EventPayload::ParamValue { param_id, .. } => param_id,
        _ => panic!("not a parameter event"),
    }
}

#[test]
fn sort_is_stable_for_equal_times() {
    // Push times 10, 5, 10, 0 tagged a=0, b=1, c=2, d=3; sorted order must
    // be d, b, a, c: the two events at time 10 keep their push order.
    let mut queue = EventQueue::new();
    queue.push(marker(10, 0));
    queue.push(marker(5, 1));
    queue.push(marker(10, 2));
    queue.push(marker(0, 3));
    queue.sort();
    assert_eq!(queue.len(), 4);
    let order: Vec<u32> = (0..queue.len()).map(|i| param_id(queue.get(i))).collect();
    assert_eq!(order, vec![3, 1, 0, 2]);
}

#[test]
fn sort_orders_times_nondecreasing() {
    let mut queue = EventQueue::new();
    for (t, id) in [(9u32, 0u32), (1, 1), (7, 2), (1, 3), (0, 4), (9, 5), (4, 6)] {
        queue.push(marker(t, id));
    }
    queue.sort();
    for i in 1..queue.len() {
        assert!(queue.get(i - 1).time <= queue.get(i).time);
    }
    // Ties at 1 and at 9 keep push order.
    let order: Vec<u32> = (0..queue.len()).map(|i| param_id(queue.get(i))).collect();
    assert_eq!(order, vec![4, 1, 3, 6, 2, 0, 5]);
}

#[test]
fn sort_of_empty_and_singleton_queues() {
    let mut empty = EventQueue::new();
    empty.sort();
    assert_eq!(empty.len(), 0);

    let mut single = EventQueue::new();
    single.push(marker(42, 7));
    single.sort();
    assert_eq!(single.len(), 1);
    assert_eq!(single.get(0).time, 42);
}

#[test]
fn clear_empties_the_queue() {
    let mut queue = EventQueue::new();
    queue.push(marker(1, 0));
    queue.push(marker(2, 1));
    assert_eq!(queue.len(), 2);
    queue.clear();
    assert_eq!(queue.len(), 0);
}

#[test]
fn events_must_lie_inside_the_block() {
    let mut queue = EventQueue::new();
    queue.push(marker(0, 0));
    queue.push(marker(511, 1));
    assert!(queue.all_within_block(512));
    queue.push(marker(512, 2));
    assert!(!queue.all_within_block(512));
    assert!(queue.all_within_block(1024));
}

#[test]
fn drain_hands_out_events_in_order_and_empties() {
    let mut queue = EventQueue::new();
    queue.push(marker(4, 0));
    queue.push(marker(2, 1));
    let drained = queue.drain();
    assert_eq!(drained.len(), 2);
    assert_eq!(param_id(&drained[0]), 0);
    assert_eq!(param_id(&drained[1]), 1);
    assert_eq!(queue.len(), 0);
}

#[test]
fn push_appends_in_call_order() {
    let mut queue = EventQueue::new();
    queue.push(marker(5, 10));
    queue.push(marker(3, 11));
    assert_eq!(param_id(queue.get(0)), 10);
    assert_eq!(param_id(queue.get(1)), 11);
}
