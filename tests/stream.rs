use futures_concurrency::stream::{IntoConcurrentStream, StreamAction, StreamEvent};
use futures_concurrency::wakeup::WakeupAggregator;

#[test]
fn stream_sends_k_items_then_finishes_once() {
    let (source, mut driver) = vec![1, 2, 3].co().into_parts();
    let mut events: Vec<StreamEvent<i32>> = Vec::new();
    for x in source {
        events.push(StreamEvent::Progress);
        events.push(StreamEvent::Item(x));
    }
    events.push(StreamEvent::Exhausted);
    events.push(StreamEvent::Progress);
    events.push(StreamEvent::Progress);
    let mut sent = Vec::new();
    let mut finishes = 0;
    let mut drains = 0;
    let mut total = 0;
    for ev in events {
        match driver.on_event(ev) {
            StreamAction::Send(v) => {
                total += v;
                sent.push(v);
            }
            StreamAction::Finish => finishes += 1,
            StreamAction::Drain => drains += 1,
            StreamAction::Race | StreamAction::Idle => {}
        }
    }
    assert_eq!(sent, vec![1, 2, 3]);
    assert_eq!(drains, 1);
    assert_eq!(finishes, 1);
    assert_eq!(total, 6);
    assert!(driver.is_finished());
}

#[test]
fn stream_empty_source_finishes_at_once() {
    let (_, mut driver) = Vec::<u8>::new().co().into_parts();
    assert!(matches!(driver.on_event(StreamEvent::<u8>::Exhausted), StreamAction::Drain));
    assert!(!driver.is_finished());
    assert!(matches!(driver.on_event(StreamEvent::<u8>::Progress), StreamAction::Finish));
    assert!(driver.is_finished());
    assert!(matches!(driver.on_event(StreamEvent::Item(1u8)), StreamAction::Idle));
}

#[test]
fn wakeup_only_slot_three_of_ten() {
    let mut w = WakeupAggregator::new(10);
    assert_eq!(w.drain_ready_indices(), (0..10).collect::<Vec<usize>>());
    assert!(w.signal(3));
    assert!(!w.signal(3));
    assert_eq!(w.drain_ready_indices(), vec![3]);
    assert_eq!(w.drain_ready_indices(), Vec::<usize>::new());
}
