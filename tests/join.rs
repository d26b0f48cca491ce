use futures_concurrency::join::JoinEngine;
use futures_concurrency::readiness::{ReadinessTracker, SlotState};
use futures_concurrency::tuple::{Join12, Join2, Join3};
use std::io::{self, Error, ErrorKind};

fn drive_all<T: Clone>(engine: &mut JoinEngine<T>, values: &[T], order: &[usize]) {
    for &i in order {
        engine.complete(i, values[i].clone());
    }
}

#[test]
fn join_0() {
    let mut engine: JoinEngine<u8> = JoinEngine::new(0);
    assert_eq!(engine.to_probe(), Vec::<usize>::new());
    assert_eq!(engine.finish(), Some(vec![]));
}

#[test]
fn join_1() {
    let mut engine = JoinEngine::new(1);
    assert_eq!(engine.to_probe(), vec![0]);
    engine.complete(0, "hello");
    assert_eq!(engine.finish(), Some(vec!["hello"]));
}

#[test]
fn join_result_follows_slot_order_not_completion_order() {
    let values = ["a", "b", "c", "d"];
    for order in [[0, 1, 2, 3], [3, 2, 1, 0], [2, 0, 3, 1], [1, 3, 0, 2]] {
        let mut engine = JoinEngine::new(4);
        assert_eq!(engine.to_probe(), vec![0, 1, 2, 3]);
        drive_all(&mut engine, &values, &order);
        assert_eq!(engine.finish(), Some(vec!["a", "b", "c", "d"]));
    }
}

#[test]
fn join_waits_for_every_slot() {
    let mut engine = JoinEngine::new(3);
    engine.to_probe();
    engine.complete(2, 30u32);
    engine.complete(0, 10u32);
    assert_eq!(engine.finish(), None);
    engine.wake(1);
    assert_eq!(engine.to_probe(), vec![1]);
    engine.complete(1, 20u32);
    assert_eq!(engine.finish(), Some(vec![10, 20, 30]));
    assert_eq!(engine.finish(), None);
}

#[test]
fn join_probes_only_signalled_pending_slots() {
    let mut engine: JoinEngine<u8> = JoinEngine::new(10);
    assert_eq!(engine.to_probe().len(), 10);
    assert_eq!(engine.to_probe(), Vec::<usize>::new());
    assert!(engine.wake(3));
    assert_eq!(engine.to_probe(), vec![3]);
    engine.complete(3, 7);
    engine.wake(3);
    engine.wake(5);
    assert_eq!(engine.to_probe(), vec![5]);
}

#[test]
fn readiness_moves_forward() {
    let mut t = ReadinessTracker::new(2);
    assert!(t.is_pending(0));
    t.mark_ready(0);
    assert_eq!(t.state(0), SlotState::Ready);
    t.mark_consumed(0);
    assert_eq!(t.state(0), SlotState::Consumed);
    assert_eq!(t.state(1), SlotState::Pending);
}

#[test]
fn join_2() {
    let mut join = Join2::new();
    assert_eq!(join.to_probe(), vec![0, 1]);
    join.complete_0("hello");
    join.complete_1(12);
    assert_eq!(join.finish(), Some(("hello", 12)));
}

#[test]
fn join_3() {
    let mut join = Join3::new();
    assert_eq!(join.to_probe(), vec![0, 1, 2]);
    join.complete_2(12);
    join.complete_0("hello");
    assert_eq!(join.finish(), None);
    join.wake(1);
    assert_eq!(join.to_probe(), vec![1]);
    join.complete_1("world");
    assert_eq!(join.finish(), Some(("hello", "world", 12)));
    assert_eq!(join.finish(), None);
}

#[test]
fn all_ok() {
    let mut engine = JoinEngine::new(2);
    let outcomes: [Result<&str, io::Error>; 2] = [Ok("hello"), Ok("world")];
    let mut res = None;
    for (i, outcome) in engine.to_probe().into_iter().zip(outcomes) {
        res = engine.try_complete(i, outcome);
    }
    let res: io::Result<_> = res.unwrap();
    assert_eq!(res.unwrap(), ["hello", "world"]);
}

#[test]
fn one_err() {
    let err = Error::new(ErrorKind::Other, "oh no");
    let mut engine = JoinEngine::new(2);
    let outcomes: [Result<&str, io::Error>; 2] = [Ok("hello"), Err(err)];
    let mut res = None;
    for (i, outcome) in engine.to_probe().into_iter().zip(outcomes) {
        if let Some(r) = engine.try_complete(i, outcome) {
            res = Some(r);
            break;
        }
    }
    let res: io::Result<_> = res.unwrap();
    assert_eq!(res.unwrap_err().to_string(), String::from("oh no"));
}

#[test]
fn readiness_counts_pending_slots() {
    let mut t = ReadinessTracker::new(3);
    assert_eq!(t.remaining_count(), 3);
    t.mark_ready(1);
    assert_eq!(t.remaining_count(), 2);
    t.mark_consumed(1);
    assert_eq!(t.remaining_count(), 2);
    t.mark_consumed(2);
    assert_eq!(t.remaining_count(), 1);
}

#[test]
fn join_12_any_order() {
    let mut join = Join12::new();
    assert_eq!(join.to_probe(), (0..12).collect::<Vec<usize>>());
    join.complete_11(11u64);
    join.complete_5("five");
    join.complete_0(0u8);
    join.complete_9('n');
    join.complete_1(1i32);
    join.complete_10(10u16);
    join.complete_3(true);
    join.complete_2(String::from("two"));
    join.complete_8(8usize);
    join.complete_4(4i64);
    join.complete_7(());
    assert!(join.finish().is_none());
    join.complete_6(6u32);
    assert_eq!(
        join.finish(),
        Some((0u8, 1i32, String::from("two"), true, 4i64, "five", 6u32, (), 8usize, 'n', 10u16, 11u64))
    );
}
