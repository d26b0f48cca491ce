use futures_concurrency::first_ok::{FirstOk, RaceError};
use futures_concurrency::permuter::FairnessPermuter;

#[test]
fn race_no_candidates() {
    let mut engine: FirstOk<u8, &str> = FirstOk::new(0, 7);
    assert_eq!(engine.drive_order(), Err(RaceError::NoCandidates));
}

#[test]
fn race_first_probed_success_wins() {
    // Both operations are already complete; the round's order decides.
    let mut engine: FirstOk<&str, &str> = FirstOk::new(2, 1);
    let order = engine.drive_order().unwrap();
    assert_eq!(order, vec![1, 0]);
    let values = ["a", "b"];
    let first = order[0];
    assert_eq!(engine.record(first, Ok(values[first])), Some(Ok("b")));

    let mut engine: FirstOk<&str, &str> = FirstOk::new(2, 4);
    let order = engine.drive_order().unwrap();
    assert_eq!(order, vec![0, 1]);
    assert_eq!(engine.record(order[0], Ok(values[order[0]])), Some(Ok("a")));
}

#[test]
fn race_success_after_failure() {
    let mut engine: FirstOk<u32, &str> = FirstOk::new(3, 0);
    assert_eq!(engine.drive_order().unwrap(), vec![0, 1, 2]);
    assert_eq!(engine.record(0, Err("e0")), None);
    assert_eq!(engine.record(2, Ok(42)), Some(Ok(42)));
}

#[test]
fn race_all_fail_surfaces_last_failure() {
    let mut engine: FirstOk<u32, &str> = FirstOk::new(3, 0);
    engine.drive_order().unwrap();
    assert_eq!(engine.record(0, Err("e1")), None);
    assert_eq!(engine.record(1, Err("e2")), None);
    assert_eq!(engine.record(2, Err("e3")), Some(Err("e3")));
}

#[test]
fn race_consumed_slot_is_not_probed_again() {
    let mut engine: FirstOk<u32, &str> = FirstOk::new(3, 0);
    engine.drive_order().unwrap();
    assert_eq!(engine.record(1, Err("gone")), None);
    engine.wake(1);
    engine.wake(2);
    assert_eq!(engine.drive_order().unwrap(), vec![2]);
    assert_eq!(engine.drive_order().unwrap(), Vec::<usize>::new());
}

#[test]
fn permuter_rounds_are_rotations() {
    let mut p = FairnessPermuter::new(7);
    assert_eq!(p.next_round(5), vec![2, 3, 4, 0, 1]);
    let mut q = FairnessPermuter::new(7);
    let a = q.next_round(5);
    let b = p.next_round(5);
    assert_eq!(q.next_round(5), b);
    assert_eq!(a, vec![2, 3, 4, 0, 1]);
    let mut sorted = b.clone();
    sorted.sort();
    assert_eq!(sorted, vec![0, 1, 2, 3, 4]);
    assert_eq!(p.seed, 7u64.wrapping_mul(6364136223846793005).wrapping_add(1442695040888963407)
        .wrapping_mul(6364136223846793005).wrapping_add(1442695040888963407));
}

#[test]
fn race_same_seed_same_order() {
    let run = |seed: u64| {
        let mut engine: FirstOk<u8, u8> = FirstOk::new(6, seed);
        let first = engine.drive_order().unwrap();
        engine.record(first[0], Err(0));
        for i in [5, 0, 2, 3] {
            engine.wake(i);
        }
        (first, engine.drive_order().unwrap())
    };
    assert_eq!(run(9), run(9));
    let (first, second) = run(9);
    assert_eq!(first, vec![3, 4, 5, 0, 1, 2]);
    assert!(!second.contains(&3));
    assert_eq!(second.len(), 3);
}
