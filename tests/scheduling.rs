use aefr::schedule::{clamp_step, worker_count, Scheduler, MAX_STEP_MICROS};

#[test]
fn worker_count_boundaries() {
    assert_eq!(worker_count(1), 1);
    assert_eq!(worker_count(2), 1);
    assert_eq!(worker_count(3), 1);
    assert_eq!(worker_count(4), 2);
    assert_eq!(worker_count(0), 1);
    assert_eq!(worker_count(16), 14);
}

#[test]
fn long_frames_are_clamped_to_the_cap() {
    assert_eq!(clamp_step(50_000), MAX_STEP_MICROS);
    assert_eq!(clamp_step(33_001), 33_000);
    assert_eq!(clamp_step(33_000), 33_000);
    assert_eq!(clamp_step(16_667), 16_667);
    assert_eq!(clamp_step(u64::MAX), 33_000);
}

#[test]
fn scheduler_runs_work_and_returns_its_value() {
    let s = Scheduler::new(4).unwrap();
    assert_eq!(s.workers(), 2);
    let v = s.run_parallel(|| 6 * 7);
    assert_eq!(v, 42);
}

#[test]
fn parallel_update_matches_updating_each_slot_alone() {
    let s = Scheduler::new(6).unwrap();
    let update = |i: usize, pose: u64| pose * 3 + i as u64;
    let slots = vec![Some(10u64), None, Some(10u64), Some(10u64), None];
    let out = s.map_slots(slots.clone(), &update);
    for (i, before) in slots.iter().enumerate() {
        assert_eq!(out[i], before.map(|p| update(i, p)));
    }
    assert_eq!(out, vec![Some(30), None, Some(32), Some(33), None]);
}
