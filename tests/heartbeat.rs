use twin_loops::heartbeat::{Action, LoopState, Worker, BATCH};

/// Runs a worker from its start until its sleeps exceed `window_ms`, and
/// returns how many lines it wrote in that time.
fn lines_within(worker: Worker, window_ms: u64) -> u64 {
    let mut state = LoopState::new(worker);
    let mut slept: u64 = 0;
    let mut lines: u64 = 0;
    loop {
        match state.step() {
            Action::Emit(w) => {
                assert_eq!(w, worker);
                lines += 1;
            }
            Action::Sleep(ms) => {
                slept += ms;
                if slept > window_ms {
                    return lines;
                }
            }
        }
    }
}

#[test]
fn labels_are_the_function_names() {
    assert_eq!(Worker::Fast.label(), "fast_function");
    assert_eq!(Worker::Slow.label(), "slow_function");
}

#[test]
fn periods_are_100_and_500_ms() {
    assert_eq!(Worker::Fast.period_ms(), 100);
    assert_eq!(Worker::Slow.period_ms(), 500);
}

#[test]
fn new_state_is_at_start_of_cycle() {
    let s = LoopState::new(Worker::Slow);
    assert_eq!(s, LoopState { worker: Worker::Slow, iteration: 0, printed: false });
}

#[test]
fn first_actions_alternate_line_and_sleep() {
    let mut s = LoopState::new(Worker::Fast);
    assert_eq!(s.step(), Action::Emit(Worker::Fast));
    assert_eq!(s.step(), Action::Sleep(100));
    assert_eq!(s.step(), Action::Emit(Worker::Fast));
    assert_eq!(s.step(), Action::Sleep(100));
    assert_eq!(s, LoopState { worker: Worker::Fast, iteration: 2, printed: false });
}

#[test]
fn counter_restarts_after_a_batch() {
    let mut s = LoopState::new(Worker::Slow);
    for _ in 0..(2 * BATCH - 1) {
        s.step();
    }
    assert_eq!(s, LoopState { worker: Worker::Slow, iteration: 99, printed: true });
    assert_eq!(s.step(), Action::Sleep(500));
    assert_eq!(s, LoopState { worker: Worker::Slow, iteration: 0, printed: false });
    assert_eq!(s.step(), Action::Emit(Worker::Slow));
}

#[test]
fn loop_keeps_going_over_many_cycles() {
    let mut s = LoopState::new(Worker::Fast);
    for i in 0..10_000u64 {
        let a = s.step();
        if i % 2 == 0 {
            assert_eq!(a, Action::Emit(Worker::Fast));
        } else {
            assert_eq!(a, Action::Sleep(100));
        }
        assert!(s.iteration < BATCH);
    }
}

#[test]
fn a_line_in_every_period_window() {
    for (worker, period) in [(Worker::Fast, 100u64), (Worker::Slow, 500u64)] {
        let mut emit_times = Vec::new();
        let mut s = LoopState::new(worker);
        let mut slept: u64 = 0;
        while slept <= 5_000 {
            match s.step() {
                Action::Emit(_) => emit_times.push(slept),
                Action::Sleep(ms) => slept += ms,
            }
        }
        for t in (0..4_000u64).step_by(37) {
            assert!(emit_times.iter().any(|&e| t <= e && e <= t + period));
        }
    }
}

#[test]
fn lines_by_time_follow_the_period() {
    assert_eq!(lines_within(Worker::Fast, 0), 1);
    assert_eq!(lines_within(Worker::Fast, 99), 1);
    assert_eq!(lines_within(Worker::Fast, 100), 2);
    assert_eq!(lines_within(Worker::Slow, 499), 1);
    assert_eq!(lines_within(Worker::Slow, 500), 2);
}

#[test]
fn fast_to_slow_ratio_is_five_to_one() {
    for t in [0u64, 450, 999, 10_000, 123_456] {
        let fast = lines_within(Worker::Fast, t);
        let slow = lines_within(Worker::Slow, t);
        assert!(fast <= 5 * slow);
        assert!(5 * slow <= fast + 4);
    }
    assert_eq!(lines_within(Worker::Fast, 100_000), 1_001);
    assert_eq!(lines_within(Worker::Slow, 100_000), 201);
}

#[test]
fn observing_for_1100_ms() {
    let fast = lines_within(Worker::Fast, 1_100);
    let slow = lines_within(Worker::Slow, 1_100);
    assert!(fast >= 10);
    assert!(slow >= 2);
    assert_eq!(fast, 12);
    assert_eq!(slow, 3);
}
