use vstd::prelude::*;

use crate::heartbeat::{action_of, next_of, period_of, start_of, Action, LoopState, Worker, BATCH};

verus! {

/// The state after `n` steps from `s`.
pub open spec fn state_after(s: LoopState, n: nat) -> LoopState
    decreases n,
{
    if n == 0 {
        s
    } else {
        next_of(state_after(s, (n - 1) as nat))
    }
}

/// The action taken at step `n` of the run from `s`.
pub open spec fn action_after(s: LoopState, n: nat) -> Action {
    action_of(state_after(s, n))
}

/// Milliseconds a single action keeps the thread asleep.
pub open spec fn sleep_of(a: Action) -> nat {
    match a {
        Action::Sleep(ms) => ms as nat,
        Action::Emit(_) => 0,
    }
}

/// Time slept, in milliseconds, before step `n` of the run from `s` begins.
pub open spec fn elapsed(s: LoopState, n: nat) -> nat
    decreases n,
{
    if n == 0 {
        0
    } else {
        elapsed(s, (n - 1) as nat) + sleep_of(action_after(s, (n - 1) as nat))
    }
}

/// Lines written during the first `n` steps of the run from `s`.
pub open spec fn lines_in(s: LoopState, n: nat) -> nat
    decreases n,
{
    if n == 0 {
        0
    } else {
        lines_in(s, (n - 1) as nat) + match action_after(s, (n - 1) as nat) {
            Action::Emit(_) => 1nat,
            Action::Sleep(_) => 0nat,
        }
    }
}

/// Closed form of a run from the start: in its `k`-th iteration overall a
/// worker is at counter `k % BATCH`, has slept `k` periods and written `k`
/// lines; one step later it has written its `k`-th line.
proof fn lemma_run_shape(w: Worker, k: nat)
    ensures
        state_after(start_of(w), 2 * k) == (LoopState {
            worker: w,
            iteration: (k % (BATCH as nat)) as u64,
            printed: false,
        }),
        state_after(start_of(w), 2 * k + 1) == (LoopState {
            worker: w,
            iteration: (k % (BATCH as nat)) as u64,
            printed: true,
        }),
        elapsed(start_of(w), 2 * k) == k * period_of(w),
        elapsed(start_of(w), 2 * k + 1) == k * period_of(w),
        lines_in(start_of(w), 2 * k) == k,
        lines_in(start_of(w), 2 * k + 1) == k + 1,
    decreases k,
{
    let s = start_of(w);
    if k > 0 {
        let j = (k - 1) as nat;
        lemma_run_shape(w, j);
        assert(2 * k == 2 * j + 2);
        assert((2 * k - 1) as nat == 2 * j + 1);
        assert(2 * k + 1 - 1 == 2 * k);
        assert(k % 100 == if j % 100 + 1 == 100 { 0 } else { j % 100 + 1 });
        assert(k * period_of(w) == j * period_of(w) + period_of(w)) by (nonlinear_arith)
            requires
                k == j + 1,
        ;
    } else {
        reveal_with_fuel(state_after, 2);
        reveal_with_fuel(elapsed, 2);
        reveal_with_fuel(lines_in, 2);
    }
}

/// A worker never stops on its own: for every `k` its run reaches a `k`-th
/// line, written once `k` periods have been slept, followed by a sleep of
/// one period, and its state stays well formed on the way.
pub proof fn lemma_loop_never_ends(w: Worker, k: nat)
    ensures
        state_after(start_of(w), 2 * k).wf(),
        state_after(start_of(w), 2 * k + 1).wf(),
        action_after(start_of(w), 2 * k) == Action::Emit(w),
        action_after(start_of(w), 2 * k + 1) == Action::Sleep(period_of(w) as u64),
        elapsed(start_of(w), 2 * k) == k * period_of(w),
{
    lemma_run_shape(w, k);
}

/// Liveness: every window of one period, however far into the run it lies,
/// holds the moment at which the worker writes a line.
pub proof fn lemma_line_in_every_window(w: Worker, t: nat)
    ensures
        exists|i: nat|
            action_after(start_of(w), i) == Action::Emit(w) && t <= elapsed(start_of(w), i)
                <= t + period_of(w),
{
    let p = period_of(w);
    let k: nat = if t % p == 0 { t / p } else { t / p + 1 };
    lemma_run_shape(w, k);
    match w {
        Worker::Fast => {},
        Worker::Slow => {},
    }
    assert(action_after(start_of(w), 2 * k) == Action::Emit(w));
    assert(t <= elapsed(start_of(w), 2 * k) <= t + p);
}

/// The number of lines a worker has written by time `t` (in milliseconds of
/// sleep since it started) is `t / period + 1`. The steps begun by time `t`
/// are the first `n`: step `n - 1` began no later than `t`, step `n` after it.
pub proof fn lemma_lines_by(w: Worker, t: nat, n: nat)
    requires
        n > 0,
        elapsed(start_of(w), (n - 1) as nat) <= t < elapsed(start_of(w), n),
    ensures
        lines_in(start_of(w), n) == t / period_of(w) + 1,
{
    let k = n / 2;
    if n % 2 == 0 {
        let j = (k - 1) as nat;
        lemma_run_shape(w, k);
        lemma_run_shape(w, j);
        assert(n == 2 * k && (n - 1) as nat == 2 * j + 1);
        match w {
            Worker::Fast => {},
            Worker::Slow => {},
        }
    } else {
        lemma_run_shape(w, k);
        assert(n == 2 * k + 1 && (n - 1) as nat == 2 * k);
    }
}

/// Over any common observation time, the fast worker writes five lines for
/// each line of the slow worker, up to the rounding of the last period:
/// `fast <= 5 * slow <= fast + 4`.
pub proof fn lemma_fast_to_slow_ratio(t: nat, n_fast: nat, n_slow: nat)
    requires
        n_fast > 0,
        elapsed(start_of(Worker::Fast), (n_fast - 1) as nat) <= t < elapsed(
            start_of(Worker::Fast),
            n_fast,
        ),
        n_slow > 0,
        elapsed(start_of(Worker::Slow), (n_slow - 1) as nat) <= t < elapsed(
            start_of(Worker::Slow),
            n_slow,
        ),
    ensures
        lines_in(start_of(Worker::Fast), n_fast) <= 5 * lines_in(start_of(Worker::Slow), n_slow),
        5 * lines_in(start_of(Worker::Slow), n_slow) <= lines_in(start_of(Worker::Fast), n_fast)
            + 4,
{
    lemma_lines_by(Worker::Fast, t, n_fast);
    lemma_lines_by(Worker::Slow, t, n_slow);
    vstd::arithmetic::div_mod::lemma_div_denominator(t as int, 100, 5);
}

} // verus!
