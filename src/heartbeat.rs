use vstd::prelude::*;

verus! {

/// Number of lines a loop prints in one outer cycle before its counter restarts.
pub const BATCH: u64 = 100;

/// The two periodic loops of the program.
#[derive(Clone, Copy, Debug, PartialEq, Eq, Structural)]
pub enum Worker {
    Fast,
    Slow,
}

/// The line a worker prints.
pub open spec fn label_of(w: Worker) -> Seq<char> {
    match w {
        Worker::Fast => "fast_function"@,
        Worker::Slow => "slow_function"@,
    }
}

/// How long, in milliseconds, a worker sleeps after each line.
pub open spec fn period_of(w: Worker) -> nat {
    match w {
        Worker::Fast => 100,
        Worker::Slow => 500,
    }
}

impl Worker {
    /// The line this worker writes.
    pub fn label(&self) -> (r: &'static str)
        ensures
            r@ == label_of(*self),
    {
        match self {
            Worker::Fast => "fast_function",
            Worker::Slow => "slow_function",
        }
    }

    /// Milliseconds this worker sleeps after each line.
    pub fn period_ms(&self) -> (r: u64)
        ensures
            r == period_of(*self),
    {
        match self {
            Worker::Fast => 100,
            Worker::Slow => 500,
        }
    }
}

/// What a loop asks its runner to do next.
#[derive(Clone, Copy, Debug, PartialEq, Eq, Structural)]
pub enum Action {
    /// Write the worker's line to standard output.
    Emit(Worker),
    /// Block the calling thread for this many milliseconds.
    Sleep(u64),
}

/// Where one worker stands in its endless loop: `iteration` counts the lines
/// of the current outer cycle, and `printed` says whether the line of that
/// iteration has been written and its sleep is due.
#[derive(Clone, Copy, Debug, PartialEq, Eq, Structural)]
pub struct LoopState {
    pub worker: Worker,
    pub iteration: u64,
    pub printed: bool,
}

/// The state a worker starts in.
pub open spec fn start_of(w: Worker) -> LoopState {
    LoopState { worker: w, iteration: 0, printed: false }
}

/// The action a state calls for: the line first, then the sleep.
pub open spec fn action_of(s: LoopState) -> Action {
    if s.printed {
        Action::Sleep(period_of(s.worker) as u64)
    } else {
        Action::Emit(s.worker)
    }
}

/// The state once the action of `s` has been carried out.
pub open spec fn next_of(s: LoopState) -> LoopState {
    if !s.printed {
        LoopState { worker: s.worker, iteration: s.iteration, printed: true }
    } else {
        LoopState {
            worker: s.worker,
            iteration: if s.iteration + 1 == BATCH { 0 } else { (s.iteration + 1) as u64 },
            printed: false,
        }
    }
}

impl LoopState {
    /// The iteration counter stays inside the outer cycle.
    pub open spec fn wf(&self) -> bool {
        self.iteration < BATCH
    }

    /// A loop at the start of its first cycle.
    pub fn new(worker: Worker) -> (r: LoopState)
        ensures
            r == start_of(worker),
            r.wf(),
    {
        LoopState { worker, iteration: 0, printed: false }
    }

    /// Decides the next action and advances the loop past it.
    pub fn step(&mut self) -> (r: Action)
        requires
            old(self).wf(),
        ensures
            r == action_of(*old(self)),
            *final(self) == next_of(*old(self)),
            final(self).wf(),
    {
        if !self.printed {
            self.printed = true;
            Action::Emit(self.worker)
        } else {
            self.iteration = if self.iteration + 1 == BATCH { 0 } else { self.iteration + 1 };
            self.printed = false;
            Action::Sleep(self.worker.period_ms())
        }
    }
}

} // verus!
