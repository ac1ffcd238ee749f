//! The cycle of a pane's background worker.
//!
//! A worker fetches fresh data, hands it to its pane, sleeps, and begins
//! again, for as long as the process runs.  The pane's lock is taken for the
//! hand-over alone: fetching may block on an outside command and sleeping
//! takes seconds, and neither may keep the drawing thread waiting.
//!
//! The caller runs the cycle: it carries out the step of the phase it is in
//! and moves on to the phase that follows.

use crate::tick::REFRESH_INTERVAL;
use vstd::prelude::*;

verus! {

/// Where a worker is in its cycle.
#[derive(Clone, Copy, Debug, PartialEq, Eq, Structural)]
pub enum WorkerPhase {
    /// About to fetch fresh data.
    Fetching,
    /// About to hand the data to the pane.
    Updating,
    /// About to sleep.
    Sleeping,
}

/// What a worker does in one phase.
#[derive(Clone, Copy, Debug, PartialEq, Eq, Structural)]
pub enum WorkerStep {
    /// Call the adapter.  The pane's lock is not held.
    Fetch,
    /// Take the pane's lock, replace the pane's data, release the lock.
    Update,
    /// Sleep for `nanos` nanoseconds.  The pane's lock is not held.
    Sleep { nanos: u128 },
}

impl WorkerPhase {
    /// The phase in which a worker begins.
    pub open spec fn first() -> WorkerPhase {
        WorkerPhase::Fetching
    }

    /// What is done in this phase.
    pub open spec fn step(self) -> WorkerStep {
        match self {
            WorkerPhase::Fetching => WorkerStep::Fetch,
            WorkerPhase::Updating => WorkerStep::Update,
            WorkerPhase::Sleeping => WorkerStep::Sleep { nanos: REFRESH_INTERVAL },
        }
    }

    /// The phase that follows this one.
    pub open spec fn next(self) -> WorkerPhase {
        match self {
            WorkerPhase::Fetching => WorkerPhase::Updating,
            WorkerPhase::Updating => WorkerPhase::Sleeping,
            WorkerPhase::Sleeping => WorkerPhase::Fetching,
        }
    }

    /// The phase after `steps` steps.
    pub open spec fn after(self, steps: nat) -> WorkerPhase
        decreases steps,
    {
        if steps == 0 {
            self
        } else {
            self.after((steps - 1) as nat).next()
        }
    }

    /// The phase in which a worker begins.
    pub fn start() -> (phase: WorkerPhase)
        ensures
            phase == WorkerPhase::first(),
    {
        WorkerPhase::Fetching
    }

    /// What to do now, and the phase to be in once it is done.
    pub fn advance(self) -> (r: (WorkerStep, WorkerPhase))
        ensures
            r.0 == self.step(),
            r.1 == self.next(),
    {
        match self {
            WorkerPhase::Fetching => (WorkerStep::Fetch, WorkerPhase::Updating),
            WorkerPhase::Updating => (WorkerStep::Update, WorkerPhase::Sleeping),
            WorkerPhase::Sleeping => (
                WorkerStep::Sleep { nanos: REFRESH_INTERVAL },
                WorkerPhase::Fetching,
            ),
        }
    }
}

impl WorkerStep {
    /// Whether the step is done under the pane's lock.
    pub open spec fn holds_lock(self) -> bool {
        self is Update
    }

    /// Whether the step is done under the pane's lock.
    pub fn needs_lock(&self) -> (r: bool)
        ensures
            r == self.holds_lock(),
    {
        match self {
            WorkerStep::Update => true,
            _ => false,
        }
    }
}

/// A worker fetches first.  Every phase has a successor, so the cycle never
/// ends; it comes round every three steps.  The lock is held for the
/// hand-over and for nothing else: neither while the adapter is called nor
/// while the worker sleeps, and the sleep lasts three seconds.
pub proof fn lemma_worker_cycle(phase: WorkerPhase, steps: nat)
    ensures
        WorkerPhase::first().step() == WorkerStep::Fetch,
        phase.after(steps + 3) == phase.after(steps),
        phase.step().holds_lock() <==> phase == WorkerPhase::Updating,
        phase.step() is Fetch ==> phase.next().step() is Update,
        phase.step() is Update ==> phase.next().step() == (WorkerStep::Sleep {
            nanos: 3_000_000_000,
        }),
        phase.step() is Sleep ==> phase.next().step() is Fetch,
        !phase.step().holds_lock() || !phase.next().step().holds_lock(),
{
    reveal_with_fuel(WorkerPhase::after, 4);
    assert(phase.after(steps + 3) == phase.after(steps).next().next().next());
}

} // verus!
