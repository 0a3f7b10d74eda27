use std::future::Future;
use tokio::runtime::{Handle, TryCurrentError};
use tokio::task::{JoinError, JoinHandle};
use tokio_util::task::TaskTracker;
use vstd::prelude::*;

verus! {

/// tokio-util's task tracker: a shared count of running tasks and a closed
/// flag.
#[verifier::external_type_specification]
#[verifier::external_body]
pub struct ExTaskTracker(TaskTracker);

/// A handle on a tokio runtime.
#[verifier::external_type_specification]
#[verifier::external_body]
pub struct ExHandle(Handle);

/// Why no runtime handle could be had.
#[verifier::external_type_specification]
#[verifier::external_body]
pub struct ExTryCurrentError(TryCurrentError);

/// Why a spawned task gave no result: it panicked or was aborted. No
/// signature here names it, but a `JoinHandle<T>` is a future of
/// `Result<T, JoinError>`, so the handle cannot be declared without it.
#[verifier::external_type_specification]
#[verifier::external_body]
pub struct ExJoinError(JoinError);

/// tokio's handle on a spawned task.
#[verifier::external_type_specification]
#[verifier::external_body]
#[verifier::reject_recursive_types(T)]
pub struct ExJoinHandle<T>(JoinHandle<T>);

/// `TaskTracker::new` makes an open, empty tracker. Nothing is claimed of it.
pub assume_specification[ TaskTracker::new ]() -> (tracker: TaskTracker)
;

/// `TaskTracker::clone` gives another handle on the same set of tasks.
/// Nothing is claimed of it.
pub assume_specification[ <TaskTracker as Clone>::clone ](tracker: &TaskTracker) -> (other:
    TaskTracker)
;

/// `TaskTracker::close` sets the closed flag and says whether this call set
/// it. Other holders may close too: nothing is claimed of the answer.
pub assume_specification[ TaskTracker::close ](tracker: &TaskTracker) -> (newly: bool)
;

/// `TaskTracker::is_closed` reads the closed flag as it is at that moment.
pub assume_specification[ TaskTracker::is_closed ](tracker: &TaskTracker) -> (closed: bool)
;

/// `TaskTracker::len` reads the number of tracked tasks as it is at that
/// moment.
pub assume_specification[ TaskTracker::len ](tracker: &TaskTracker) -> (count: usize)
;

/// `Handle::try_current` returns the runtime this thread runs in, or an error
/// where there is none. It never panics.
pub assume_specification[ Handle::try_current ]() -> (current: Result<Handle, TryCurrentError>)
;

/// `TaskTracker::spawn_on` counts the task as tracked and starts it on the
/// given runtime. Nothing is claimed of the handle it returns.
pub assume_specification<F>[ TaskTracker::spawn_on::<F> ](
    tracker: &TaskTracker,
    task: F,
    handle: &Handle,
) -> (spawned: JoinHandle<F::Output>) where F: Future + Send + 'static, F::Output: Send + 'static
;

/// Where a registration comes from.
#[derive(Debug, PartialEq, Eq, Clone, Copy)]
pub enum Origin {
    /// From outside any tracked job.
    TopLevel,
    /// From a job that is itself tracked.
    Nested,
    /// From the dispatch loop, for an event that was published earlier. The
    /// loop is no tracked job, but the work it hands on was set off before.
    Dispatch,
}

/// Whether a tracker seen as `closed` takes a registration of this origin:
/// a closed tracker refuses top-level work and nothing else.
pub open spec fn admits_spec(closed: bool, origin: Origin) -> bool {
    !(origin is TopLevel) || !closed
}

#[verifier::when_used_as_spec(admits_spec)]
pub fn admits(closed: bool, origin: Origin) -> (admitted: bool)
    ensures
        admitted == admits_spec(closed, origin),
{
    match origin {
        Origin::TopLevel => !closed,
        Origin::Nested => true,
        Origin::Dispatch => true,
    }
}

/// Why a job was not spawned. Either way the job comes back to the caller.
pub enum SpawnError<F> {
    /// The tracker is closed to top-level work.
    Closed(F),
    /// The calling thread runs in no runtime.
    NoRuntime(F),
}

impl<F> SpawnError<F> {
    /// The job that was not spawned.
    pub open spec fn job(self) -> F {
        match self {
            SpawnError::Closed(job) => job,
            SpawnError::NoRuntime(job) => job,
        }
    }

    /// Hands the job back.
    pub fn into_job(self) -> (job: F)
        ensures
            job == self.job(),
    {
        match self {
            SpawnError::Closed(job) => job,
            SpawnError::NoRuntime(job) => job,
        }
    }
}

/// The task tracker: every job spawned through it is counted until it
/// finishes, and `close` followed by a wait is the shutdown barrier. Clones
/// share the one count.
pub struct Tasks {
    tracker: TaskTracker,
}

/// `outcome` is what handing `f` to a runtime may come to, where asking for
/// the current runtime gave `current`: with a runtime, `f` is spawned on it
/// through `tracker`; without one, `f` comes back.
pub open spec fn spawn_outcome_on<F>(
    tracker: TaskTracker,
    current: Result<Handle, TryCurrentError>,
    f: F,
    outcome: Result<(), SpawnError<F>>,
) -> bool where F: Future + Send + 'static, F::Output: Send + 'static {
    match current {
        Ok(handle) => outcome is Ok && exists|joined: JoinHandle<F::Output>|
            call_ensures(TaskTracker::spawn_on::<F>, (&tracker, f, &handle), joined),
        Err(_) => outcome == Err::<(), SpawnError<F>>(SpawnError::NoRuntime(f)),
    }
}

/// `outcome` is what spawning `f` may come to on a tracker whose closed flag
/// was read as `closed`: work that a tracker so seen does not admit comes
/// back as `Closed`; any other goes to the current runtime, if there is one.
pub open spec fn spawn_outcome_seen<F>(
    tracker: TaskTracker,
    closed: bool,
    origin: Origin,
    f: F,
    outcome: Result<(), SpawnError<F>>,
) -> bool where F: Future + Send + 'static, F::Output: Send + 'static {
    if !admits_spec(closed, origin) {
        outcome == Err::<(), SpawnError<F>>(SpawnError::Closed(f))
    } else {
        exists|current: Result<Handle, TryCurrentError>|
            call_ensures(Handle::try_current, (), current) && #[trigger] spawn_outcome_on(
                tracker,
                current,
                f,
                outcome,
            )
    }
}

/// `outcome` is what spawning `f` with `origin` through `tracker` may come
/// to: the tracker's closed flag is read, and `spawn_outcome_seen` says the rest.
pub open spec fn spawn_outcome<F>(
    tracker: TaskTracker,
    origin: Origin,
    f: F,
    outcome: Result<(), SpawnError<F>>,
) -> bool where F: Future + Send + 'static, F::Output: Send + 'static {
    exists|closed: bool|
        call_ensures(TaskTracker::is_closed, (&tracker,), closed) && #[trigger] spawn_outcome_seen(
            tracker,
            closed,
            origin,
            f,
            outcome,
        )
}

impl Tasks {
    /// The tracker behind this handle.
    pub closed spec fn inner(&self) -> TaskTracker {
        self.tracker
    }

    /// An open tracker with nothing in flight.
    pub fn new() -> (tasks: Self)
        ensures
            call_ensures(TaskTracker::new, (), tasks.inner()),
    {
        Tasks { tracker: TaskTracker::new() }
    }

    /// Spawns a top-level job and tracks it. A closed tracker refuses it.
    pub fn spawn<F>(&self, f: F) -> (outcome: Result<(), SpawnError<F>>) where
        F: Future + Send + 'static,
        F::Output: Send + 'static,

        ensures
            spawn_outcome(self.inner(), Origin::TopLevel, f, outcome),
            outcome matches Err(error) ==> error.job() == f,
    {
        self.spawn_from(Origin::TopLevel, f)
    }

    /// Spawns a job on behalf of a tracked job and tracks it. Closing the
    /// tracker does not refuse it.
    pub fn spawn_nested<F>(&self, f: F) -> (outcome: Result<(), SpawnError<F>>) where
        F: Future + Send + 'static,
        F::Output: Send + 'static,

        ensures
            spawn_outcome(self.inner(), Origin::Nested, f, outcome),
            outcome matches Err(error) ==> error.job() == f,
            !(outcome matches Err(SpawnError::Closed(_))),
    {
        self.spawn_from(Origin::Nested, f)
    }

    /// Spawns `f` and tracks it, unless the tracker refuses work of this
    /// origin or there is no runtime to spawn on. A job that is not spawned
    /// comes back in the error.
    pub fn spawn_from<F>(&self, origin: Origin, f: F) -> (outcome: Result<(), SpawnError<F>>) where
        F: Future + Send + 'static,
        F::Output: Send + 'static,

        ensures
            spawn_outcome(self.inner(), origin, f, outcome),
            outcome matches Err(error) ==> error.job() == f,
            !(origin is TopLevel) ==> !(outcome matches Err(SpawnError::Closed(_))),
    {
        let closed = self.tracker.is_closed();
        if !admits(closed, origin) {
            let outcome = Err(SpawnError::Closed(f));
            assert(spawn_outcome_seen(self.tracker, closed, origin, f, outcome));
            return outcome;
        }
        let current = Handle::try_current();
        let outcome = match &current {
            Ok(handle) => {
                let _ = self.tracker.spawn_on(f, handle);
                Ok(())
            },
            Err(_) => Err(SpawnError::NoRuntime(f)),
        };
        assert(spawn_outcome_on(self.tracker, current, f, outcome));
        assert(spawn_outcome_seen(self.tracker, closed, origin, f, outcome));
        outcome
    }

    /// Spawns each of `jobs` in turn, as `spawn_from` does, and reports on
    /// each in the same order. One job's refusal does not stop the next.
    pub fn spawn_all<F>(&self, origin: Origin, jobs: Vec<F>) -> (outcomes: Vec<
        Result<(), SpawnError<F>>,
    >) where F: Future + Send + 'static, F::Output: Send + 'static
        ensures
            outcomes@.len() == jobs@.len(),
            forall|i: int|
                0 <= i < jobs@.len() ==> spawn_outcome(
                    self.inner(),
                    origin,
                    jobs@[i],
                    #[trigger] outcomes@[i],
                ),
            forall|i: int|
                0 <= i < jobs@.len() ==> (#[trigger] outcomes@[i] matches Err(error)
                    ==> error.job() == jobs@[i]),
            !(origin is TopLevel) ==> forall|i: int|
                0 <= i < jobs@.len() ==> !(#[trigger] outcomes@[i] matches Err(
                    SpawnError::Closed(_),
                )),
    {
        let mut outcomes: Vec<Result<(), SpawnError<F>>> = Vec::new();
        for job in it: jobs.into_iter()
            invariant
                it.seq() == jobs@,
                outcomes@.len() == it.index(),
                forall|i: int|
                    0 <= i < it.index() ==> spawn_outcome(
                        self.inner(),
                        origin,
                        jobs@[i],
                        #[trigger] outcomes@[i],
                    ),
                forall|i: int|
                    0 <= i < it.index() ==> (#[trigger] outcomes@[i] matches Err(error)
                        ==> error.job() == jobs@[i]),
                !(origin is TopLevel) ==> forall|i: int|
                    0 <= i < it.index() ==> !(#[trigger] outcomes@[i] matches Err(
                        SpawnError::Closed(_),
                    )),
        {
            let outcome = self.spawn_from(origin, job);
            outcomes.push(outcome);
        }
        outcomes
    }

    /// Stops taking top-level jobs, by closing the tracker. Jobs already
    /// tracked run on.
    pub fn close(&self)
        ensures
            exists|newly: bool| #[trigger] call_ensures(TaskTracker::close, (&self.inner(),), newly),
    {
        let newly = self.tracker.close();
        assert(call_ensures(TaskTracker::close, (&self.inner(),), newly));
    }

    /// The closed flag as the tracker gives it now.
    pub fn is_closed(&self) -> (closed: bool)
        ensures
            call_ensures(TaskTracker::is_closed, (&self.inner(),), closed),
    {
        self.tracker.is_closed()
    }

    /// The number of jobs in flight as the tracker gives it now.
    pub fn len(&self) -> (in_flight: usize)
        ensures
            call_ensures(TaskTracker::len, (&self.inner(),), in_flight),
    {
        self.tracker.len()
    }

    /// What the tracker shows now: its closed flag, then its count.
    pub fn observe(&self) -> (seen: Observation)
        ensures
            call_ensures(TaskTracker::is_closed, (&self.inner(),), seen.closed),
            call_ensures(TaskTracker::len, (&self.inner(),), seen.in_flight),
    {
        Observation { closed: self.tracker.is_closed(), in_flight: self.tracker.len() }
    }

    /// The tracker itself, for the caller that awaits its drain.
    pub fn tracker(&self) -> (tracker: &TaskTracker)
        ensures
            *tracker == self.inner(),
    {
        &self.tracker
    }
}

impl Clone for Tasks {
    /// Another handle, on a clone of the tracker: both count the same jobs.
    fn clone(&self) -> (tasks: Self)
        ensures
            call_ensures(<TaskTracker as Clone>::clone, (&self.inner(),), tasks.inner()),
    {
        Tasks { tracker: self.tracker.clone() }
    }
}

impl Default for Tasks {
    fn default() -> Self {
        Tasks::new()
    }
}

/// One look at a tracker.
#[derive(Debug, PartialEq, Eq, Clone, Copy)]
pub struct Observation {
    pub closed: bool,
    pub in_flight: usize,
}

/// A look that shows a closed tracker with nothing in flight.
pub open spec fn quiet(seen: Observation) -> bool {
    seen.closed && seen.in_flight == 0
}

/// The run of quiet looks after one more look: a busy look ends the run, a
/// quiet one lengthens it. Runs are counted up to two.
pub open spec fn next_streak(streak: nat, seen: Observation) -> nat {
    if !quiet(seen) {
        0
    } else if streak >= 1 {
        2
    } else {
        1
    }
}

/// How many of the latest looks in `history` were quiet in a row, counted up
/// to two.
pub open spec fn streak_after(history: Seq<Observation>) -> nat
    decreases history.len(),
{
    if history.len() == 0 {
        0
    } else {
        next_streak(streak_after(history.drop_last()), history.last())
    }
}

/// Whether a wait that has made the looks in `history` may return.
pub open spec fn settled(history: Seq<Observation>) -> bool {
    streak_after(history) >= 2
}

/// What a waiter does after a look at the tracker.
#[derive(Debug, PartialEq, Eq, Clone, Copy)]
pub enum WaitStep {
    /// Wait for the next drain and look again.
    Again,
    /// Two looks in a row were quiet: return.
    Done,
}

/// The waiter's side of the barrier. A single quiet look can be a gap between
/// a job that finished and the successor it has already handed on, so the
/// waiter goes on until two looks in a row are quiet.
pub struct WaitLoop {
    streak: u8,
    looks: Ghost<Seq<Observation>>,
}

impl WaitLoop {
    #[verifier::type_invariant]
    spec fn well_formed(self) -> bool {
        self.streak as nat == streak_after(self.looks@)
    }

    /// The looks made so far, oldest first.
    pub closed spec fn history(&self) -> Seq<Observation> {
        self.looks@
    }

    /// The run of quiet looks that the history ends in, counted up to two.
    pub closed spec fn streak(&self) -> nat {
        streak_after(self.looks@)
    }

    /// A waiter that has not looked yet.
    pub fn new() -> (waiter: Self)
        ensures
            waiter.history() == Seq::<Observation>::empty(),
            waiter.streak() == 0,
    {
        WaitLoop { streak: 0, looks: Ghost(Seq::empty()) }
    }

    /// Takes one more look into account and says whether to go on waiting.
    pub fn observe(&mut self, seen: Observation) -> (step: WaitStep)
        ensures
            final(self).history() == old(self).history().push(seen),
            final(self).streak() == next_streak(old(self).streak(), seen),
            step is Done <==> settled(final(self).history()),
            step is Done <==> final(self).streak() >= 2,
    {
        proof {
            use_type_invariant(&*self);
        }
        let ghost before = self.looks@;
        let next: u8 = if !(seen.closed && seen.in_flight == 0) {
            0
        } else if self.streak >= 1 {
            2
        } else {
            1
        };
        proof {
            assert(before.push(seen).drop_last() =~= before);
        }
        *self = WaitLoop { streak: next, looks: Ghost(before.push(seen)) };
        if next >= 2 {
            WaitStep::Done
        } else {
            WaitStep::Again
        }
    }
}

/// A waiter's run of quiet looks is the one its history ends in.
pub proof fn law_streak_follows_history(waiter: WaitLoop)
    ensures
        waiter.streak() == streak_after(waiter.history()),
{
}

/// A wait returns exactly when its two latest looks were both quiet.
pub proof fn law_settled_iff_two_quiet_looks(history: Seq<Observation>)
    ensures
        settled(history) <==> history.len() >= 2 && quiet(history[history.len() - 1]) && quiet(
            history[history.len() - 2],
        ),
{
    reveal_with_fuel(streak_after, 3);
}

/// One busy look undoes every quiet look before it: the wait starts over.
pub proof fn law_busy_look_restarts(history: Seq<Observation>, seen: Observation)
    requires
        !quiet(seen),
    ensures
        streak_after(history.push(seen)) == 0,
        !settled(history.push(seen)),
{
}

} // verus!
