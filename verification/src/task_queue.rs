//! The shared lifecycle vocabulary (statuses, outcomes, errors), the task
//! capability, and the registry that maps identities to tasks.
//!
//! A progress value is kept as an exact fraction of two millisecond counts
//! rather than as a floating-point number, so freezing and comparing progress
//! across pauses is exact.

use vstd::prelude::*;

verus! {

/// Failure kinds for lifecycle operations. Errors are pure values: every
/// operation returns either success or exactly one of these kinds, and an
/// invalid transition reports the conflict with the current status.
#[derive(Clone, Copy, Debug, PartialEq, Eq, Structural)]
pub enum TaskError {
    /// The identity is absent from the registry, or there is nothing to
    /// resume because the task was never started.
    NotFound,
    /// The requested transition conflicts with a `Running` status.
    AlreadyRunning,
    /// The requested transition conflicts with a `Paused` status.
    AlreadyPaused,
    /// The requested transition conflicts with a `Cancelled` status.
    AlreadyCancelled,
    /// The requested transition conflicts with a `Completed` status.
    AlreadyCompleted,
    /// The task was asked for its identity before one was assigned.
    IdUsizeIsNone,
}

/// The kinds of task the engine ships. New kinds are added by implementing
/// the [`Task`] capability, not by extending the registry.
#[derive(Clone, Copy, Debug, PartialEq, Eq, Structural)]
pub enum TaskKind {
    Sleep,
}

impl TaskKind {
    /// A human-readable label for the kind.
    pub fn label(&self) -> (s: &'static str)
        ensures
            s@ == "Sleep task"@,
    {
        match self {
            TaskKind::Sleep => "Sleep task",
        }
    }
}

/// The payload of a non-terminal poll outcome: progress as the exact
/// fraction `elapsed_ms / total_ms`. Both counts are in milliseconds;
/// a fraction built by [`PollingData::clamped`] always lies in `[0, 1]`.
#[derive(Clone, Copy, Debug, PartialEq, Eq, Structural)]
pub enum PollingData {
    Fraction { elapsed_ms: u64, total_ms: u64 },
}

impl PollingData {
    /// The fraction is a well-defined progress value in `[0, 1]`.
    pub open spec fn in_unit_interval(self) -> bool {
        match self {
            PollingData::Fraction { elapsed_ms, total_ms } => elapsed_ms <= total_ms
                && total_ms >= 1,
        }
    }

    /// Builds the progress fraction `elapsed_ms / total_ms`, clamped into
    /// `[0, 1]`. A total of zero would leave the fraction undefined, so it
    /// is treated as immediate completion (progress one).
    pub fn clamped(elapsed_ms: u64, total_ms: u64) -> (d: PollingData)
        ensures
            d == fraction_spec(elapsed_ms, total_ms),
            d.in_unit_interval(),
    {
        if total_ms == 0 {
            PollingData::Fraction { elapsed_ms: 1, total_ms: 1 }
        } else if elapsed_ms <= total_ms {
            PollingData::Fraction { elapsed_ms, total_ms }
        } else {
            PollingData::Fraction { elapsed_ms: total_ms, total_ms }
        }
    }
}

/// The progress fraction `elapsed_ms / total_ms` clamped into `[0, 1]`,
/// with a total of zero treated as immediate completion.
pub open spec fn fraction_spec(elapsed_ms: u64, total_ms: u64) -> PollingData {
    if total_ms == 0 {
        PollingData::Fraction { elapsed_ms: 1, total_ms: 1 }
    } else if elapsed_ms <= total_ms {
        PollingData::Fraction { elapsed_ms, total_ms }
    } else {
        PollingData::Fraction { elapsed_ms: total_ms, total_ms }
    }
}

/// The non-blocking snapshot a poll returns. It is a value, not stored:
/// `Pending` and `Paused` carry the current progress; `Completed` and
/// `Cancelled` are terminal and are reported idempotently.
#[derive(Clone, Copy, Debug, PartialEq, Eq, Structural)]
pub enum PollResult {
    Pending(PollingData),
    Paused(PollingData),
    Completed,
    Cancelled,
}

impl PollResult {
    /// Whether this outcome is terminal (`Completed` or `Cancelled`).
    pub open spec fn spec_is_terminal(self) -> bool {
        self is Completed || self is Cancelled
    }

    /// Whether this outcome is terminal. A completion observer keeps polling
    /// until this returns true and then signals its waiter exactly once.
    pub fn is_terminal(&self) -> (b: bool)
        ensures
            b == self.spec_is_terminal(),
    {
        match self {
            PollResult::Completed => true,
            PollResult::Cancelled => true,
            PollResult::Pending(_) => false,
            PollResult::Paused(_) => false,
        }
    }
}

/// The lifecycle states of a task. Transitions are monotonic except for the
/// `Running`/`Paused` cycle, which may repeat; `Completed` and `Cancelled`
/// are terminal and permit no further transition.
#[derive(Clone, Copy, Debug, PartialEq, Eq, Structural)]
pub enum TaskStatus {
    Queued,
    Running,
    Paused,
    Completed,
    Cancelled,
}

impl TaskStatus {
    /// Whether the status is terminal (`Completed` or `Cancelled`).
    pub open spec fn is_terminal(self) -> bool {
        self is Completed || self is Cancelled
    }
}

/// The outcome `cancel` owes for a task whose observable status is `st`:
/// success from any non-terminal status, the matching conflict otherwise.
pub open spec fn cancel_outcome_for(st: TaskStatus) -> Result<(), TaskError> {
    match st {
        TaskStatus::Queued => Ok(()),
        TaskStatus::Running => Ok(()),
        TaskStatus::Paused => Ok(()),
        TaskStatus::Completed => Err(TaskError::AlreadyCompleted),
        TaskStatus::Cancelled => Err(TaskError::AlreadyCancelled),
    }
}

/// The outcome `pause` owes for a task whose observable status is `st`:
/// success from `Queued` or `Running`, the matching conflict otherwise.
pub open spec fn pause_outcome_for(st: TaskStatus) -> Result<(), TaskError> {
    match st {
        TaskStatus::Queued => Ok(()),
        TaskStatus::Running => Ok(()),
        TaskStatus::Paused => Err(TaskError::AlreadyPaused),
        TaskStatus::Completed => Err(TaskError::AlreadyCompleted),
        TaskStatus::Cancelled => Err(TaskError::AlreadyCancelled),
    }
}

/// The outcome `resume` owes for a task whose observable status is `st`:
/// success only from `Paused`; a still-`Queued` task has nothing to resume.
pub open spec fn resume_outcome_for(st: TaskStatus) -> Result<(), TaskError> {
    match st {
        TaskStatus::Queued => Err(TaskError::NotFound),
        TaskStatus::Running => Err(TaskError::AlreadyRunning),
        TaskStatus::Paused => Ok(()),
        TaskStatus::Completed => Err(TaskError::AlreadyCompleted),
        TaskStatus::Cancelled => Err(TaskError::AlreadyCancelled),
    }
}

/// The capability any work item must implement to be tracked by the
/// registry. It is the sole coupling between the registry and heterogeneous
/// task kinds.
///
/// Every lifecycle call takes the current clock reading `now_ms`
/// (milliseconds on a monotonic clock); a background completion that fell
/// due by `now_ms` is accounted for before the call is interpreted, which is
/// what `status_at` describes. The contracts pin down the outcome of every
/// call as a function of that observable status, exactly as the lifecycle
/// demands: terminal states are sticky, progress values lie in `[0, 1]`,
/// and each invalid transition yields its matching error.
pub trait Task: Sized {
    /// Well-formedness of the task's internal bookkeeping; constructors
    /// establish it and every lifecycle call preserves it.
    spec fn wf(&self) -> bool;

    /// The identity under which the task is tracked, if one was assigned.
    spec fn id_of(&self) -> Option<usize>;

    /// The task as it stands after `set_id`.
    spec fn with_id(&self, id: usize) -> Self;

    /// The lifecycle status observable at `now_ms`, once any background
    /// completion due by `now_ms` is accounted for.
    spec fn status_at(&self, now_ms: u64) -> TaskStatus;

    /// The task as it stands after a poll at `now_ms`.
    spec fn polled(&self, now_ms: u64) -> Self;

    /// The outcome a poll at `now_ms` reports.
    spec fn poll_outcome(&self, now_ms: u64) -> PollResult;

    /// The task as it stands after a cancel request at `now_ms`.
    spec fn after_cancel(&self, now_ms: u64) -> Self;

    /// The task as it stands after a pause request at `now_ms`.
    spec fn after_pause(&self, now_ms: u64) -> Self;

    /// The task as it stands after a resume request at `now_ms`.
    spec fn after_resume(&self, now_ms: u64) -> Self;

    /// The identity under which the task is tracked, or the
    /// identity-assignment error if none was assigned yet.
    fn id(&self) -> (r: Result<usize, TaskError>)
        ensures
            r == (match self.id_of() {
                Some(i) => Result::<usize, TaskError>::Ok(i),
                None => Result::<usize, TaskError>::Err(TaskError::IdUsizeIsNone),
            }),
    ;

    /// Assigns the identity; called by the registry at registration time.
    fn set_id(&mut self, id: usize)
        requires
            old(self).wf(),
        ensures
            final(self).wf(),
            *final(self) == old(self).with_id(id),
            final(self).id_of() == Some(id),
    ;

    /// The kind of the task.
    fn kind(&self) -> TaskKind;

    /// Non-blocking progress query; safe to call arbitrarily often. After a
    /// terminal status is reached it keeps returning the same terminal
    /// outcome, and every reported progress fraction lies in `[0, 1]`.
    fn poll(&mut self, now_ms: u64) -> (r: PollResult)
        requires
            old(self).wf(),
        ensures
            final(self).wf(),
            *final(self) == old(self).polled(now_ms),
            r == old(self).poll_outcome(now_ms),
            old(self).status_at(now_ms) is Completed ==> r is Completed
                && final(self).status_at(now_ms) is Completed,
            old(self).status_at(now_ms) is Cancelled ==> r is Cancelled
                && final(self).status_at(now_ms) is Cancelled,
            (r matches PollResult::Pending(d) ==> d.in_unit_interval()),
            (r matches PollResult::Paused(d) ==> d.in_unit_interval()),
    ;

    /// Requests cancellation: succeeds from any non-terminal status and the
    /// task then reads `Cancelled`; fails with the matching conflict from a
    /// terminal status, which is left unchanged.
    fn cancel(&mut self, now_ms: u64) -> (r: Result<(), TaskError>)
        requires
            old(self).wf(),
        ensures
            final(self).wf(),
            *final(self) == old(self).after_cancel(now_ms),
            r == cancel_outcome_for(old(self).status_at(now_ms)),
            final(self).status_at(now_ms) == (if r is Ok {
                TaskStatus::Cancelled
            } else {
                old(self).status_at(now_ms)
            }),
    ;

    /// Requests a pause: succeeds from `Queued` or `Running` and the task
    /// then reads `Paused`; fails with the matching conflict otherwise,
    /// leaving the observable status unchanged.
    fn pause(&mut self, now_ms: u64) -> (r: Result<(), TaskError>)
        requires
            old(self).wf(),
        ensures
            final(self).wf(),
            *final(self) == old(self).after_pause(now_ms),
            r == pause_outcome_for(old(self).status_at(now_ms)),
            final(self).status_at(now_ms) == (if r is Ok {
                TaskStatus::Paused
            } else {
                old(self).status_at(now_ms)
            }),
    ;

    /// Requests a resume: succeeds only from `Paused` and the task then
    /// reads `Running`; fails with the matching error otherwise, leaving
    /// the observable status unchanged.
    fn resume(&mut self, now_ms: u64) -> (r: Result<(), TaskError>)
        requires
            old(self).wf(),
        ensures
            final(self).wf(),
            *final(self) == old(self).after_resume(now_ms),
            r == resume_outcome_for(old(self).status_at(now_ms)),
            final(self).status_at(now_ms) == (if r is Ok {
                TaskStatus::Running
            } else {
                old(self).status_at(now_ms)
            }),
    ;
}

/// The registry that a registration leaves behind: the task, with the next
/// free identity assigned, appended under that identity.
pub open spec fn registered<T: Task>(q: Seq<T>, t: T) -> Seq<T> {
    q.push(t.with_id(q.len() as usize))
}

/// The identity a registration into registry contents `q` assigns: the
/// monotonic counter, which equals the number of tasks ever registered
/// because entries are never deleted.
pub open spec fn registration_id<T: Task>(q: Seq<T>) -> int {
    q.len() as int
}

/// The identities assigned by a run of sequential registrations into a
/// registry whose contents are `q`: the first registration is assigned
/// `registration_id(q)`, each later one the identity of the registry as it
/// then stands.
pub open spec fn ids_of_registrations<T: Task>(q: Seq<T>, ts: Seq<T>) -> Seq<int>
    decreases ts.len(),
{
    if ts.len() == 0 {
        Seq::<int>::empty()
    } else {
        seq![registration_id(q)] + ids_of_registrations(registered(q, ts[0]), ts.drop_first())
    }
}

/// Registering `n` tasks into a registry already holding `q` yields `n`
/// distinct, strictly increasing identities with no gaps under sequential
/// registration: the `i`-th registration is assigned identity
/// `q.len() + i`. Each registration matches [`TaskQueue::add_task`], whose
/// contract returns `registration_id` of the contents and appends as
/// `registered` does.
pub proof fn lemma_registration_ids<T: Task>(q: Seq<T>, ts: Seq<T>)
    ensures
        ids_of_registrations(q, ts).len() == ts.len(),
        forall|i: int|
            0 <= i < ts.len() ==> #[trigger] ids_of_registrations(q, ts)[i] == q.len() + i,
        forall|i: int, j: int|
            0 <= i < j < ts.len() ==> ids_of_registrations(q, ts)[i] < ids_of_registrations(
                q,
                ts,
            )[j],
        forall|i: int|
            0 <= i < ts.len() - 1 ==> #[trigger] ids_of_registrations(q, ts)[i] + 1
                == ids_of_registrations(q, ts)[i + 1],
    decreases ts.len(),
{
    if ts.len() > 0 {
        lemma_registration_ids(registered(q, ts[0]), ts.drop_first());
        assert(registered(q, ts[0]).len() == q.len() + 1);
        assert forall|i: int| 0 <= i < ts.len() implies #[trigger] ids_of_registrations(q, ts)[i]
            == q.len() + i by {
            if i > 0 {
                assert(ids_of_registrations(q, ts)[i] == ids_of_registrations(
                    registered(q, ts[0]),
                    ts.drop_first(),
                )[i - 1]);
            }
        }
    }
}

/// A registry of tasks keyed by identity. Identities are assigned by a
/// monotonic counter starting at zero and are never reused; removal is the
/// cancelling variant (see [`TaskQueue::remove_task`]), so an identity is
/// registered exactly when it is below the counter, and the registry is a
/// dense map from identity to task.
///
/// The registry is driven from one place at a time (`&mut self`); a
/// program that shares it between threads puts it behind its own lock.
pub struct TaskQueue<T: Task> {
    tasks: Vec<T>,
}

impl<T: Task> TaskQueue<T> {
    /// The registry contents: the task registered under identity `i` is at
    /// position `i`.
    pub closed spec fn tasks_seq(&self) -> Seq<T> {
        self.tasks@
    }

    /// Every registered task is well formed.
    pub open spec fn wf(&self) -> bool {
        forall|i: int| 0 <= i < self.tasks_seq().len() ==> (#[trigger] self.tasks_seq()[i]).wf()
    }

    /// Whether `id` is a registered identity.
    pub open spec fn contains_id(&self, id: usize) -> bool {
        id < self.tasks_seq().len()
    }

    /// Creates an empty registry whose identity counter starts at zero.
    pub fn new() -> (q: Self)
        ensures
            q.wf(),
            q.tasks_seq() == Seq::<T>::empty(),
    {
        TaskQueue { tasks: Vec::new() }
    }

    /// Registers a task: assigns the next identity, stores the task under
    /// it, and returns it. Identities are distinct, increasing and gapless
    /// under sequential registration (see [`lemma_registration_ids`]).
    pub fn add_task(&mut self, task: T) -> (id: usize)
        requires
            old(self).wf(),
            task.wf(),
        ensures
            final(self).wf(),
            id == registration_id(old(self).tasks_seq()),
            final(self).tasks_seq() == registered(old(self).tasks_seq(), task),
            final(self).contains_id(id),
            !old(self).contains_id(id),
    {
        let id: usize = self.tasks.len();
        let mut t = task;
        t.set_id(id);
        self.tasks.push(t);
        proof {
            assert forall|i: int| 0 <= i < self.tasks_seq().len() implies (
            #[trigger] self.tasks_seq()[i]).wf() by {
                if i < old(self).tasks_seq().len() {
                    assert(self.tasks_seq()[i] == old(self).tasks_seq()[i]);
                }
            }
        }
        id
    }

    /// Looks up the task registered under `id` and delegates the poll to
    /// it; an unregistered identity always fails with `NotFound` and
    /// changes nothing.
    pub fn poll_task(&mut self, id: usize, now_ms: u64) -> (r: Result<PollResult, TaskError>)
        requires
            old(self).wf(),
        ensures
            final(self).wf(),
            !old(self).contains_id(id) ==> r == Result::<PollResult, TaskError>::Err(
                TaskError::NotFound,
            ) && *final(self) == *old(self),
            old(self).contains_id(id) ==> r == Result::<PollResult, TaskError>::Ok(
                old(self).tasks_seq()[id as int].poll_outcome(now_ms),
            ) && final(self).tasks_seq() == old(self).tasks_seq().update(
                id as int,
                old(self).tasks_seq()[id as int].polled(now_ms),
            ),
    {
        if id < self.tasks.len() {
            proof {
                assert(old(self).tasks_seq()[id as int].wf());
            }
            let t = &mut self.tasks[id];
            let r = t.poll(now_ms);
            proof {
                assert forall|i: int| 0 <= i < self.tasks_seq().len() implies (
                #[trigger] self.tasks_seq()[i]).wf() by {
                    if i != id as int {
                        assert(self.tasks_seq()[i] == old(self).tasks_seq()[i]);
                    }
                }
            }
            Ok(r)
        } else {
            Err(TaskError::NotFound)
        }
    }

    /// Removes the task registered under `id` from service. This registry
    /// implements the cancelling variant of removal: the task is cancelled
    /// and its entry is kept as an auditable terminal record, which is also
    /// what keeps identities dense. The outcome is the task's own: `Ok`
    /// from any non-terminal status, the matching conflict from a terminal
    /// one, and `NotFound` for an unregistered identity.
    pub fn remove_task(&mut self, id: usize, now_ms: u64) -> (r: Result<(), TaskError>)
        requires
            old(self).wf(),
        ensures
            final(self).wf(),
            !old(self).contains_id(id) ==> r == Result::<(), TaskError>::Err(TaskError::NotFound)
                && *final(self) == *old(self),
            old(self).contains_id(id) ==> r == cancel_outcome_for(
                old(self).tasks_seq()[id as int].status_at(now_ms),
            ) && final(self).tasks_seq() == old(self).tasks_seq().update(
                id as int,
                old(self).tasks_seq()[id as int].after_cancel(now_ms),
            ),
    {
        if id < self.tasks.len() {
            proof {
                assert(old(self).tasks_seq()[id as int].wf());
            }
            let t = &mut self.tasks[id];
            let r = t.cancel(now_ms);
            proof {
                assert forall|i: int| 0 <= i < self.tasks_seq().len() implies (
                #[trigger] self.tasks_seq()[i]).wf() by {
                    if i != id as int {
                        assert(self.tasks_seq()[i] == old(self).tasks_seq()[i]);
                    }
                }
            }
            r
        } else {
            Err(TaskError::NotFound)
        }
    }

    /// Looks up the task registered under `id` and asks it to pause; an
    /// unregistered identity always fails with `NotFound` and changes
    /// nothing.
    pub fn pause_task(&mut self, id: usize, now_ms: u64) -> (r: Result<(), TaskError>)
        requires
            old(self).wf(),
        ensures
            final(self).wf(),
            !old(self).contains_id(id) ==> r == Result::<(), TaskError>::Err(TaskError::NotFound)
                && *final(self) == *old(self),
            old(self).contains_id(id) ==> r == pause_outcome_for(
                old(self).tasks_seq()[id as int].status_at(now_ms),
            ) && final(self).tasks_seq() == old(self).tasks_seq().update(
                id as int,
                old(self).tasks_seq()[id as int].after_pause(now_ms),
            ),
    {
        if id < self.tasks.len() {
            proof {
                assert(old(self).tasks_seq()[id as int].wf());
            }
            let t = &mut self.tasks[id];
            let r = t.pause(now_ms);
            proof {
                assert forall|i: int| 0 <= i < self.tasks_seq().len() implies (
                #[trigger] self.tasks_seq()[i]).wf() by {
                    if i != id as int {
                        assert(self.tasks_seq()[i] == old(self).tasks_seq()[i]);
                    }
                }
            }
            r
        } else {
            Err(TaskError::NotFound)
        }
    }

    /// Looks up the task registered under `id` and asks it to resume; an
    /// unregistered identity always fails with `NotFound` and changes
    /// nothing.
    pub fn resume_task(&mut self, id: usize, now_ms: u64) -> (r: Result<(), TaskError>)
        requires
            old(self).wf(),
        ensures
            final(self).wf(),
            !old(self).contains_id(id) ==> r == Result::<(), TaskError>::Err(TaskError::NotFound)
                && *final(self) == *old(self),
            old(self).contains_id(id) ==> r == resume_outcome_for(
                old(self).tasks_seq()[id as int].status_at(now_ms),
            ) && final(self).tasks_seq() == old(self).tasks_seq().update(
                id as int,
                old(self).tasks_seq()[id as int].after_resume(now_ms),
            ),
    {
        if id < self.tasks.len() {
            proof {
                assert(old(self).tasks_seq()[id as int].wf());
            }
            let t = &mut self.tasks[id];
            let r = t.resume(now_ms);
            proof {
                assert forall|i: int| 0 <= i < self.tasks_seq().len() implies (
                #[trigger] self.tasks_seq()[i]).wf() by {
                    if i != id as int {
                        assert(self.tasks_seq()[i] == old(self).tasks_seq()[i]);
                    }
                }
            }
            r
        } else {
            Err(TaskError::NotFound)
        }
    }
}

} // verus!
