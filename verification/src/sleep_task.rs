//! The reference task: a unit of work that finishes after a fixed duration.
//!
//! The background operation is a single timed sleep,
//! armed exactly once at the first poll and always running for the original
//! configured duration: it flips the status from `Running` to `Completed`
//! when it fires, is not re-armed or extended by pauses, and cancellation
//! does not preempt it. Here that operation is represented by its deadline
//! (`deadline_ms`) and a fired flag, and every lifecycle call first settles
//! any firing that fell due by its clock reading; displayed progress and
//! actual completion time are therefore two loosely coupled mechanisms, and
//! a task paused across its deadline completes at the original deadline
//! once resumed, exactly as the background sleep would have it.

use vstd::prelude::*;

use crate::task_queue::{
    cancel_outcome_for, fraction_spec, pause_outcome_for, PollResult, PollingData, Task,
    TaskError, TaskKind, TaskQueue, TaskStatus,
};

verus! {

/// A task that completes after a fixed duration, with pause, resume and
/// cancel. All fields are plain values; the whole lifecycle is a
/// deterministic function of the clock readings handed to the calls.
pub struct SleepTask {
    /// The identity under which the registry tracks the task, once assigned.
    pub id: Option<usize>,
    /// The configured total duration of the unit of work, in milliseconds.
    pub duration_ms: u64,
    /// The current lifecycle status.
    pub status: TaskStatus,
    /// Clock reading at which the operation began or was last resumed.
    pub start_ms: Option<u64>,
    /// Elapsed time banked at the moment of the most recent pause; zero
    /// until the first pause.
    pub paused_ms: u64,
    /// The instant at which the background timed operation fires, set when
    /// the operation is armed at the first poll. It stands for the retained
    /// handle of the spawned operation.
    pub deadline_ms: Option<u64>,
    /// Whether the background operation has already fired.
    pub timer_fired: bool,
}

/// Internal bookkeeping invariant: a queued task has started nothing yet,
/// a running task has a start reading, and the timer can only have fired
/// once it was armed.
pub open spec fn task_wf(t: SleepTask) -> bool {
    &&& (t.status is Queued ==> t.start_ms is None && t.deadline_ms is None && t.paused_ms == 0
        && !t.timer_fired)
    &&& (t.status is Running ==> t.start_ms is Some)
    &&& (t.timer_fired ==> t.deadline_ms is Some)
}

/// The background operation falls due at `now_ms`: it was armed, has not
/// fired yet, and its deadline has passed.
pub open spec fn timer_due(t: SleepTask, now_ms: u64) -> bool {
    t.deadline_ms matches Some(d) && !t.timer_fired && now_ms >= d
}

/// The task once any background firing due by `now_ms` is accounted for:
/// the timer flips `Running` to `Completed`; in any other status it fires
/// without effect on the status (a task paused across its deadline stays
/// paused, a cancelled one stays cancelled).
pub open spec fn settled(t: SleepTask, now_ms: u64) -> SleepTask {
    if timer_due(t, now_ms) {
        if t.status is Running {
            SleepTask { status: TaskStatus::Completed, timer_fired: true, ..t }
        } else {
            SleepTask { timer_fired: true, ..t }
        }
    } else {
        t
    }
}

/// Elapsed running time at `now_ms`: time since the last start or resume,
/// plus the banked pause credit, saturating at the numeric limits.
pub open spec fn elapsed_at(t: SleepTask, now_ms: u64) -> u64 {
    now_ms.saturating_sub(t.start_ms->0).saturating_add(t.paused_ms)
}

/// The task as it stands after a poll at `now_ms`. The first poll of a
/// queued task arms the background operation and records the start; a
/// queued task with a zero duration completes immediately instead of
/// arming an operation whose progress would be undefined. Every other
/// status is left as settled: polling only observes.
pub open spec fn poll_next(t: SleepTask, now_ms: u64) -> SleepTask {
    let s = settled(t, now_ms);
    if s.status is Queued {
        if s.duration_ms == 0 {
            SleepTask { status: TaskStatus::Completed, ..s }
        } else {
            SleepTask {
                status: TaskStatus::Running,
                start_ms: Some(now_ms),
                deadline_ms: Some(now_ms.saturating_add(s.duration_ms)),
                ..s
            }
        }
    } else {
        s
    }
}

/// The outcome a poll at `now_ms` reports: the first poll reports progress
/// zero; a running task reports its recomputed progress, or `Completed`
/// once that progress reaches one (while staying logically running until
/// the background operation also observes completion); a paused task
/// reports its progress frozen at the banked value; terminal statuses are
/// reported idempotently.
pub open spec fn poll_outcome_of(t: SleepTask, now_ms: u64) -> PollResult {
    let s = settled(t, now_ms);
    match s.status {
        TaskStatus::Queued => if s.duration_ms == 0 {
            PollResult::Completed
        } else {
            PollResult::Pending(fraction_spec(0, s.duration_ms))
        },
        TaskStatus::Running => if elapsed_at(s, now_ms) >= s.duration_ms {
            PollResult::Completed
        } else {
            PollResult::Pending(fraction_spec(elapsed_at(s, now_ms), s.duration_ms))
        },
        TaskStatus::Paused => PollResult::Paused(fraction_spec(s.paused_ms, s.duration_ms)),
        TaskStatus::Completed => PollResult::Completed,
        TaskStatus::Cancelled => PollResult::Cancelled,
    }
}

/// The task as it stands after a cancel request at `now_ms`: any
/// non-terminal status becomes `Cancelled`; a terminal status is left
/// unchanged. The background operation is not preempted: an armed deadline
/// stays armed, but its firing no longer changes the status.
pub open spec fn cancel_next(t: SleepTask, now_ms: u64) -> SleepTask {
    let s = settled(t, now_ms);
    if s.status.is_terminal() {
        s
    } else {
        SleepTask { status: TaskStatus::Cancelled, ..s }
    }
}

/// The task as it stands after a pause request at `now_ms`: a running task
/// banks its elapsed time since the last start or resume and freezes; a
/// queued task freezes with nothing banked; any other status is left as
/// settled.
pub open spec fn pause_next(t: SleepTask, now_ms: u64) -> SleepTask {
    let s = settled(t, now_ms);
    match s.status {
        TaskStatus::Queued => SleepTask { status: TaskStatus::Paused, ..s },
        TaskStatus::Running => SleepTask {
            status: TaskStatus::Paused,
            paused_ms: now_ms.saturating_sub(s.start_ms->0),
            ..s
        },
        _ => s,
    }
}

/// The task as it stands after a resume request at `now_ms`: a paused task
/// starts running again from a fresh start reading, so later progress is
/// the time since the resume plus the banked pause credit; any other
/// status is left as settled.
pub open spec fn resume_next(t: SleepTask, now_ms: u64) -> SleepTask {
    let s = settled(t, now_ms);
    if s.status is Paused {
        SleepTask { status: TaskStatus::Running, start_ms: Some(now_ms), ..s }
    } else {
        s
    }
}

/// Terminal outcomes are idempotent: once a poll reports `Completed` or
/// `Cancelled`, every later poll (the clock reading a poll hands in never
/// runs backwards) reports the same terminal outcome, and the recorded
/// status permits no further transition.
pub proof fn lemma_terminal_poll_idempotent(t: SleepTask, now1_ms: u64, now2_ms: u64)
    requires
        task_wf(t),
        now1_ms <= now2_ms,
        poll_outcome_of(t, now1_ms).spec_is_terminal(),
    ensures
        poll_outcome_of(poll_next(t, now1_ms), now2_ms) == poll_outcome_of(t, now1_ms),
{
}

/// The same idempotence at the registry: once `TaskQueue::poll_task`
/// reports a terminal outcome for a registered identity, every later poll
/// on that identity reports the same terminal outcome.
pub proof fn lemma_registry_terminal_poll_idempotent(
    q: TaskQueue<SleepTask>,
    id: usize,
    now1_ms: u64,
    now2_ms: u64,
)
    requires
        q.wf(),
        q.contains_id(id),
        now1_ms <= now2_ms,
        q.tasks_seq()[id as int].poll_outcome(now1_ms).spec_is_terminal(),
    ensures
        q.tasks_seq()[id as int].polled(now1_ms).poll_outcome(now2_ms)
            == q.tasks_seq()[id as int].poll_outcome(now1_ms),
{
    lemma_terminal_poll_idempotent(q.tasks_seq()[id as int], now1_ms, now2_ms);
}

/// A `pause` or `cancel` that succeeds is visible to every later poll on
/// the same task: after a successful pause every poll reports `Paused`
/// (even once the background deadline passes, which cannot complete a
/// paused task), and after a successful cancel every poll reports
/// `Cancelled`.
pub proof fn lemma_transition_visible_to_poll(t: SleepTask, now1_ms: u64, now2_ms: u64)
    requires
        task_wf(t),
    ensures
        pause_outcome_for(settled(t, now1_ms).status) is Ok ==> poll_outcome_of(
            pause_next(t, now1_ms),
            now2_ms,
        ) is Paused,
        cancel_outcome_for(settled(t, now1_ms).status) is Ok ==> poll_outcome_of(
            cancel_next(t, now1_ms),
            now2_ms,
        ) is Cancelled,
{
}

/// A terminal status permits no further transition: polling, cancelling,
/// pausing or resuming a task whose status is `Completed` or `Cancelled`
/// leaves that status exactly as it is, whatever the clock reads.
pub proof fn lemma_terminal_status_sticky(t: SleepTask, now_ms: u64)
    requires
        task_wf(t),
        t.status.is_terminal(),
    ensures
        poll_next(t, now_ms).status == t.status,
        cancel_next(t, now_ms).status == t.status,
        pause_next(t, now_ms).status == t.status,
        resume_next(t, now_ms).status == t.status,
{
}

impl SleepTask {
    /// Creates a task in `Queued` state with the given identity and total
    /// duration in milliseconds. Nothing is armed until the first poll.
    pub fn new(id: usize, duration_ms: u64) -> (t: SleepTask)
        ensures
            t == (SleepTask {
                id: Some(id),
                duration_ms,
                status: TaskStatus::Queued,
                start_ms: None,
                paused_ms: 0,
                deadline_ms: None,
                timer_fired: false,
            }),
            task_wf(t),
    {
        SleepTask {
            id: Some(id),
            duration_ms,
            status: TaskStatus::Queued,
            start_ms: None,
            paused_ms: 0,
            deadline_ms: None,
            timer_fired: false,
        }
    }

    /// Creates a task in `Queued` state with no identity assigned yet; the
    /// registry assigns one at registration time.
    pub fn new_unassigned(duration_ms: u64) -> (t: SleepTask)
        ensures
            t == (SleepTask {
                id: None,
                duration_ms,
                status: TaskStatus::Queued,
                start_ms: None,
                paused_ms: 0,
                deadline_ms: None,
                timer_fired: false,
            }),
            task_wf(t),
    {
        SleepTask {
            id: None,
            duration_ms,
            status: TaskStatus::Queued,
            start_ms: None,
            paused_ms: 0,
            deadline_ms: None,
            timer_fired: false,
        }
    }

    /// A human-readable name of the task type.
    pub fn kind(&self) -> (s: &'static str)
        ensures
            s@ == "SleepTask"@,
    {
        "SleepTask"
    }

    /// Accounts for a background firing that fell due by `now_ms`.
    fn settle(&mut self, now_ms: u64)
        ensures
            *final(self) == settled(*old(self), now_ms),
    {
        match self.deadline_ms {
            Some(d) => {
                if !self.timer_fired && now_ms >= d {
                    self.timer_fired = true;
                    if self.status == TaskStatus::Running {
                        self.status = TaskStatus::Completed;
                    }
                }
            },
            None => {},
        }
    }
}

impl Task for SleepTask {
    open spec fn wf(&self) -> bool {
        task_wf(*self)
    }

    open spec fn id_of(&self) -> Option<usize> {
        self.id
    }

    open spec fn with_id(&self, id: usize) -> Self {
        SleepTask { id: Some(id), ..*self }
    }

    open spec fn status_at(&self, now_ms: u64) -> TaskStatus {
        settled(*self, now_ms).status
    }

    open spec fn polled(&self, now_ms: u64) -> Self {
        poll_next(*self, now_ms)
    }

    open spec fn poll_outcome(&self, now_ms: u64) -> PollResult {
        poll_outcome_of(*self, now_ms)
    }

    open spec fn after_cancel(&self, now_ms: u64) -> Self {
        cancel_next(*self, now_ms)
    }

    open spec fn after_pause(&self, now_ms: u64) -> Self {
        pause_next(*self, now_ms)
    }

    open spec fn after_resume(&self, now_ms: u64) -> Self {
        resume_next(*self, now_ms)
    }

    fn id(&self) -> (r: Result<usize, TaskError>) {
        match self.id {
            Some(i) => Ok(i),
            None => Err(TaskError::IdUsizeIsNone),
        }
    }

    fn set_id(&mut self, id: usize) {
        self.id = Some(id);
    }

    fn kind(&self) -> TaskKind {
        TaskKind::Sleep
    }

    fn poll(&mut self, now_ms: u64) -> (r: PollResult) {
        self.settle(now_ms);
        match self.status {
            TaskStatus::Queued => {
                if self.duration_ms == 0 {
                    self.status = TaskStatus::Completed;
                    PollResult::Completed
                } else {
                    self.status = TaskStatus::Running;
                    self.start_ms = Some(now_ms);
                    self.deadline_ms = Some(now_ms.saturating_add(self.duration_ms));
                    PollResult::Pending(PollingData::clamped(0, self.duration_ms))
                }
            },
            TaskStatus::Running => {
                let started: u64 = match self.start_ms {
                    Some(s) => s,
                    None => 0,
                };
                let elapsed: u64 = now_ms.saturating_sub(started).saturating_add(self.paused_ms);
                if elapsed >= self.duration_ms {
                    PollResult::Completed
                } else {
                    PollResult::Pending(PollingData::clamped(elapsed, self.duration_ms))
                }
            },
            TaskStatus::Paused => PollResult::Paused(
                PollingData::clamped(self.paused_ms, self.duration_ms),
            ),
            TaskStatus::Completed => PollResult::Completed,
            TaskStatus::Cancelled => PollResult::Cancelled,
        }
    }

    fn cancel(&mut self, now_ms: u64) -> (r: Result<(), TaskError>) {
        self.settle(now_ms);
        match self.status {
            TaskStatus::Queued => {
                self.status = TaskStatus::Cancelled;
                Ok(())
            },
            TaskStatus::Running => {
                self.status = TaskStatus::Cancelled;
                Ok(())
            },
            TaskStatus::Paused => {
                self.status = TaskStatus::Cancelled;
                Ok(())
            },
            TaskStatus::Completed => Err(TaskError::AlreadyCompleted),
            TaskStatus::Cancelled => Err(TaskError::AlreadyCancelled),
        }
    }

    fn pause(&mut self, now_ms: u64) -> (r: Result<(), TaskError>) {
        self.settle(now_ms);
        match self.status {
            TaskStatus::Queued => {
                self.status = TaskStatus::Paused;
                Ok(())
            },
            TaskStatus::Running => {
                let started: u64 = match self.start_ms {
                    Some(s) => s,
                    None => 0,
                };
                self.status = TaskStatus::Paused;
                self.paused_ms = now_ms.saturating_sub(started);
                Ok(())
            },
            TaskStatus::Paused => Err(TaskError::AlreadyPaused),
            TaskStatus::Completed => Err(TaskError::AlreadyCompleted),
            TaskStatus::Cancelled => Err(TaskError::AlreadyCancelled),
        }
    }

    fn resume(&mut self, now_ms: u64) -> (r: Result<(), TaskError>) {
        self.settle(now_ms);
        match self.status {
            TaskStatus::Queued => Err(TaskError::NotFound),
            TaskStatus::Running => Err(TaskError::AlreadyRunning),
            TaskStatus::Paused => {
                self.start_ms = Some(now_ms);
                self.status = TaskStatus::Running;
                Ok(())
            },
            TaskStatus::Completed => Err(TaskError::AlreadyCompleted),
            TaskStatus::Cancelled => Err(TaskError::AlreadyCancelled),
        }
    }
}

} // verus!

