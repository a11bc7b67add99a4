use task_lifecycle::sleep_task::SleepTask;
use task_lifecycle::task_queue::{PollResult, PollingData, Task, TaskError, TaskKind, TaskQueue};

#[test]
fn test_timed_task_completes_after_duration() {
    let mut queue = TaskQueue::new();
    let id = queue.add_task(SleepTask::new(0, 100));
    let first = queue.poll_task(id, 0).unwrap();
    assert_eq!(
        first,
        PollResult::Pending(PollingData::Fraction { elapsed_ms: 0, total_ms: 100 })
    );
    let later = queue.poll_task(id, 150).unwrap();
    assert_eq!(later, PollResult::Completed);
}

#[test]
fn test_cancel_queued_task_then_poll() {
    let mut queue = TaskQueue::new();
    let id = queue.add_task(SleepTask::new(0, 100));
    let cancel_result = queue.remove_task(id, 0);
    assert_eq!(cancel_result, Ok(()));
    let poll_result = queue.poll_task(id, 10).unwrap();
    assert_eq!(poll_result, PollResult::Cancelled);
}

#[test]
fn test_conflicting_transitions() {
    let mut queue = TaskQueue::new();

    // Pausing a task that is already paused.
    let paused = queue.add_task(SleepTask::new(0, 500));
    queue.poll_task(paused, 0).unwrap();
    assert_eq!(queue.pause_task(paused, 50), Ok(()));
    assert_eq!(queue.pause_task(paused, 60), Err(TaskError::AlreadyPaused));

    // Resuming a task that is still queued: nothing to resume.
    let queued = queue.add_task(SleepTask::new(1, 500));
    assert_eq!(queue.resume_task(queued, 0), Err(TaskError::NotFound));

    // Cancelling a task that already completed.
    let completed = queue.add_task(SleepTask::new(2, 100));
    queue.poll_task(completed, 0).unwrap();
    assert_eq!(queue.poll_task(completed, 200).unwrap(), PollResult::Completed);
    assert_eq!(queue.remove_task(completed, 210), Err(TaskError::AlreadyCompleted));
}

#[test]
fn test_error_variants_each_reachable() {
    let mut queue = TaskQueue::new();
    let id = queue.add_task(SleepTask::new(0, 100));
    queue.poll_task(id, 0).unwrap();

    // A running task can be neither resumed nor polled into an error.
    assert_eq!(queue.resume_task(id, 10), Err(TaskError::AlreadyRunning));

    // After completion every transition reports the completed conflict.
    assert_eq!(queue.poll_task(id, 150).unwrap(), PollResult::Completed);
    assert_eq!(queue.pause_task(id, 160), Err(TaskError::AlreadyCompleted));
    assert_eq!(queue.resume_task(id, 160), Err(TaskError::AlreadyCompleted));

    // After cancellation every transition reports the cancelled conflict.
    let other = queue.add_task(SleepTask::new(1, 100));
    assert_eq!(queue.remove_task(other, 0), Ok(()));
    assert_eq!(queue.remove_task(other, 5), Err(TaskError::AlreadyCancelled));
    assert_eq!(queue.pause_task(other, 5), Err(TaskError::AlreadyCancelled));
    assert_eq!(queue.resume_task(other, 5), Err(TaskError::AlreadyCancelled));

    // Unknown identities always report NotFound.
    assert_eq!(queue.poll_task(99, 0), Err(TaskError::NotFound));
}

#[test]
fn test_terminal_outcomes_idempotent() {
    let mut queue = TaskQueue::new();

    let done = queue.add_task(SleepTask::new(0, 100));
    queue.poll_task(done, 0).unwrap();
    assert_eq!(queue.poll_task(done, 150).unwrap(), PollResult::Completed);
    assert_eq!(queue.poll_task(done, 151).unwrap(), PollResult::Completed);
    assert_eq!(queue.poll_task(done, 10_000).unwrap(), PollResult::Completed);

    let gone = queue.add_task(SleepTask::new(1, 100));
    assert_eq!(queue.remove_task(gone, 0), Ok(()));
    assert_eq!(queue.poll_task(gone, 1).unwrap(), PollResult::Cancelled);
    assert_eq!(queue.poll_task(gone, 10_000).unwrap(), PollResult::Cancelled);
}

#[test]
fn test_progress_always_in_unit_interval() {
    let mut queue = TaskQueue::new();
    let id = queue.add_task(SleepTask::new(0, 300));
    let times: [u64; 6] = [0, 1, 150, 299, 300, 500];
    for now_ms in times {
        match queue.poll_task(id, now_ms).unwrap() {
            PollResult::Pending(PollingData::Fraction { elapsed_ms, total_ms })
            | PollResult::Paused(PollingData::Fraction { elapsed_ms, total_ms }) => {
                assert!(elapsed_ms <= total_ms);
                assert!(total_ms >= 1);
            }
            PollResult::Completed | PollResult::Cancelled => {}
        }
    }
}

#[test]
fn test_sequential_registration_identities() {
    let mut queue = TaskQueue::new();
    let first = queue.add_task(SleepTask::new(0, 100));
    let second = queue.add_task(SleepTask::new(0, 200));
    let third = queue.add_task(SleepTask::new(0, 300));
    assert_eq!(first, 0);
    assert_eq!(second, 1);
    assert_eq!(third, 2);
}

#[test]
fn test_unregistered_identity_not_found() {
    let mut queue = TaskQueue::<SleepTask>::new();
    assert_eq!(queue.poll_task(0, 0), Err(TaskError::NotFound));
    assert_eq!(queue.pause_task(3, 0), Err(TaskError::NotFound));
    assert_eq!(queue.resume_task(7, 0), Err(TaskError::NotFound));
    let id = queue.add_task(SleepTask::new(0, 100));
    assert!(queue.poll_task(id, 0).is_ok());
    assert_eq!(queue.poll_task(id + 1, 0), Err(TaskError::NotFound));
}

#[test]
fn test_zero_duration_completes_immediately() {
    let mut queue = TaskQueue::new();
    let id = queue.add_task(SleepTask::new(0, 0));
    assert_eq!(queue.poll_task(id, 0).unwrap(), PollResult::Completed);
    assert_eq!(queue.poll_task(id, 1).unwrap(), PollResult::Completed);
}

#[test]
fn test_pause_while_queued() {
    let mut queue = TaskQueue::new();
    let id = queue.add_task(SleepTask::new(0, 500));
    assert_eq!(queue.pause_task(id, 10), Ok(()));
    assert_eq!(
        queue.poll_task(id, 20).unwrap(),
        PollResult::Paused(PollingData::Fraction { elapsed_ms: 0, total_ms: 500 })
    );
    assert_eq!(queue.resume_task(id, 30), Ok(()));
    let running = queue.poll_task(id, 130).unwrap();
    assert_eq!(
        running,
        PollResult::Pending(PollingData::Fraction { elapsed_ms: 100, total_ms: 500 })
    );
}

#[test]
fn test_running_progress_is_elapsed_over_total() {
    let mut queue = TaskQueue::new();
    let id = queue.add_task(SleepTask::new(0, 400));
    queue.poll_task(id, 0).unwrap();
    assert_eq!(
        queue.poll_task(id, 100).unwrap(),
        PollResult::Pending(PollingData::Fraction { elapsed_ms: 100, total_ms: 400 })
    );
    assert_eq!(
        queue.poll_task(id, 399).unwrap(),
        PollResult::Pending(PollingData::Fraction { elapsed_ms: 399, total_ms: 400 })
    );
}

#[test]
fn test_pause_does_not_extend_background_deadline() {
    // The background operation always runs for the original duration:
    // pausing freezes the displayed progress but not the completion time.
    let mut queue = TaskQueue::new();
    let id = queue.add_task(SleepTask::new(0, 100));
    queue.poll_task(id, 0).unwrap();
    assert_eq!(queue.pause_task(id, 50), Ok(()));
    assert_eq!(queue.resume_task(id, 60), Ok(()));
    // Only 90 ms of running time have accumulated, but the deadline armed
    // at the first poll fires at 100 ms.
    assert_eq!(queue.poll_task(id, 100).unwrap(), PollResult::Completed);
}

#[test]
fn test_second_pause_overwrites_banked_time() {
    // Pausing banks the time since the last start or resume, replacing the
    // earlier bank rather than adding to it.
    let mut queue = TaskQueue::new();
    let id = queue.add_task(SleepTask::new(0, 1000));
    queue.poll_task(id, 0).unwrap();
    assert_eq!(queue.pause_task(id, 100), Ok(()));
    assert_eq!(queue.resume_task(id, 200), Ok(()));
    assert_eq!(queue.pause_task(id, 500), Ok(()));
    assert_eq!(
        queue.poll_task(id, 500).unwrap(),
        PollResult::Paused(PollingData::Fraction { elapsed_ms: 300, total_ms: 1000 })
    );
}

#[test]
fn test_identity_and_kind() {
    let task = SleepTask::new(5, 100);
    assert_eq!(task.id(), Ok(5));
    assert_eq!(task.kind(), "SleepTask");
    assert_eq!(Task::kind(&task), TaskKind::Sleep);
    assert_eq!(TaskKind::Sleep.label(), "Sleep task");

    let mut unassigned = SleepTask::new_unassigned(100);
    assert_eq!(unassigned.id(), Err(TaskError::IdUsizeIsNone));
    unassigned.set_id(9);
    assert_eq!(unassigned.id(), Ok(9));
}

#[test]
fn test_registry_assigns_identity_on_registration() {
    let mut queue = TaskQueue::new();
    let id = queue.add_task(SleepTask::new_unassigned(100));
    assert_eq!(id, 0);
    let second = queue.add_task(SleepTask::new(42, 100));
    // The registry overrides whatever identity the task was built with.
    assert_eq!(second, 1);
}

#[test]
fn test_poll_is_terminal_classification() {
    let pending = PollResult::Pending(PollingData::Fraction { elapsed_ms: 1, total_ms: 2 });
    let paused = PollResult::Paused(PollingData::Fraction { elapsed_ms: 1, total_ms: 2 });
    assert!(!pending.is_terminal());
    assert!(!paused.is_terminal());
    assert!(PollResult::Completed.is_terminal());
    assert!(PollResult::Cancelled.is_terminal());
}

#[test]
fn test_huge_duration_saturates_at_numeric_limit() {
    let mut queue = TaskQueue::new();
    let id = queue.add_task(SleepTask::new(0, u64::MAX));
    assert_eq!(
        queue.poll_task(id, 10).unwrap(),
        PollResult::Pending(PollingData::Fraction { elapsed_ms: 0, total_ms: u64::MAX })
    );
    assert_eq!(
        queue.poll_task(id, 1000).unwrap(),
        PollResult::Pending(PollingData::Fraction { elapsed_ms: 990, total_ms: u64::MAX })
    );
    // The background deadline saturates at the numeric limit instead of
    // wrapping around.
    assert_eq!(queue.poll_task(id, u64::MAX).unwrap(), PollResult::Completed);
}
