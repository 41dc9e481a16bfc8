use semtools::error::JobError;
use semtools::task::{poll_task_completion, PollStep, RemoteTask, StatusReport, TaskState};

fn report(status: &str) -> StatusReport {
    StatusReport { status: status.to_string(), error: None }
}

fn failed_with(reason: &str) -> StatusReport {
    StatusReport { status: "failed".to_string(), error: Some(reason.to_string()) }
}

#[test]
fn submitted_task_has_made_no_poll() {
    let task = RemoteTask::submitted("t-1".to_string());
    assert_eq!(task.task_id, "t-1");
    assert_eq!(task.state, TaskState::Submitted);
    assert_eq!(task.error_message, None);
    assert_eq!(task.attempts, 0);
    assert!(!task.state.ended());
}

#[test]
fn final_states_end_polling() {
    assert!(TaskState::Completed.ended());
    assert!(TaskState::Failed.ended());
    assert!(TaskState::TimedOut.ended());
    assert!(!TaskState::Submitted.ended());
    assert!(!TaskState::Pending.ended());
    assert!(!TaskState::Running.ended());
}

#[test]
fn begin_poll_counts_attempts_up_to_the_ceiling() {
    let mut task = RemoteTask::submitted("t".to_string());
    assert!(task.begin_poll(2).is_ok());
    assert_eq!(task.attempts, 1);
    assert!(task.begin_poll(2).is_ok());
    assert_eq!(task.attempts, 2);
    let third = task.begin_poll(2);
    assert!(matches!(third, Err(JobError::TimeoutError)));
    assert_eq!(task.attempts, 2);
    assert_eq!(task.state, TaskState::TimedOut);
}

#[test]
fn zero_attempts_time_out_at_once() {
    let mut task = RemoteTask::submitted("t".to_string());
    assert!(matches!(task.begin_poll(0), Err(JobError::TimeoutError)));
    assert_eq!(task.state, TaskState::TimedOut);
    assert_eq!(task.attempts, 0);
}

#[test]
fn completed_status_asks_for_the_result() {
    let mut task = RemoteTask::submitted("t".to_string());
    let step = task.observe(&report("completed"), 5);
    assert!(matches!(step, PollStep::Fetch));
    assert_eq!(task.state, TaskState::Completed);
    assert_eq!(task.error_message, None);
}

#[test]
fn failed_status_carries_the_server_message() {
    let mut task = RemoteTask::submitted("t".to_string());
    let step = task.observe(&failed_with("out of memory"), 5);
    match step {
        PollStep::Fail(JobError::InvalidResponse(text)) => {
            assert_eq!(text, "Task failed: out of memory")
        }
        other => panic!("unexpected step {other:?}"),
    }
    assert_eq!(task.state, TaskState::Failed);
    assert_eq!(task.error_message, Some("out of memory".to_string()));
}

#[test]
fn failed_status_without_a_message_is_an_unknown_error() {
    let mut task = RemoteTask::submitted("t".to_string());
    let step = task.observe(&report("failed"), 5);
    match step {
        PollStep::Fail(JobError::InvalidResponse(text)) => {
            assert_eq!(text, "Task failed: Unknown error")
        }
        other => panic!("unexpected step {other:?}"),
    }
    assert_eq!(task.error_message, Some("Unknown error".to_string()));
}

#[test]
fn pending_and_running_wait_for_the_interval() {
    let mut task = RemoteTask::submitted("t".to_string());
    assert!(matches!(task.observe(&report("pending"), 5), PollStep::Wait(5)));
    assert_eq!(task.state, TaskState::Pending);
    assert!(matches!(task.observe(&report("running"), 7), PollStep::Wait(7)));
    assert_eq!(task.state, TaskState::Running);
    assert_eq!(task.attempts, 0);
}

#[test]
fn unknown_status_is_a_protocol_error() {
    let mut task = RemoteTask::submitted("t".to_string());
    let step = task.observe(&report("COMPLETED"), 5);
    match step {
        PollStep::Fail(JobError::InvalidResponse(text)) => {
            assert_eq!(text, "Unknown task status: COMPLETED")
        }
        other => panic!("unexpected step {other:?}"),
    }
    assert_eq!(task.state, TaskState::Failed);
    assert_eq!(task.error_message, None);
}

#[test]
fn empty_status_is_a_protocol_error() {
    let mut task = RemoteTask::submitted("t".to_string());
    let step = task.observe(&report(""), 5);
    assert!(matches!(
        step,
        PollStep::Fail(JobError::InvalidResponse(text)) if text == "Unknown task status: "
    ));
}

#[test]
fn task_that_never_ends_times_out() {
    let mut task = RemoteTask::submitted("t".to_string());
    let reports: Vec<StatusReport> =
        (0..60).map(|i| report(if i % 2 == 0 { "pending" } else { "running" })).collect();
    let end = poll_task_completion(&mut task, &reports, 60, 5);
    assert!(matches!(end, Some(Err(JobError::TimeoutError))));
    assert_eq!(task.state, TaskState::TimedOut);
    assert_eq!(task.attempts, 60);
}

#[test]
fn timeout_is_not_a_generic_error() {
    let mut task = RemoteTask::submitted("t".to_string());
    let reports = vec![report("running"), report("running"), report("running")];
    match poll_task_completion(&mut task, &reports, 3, 1) {
        Some(Err(error)) => {
            assert!(error.timed_out());
            assert!(!matches!(error, JobError::InvalidResponse(_)));
        }
        other => panic!("unexpected end {other:?}"),
    }
}

#[test]
fn reports_after_the_ceiling_are_not_taken_in() {
    let mut task = RemoteTask::submitted("t".to_string());
    let reports = vec![report("pending"), report("pending"), report("completed")];
    let end = poll_task_completion(&mut task, &reports, 2, 5);
    assert!(matches!(end, Some(Err(JobError::TimeoutError))));
    assert_eq!(task.attempts, 2);
}

#[test]
fn completion_on_the_last_allowed_poll_succeeds() {
    let mut task = RemoteTask::submitted("t".to_string());
    let reports = vec![report("pending"), report("running"), report("completed")];
    let end = poll_task_completion(&mut task, &reports, 3, 5);
    assert!(matches!(end, Some(Ok(()))));
    assert_eq!(task.state, TaskState::Completed);
    assert_eq!(task.attempts, 3);
}

#[test]
fn failure_ends_polling_with_the_server_message() {
    let mut task = RemoteTask::submitted("t".to_string());
    let reports = vec![report("pending"), failed_with("bad page"), report("completed")];
    let end = poll_task_completion(&mut task, &reports, 60, 5);
    assert!(matches!(
        end,
        Some(Err(JobError::InvalidResponse(text))) if text == "Task failed: bad page"
    ));
    assert_eq!(task.state, TaskState::Failed);
    assert_eq!(task.attempts, 2);
}

#[test]
fn polling_waits_while_no_report_is_left() {
    let mut task = RemoteTask::submitted("t".to_string());
    let end = poll_task_completion(&mut task, &vec![report("pending")], 60, 5);
    assert!(end.is_none());
    assert_eq!(task.state, TaskState::Pending);
    assert_eq!(task.attempts, 1);
    let end = poll_task_completion(&mut task, &vec![], 60, 5);
    assert!(end.is_none());
    assert_eq!(task.attempts, 1);
    let end = poll_task_completion(&mut task, &vec![report("completed")], 60, 5);
    assert!(matches!(end, Some(Ok(()))));
    assert_eq!(task.attempts, 2);
}

#[test]
fn polling_step_by_step_matches_the_whole_run() {
    let mut task = RemoteTask::submitted("t".to_string());
    let mut waited = 0u64;
    let mut end = None;
    for status in ["pending", "running", "running", "completed"] {
        if task.begin_poll(60).is_err() {
            break;
        }
        match task.observe(&report(status), 5) {
            PollStep::Wait(seconds) => waited += seconds,
            PollStep::Fetch => {
                end = Some(true);
                break;
            }
            PollStep::Fail(_) => {
                end = Some(false);
                break;
            }
        }
    }
    assert_eq!(end, Some(true));
    assert_eq!(waited, 15);
    assert_eq!(task.attempts, 4);
}
