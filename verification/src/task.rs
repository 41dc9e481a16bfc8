//! A conversion job on the service, from its submission to a final state. The job is polled
//! at most a fixed number of times; what the service reports decides each step.

use vstd::prelude::*;
use vstd::string::StringExecFns;
use crate::error::{invalid_response, JobError};
use crate::text::str_eq;

verus! {

/// The states of a job. `Completed`, `Failed` and `TimedOut` are final.
#[derive(Debug, Clone, Copy, PartialEq, Eq, Structural)]
pub enum TaskState {
    Submitted,
    Pending,
    Running,
    Completed,
    Failed,
    TimedOut,
}

impl TaskState {
    /// Whether polling ends in this state.
    pub open spec fn is_final(self) -> bool {
        self is Completed || self is Failed || self is TimedOut
    }

    /// Decides whether polling ends in this state.
    pub fn ended(self) -> (done: bool)
        ensures
            done == self.is_final(),
    {
        match self {
            TaskState::Completed | TaskState::Failed | TaskState::TimedOut => true,
            _ => false,
        }
    }
}

/// What the service said when asked for the status of a job.
#[derive(Debug)]
pub struct StatusReport {
    pub status: String,
    pub error: Option<String>,
}

/// The words of the protocol, and everything else.
pub enum Reported {
    Completed,
    Failed,
    Pending,
    Running,
    Unknown,
}

/// Reads a reported status as a word of the protocol.
pub open spec fn reported(status: Seq<char>) -> Reported {
    if status == "completed"@ {
        Reported::Completed
    } else if status == "failed"@ {
        Reported::Failed
    } else if status == "pending"@ {
        Reported::Pending
    } else if status == "running"@ {
        Reported::Running
    } else {
        Reported::Unknown
    }
}

/// The state that a reported status puts the job in. A status that the protocol does not
/// know fails the job.
pub open spec fn reported_state(status: Seq<char>) -> TaskState {
    match reported(status) {
        Reported::Completed => TaskState::Completed,
        Reported::Failed => TaskState::Failed,
        Reported::Pending => TaskState::Pending,
        Reported::Running => TaskState::Running,
        Reported::Unknown => TaskState::Failed,
    }
}

/// The reason that the service gave for a failure, or `Unknown error` where it gave none.
pub open spec fn reported_error(error: Option<String>) -> Seq<char> {
    match error {
        Some(reason) => reason@,
        None => "Unknown error"@,
    }
}

/// The message of the failure that a report means: that of a job reported as failed, or of
/// a status that the protocol does not know. Other reports mean no failure.
pub open spec fn report_failure(report: StatusReport) -> Option<Seq<char>> {
    match reported(report.status@) {
        Reported::Failed => Some("Task failed: "@ + reported_error(report.error)),
        Reported::Unknown => Some("Unknown task status: "@ + report.status@),
        _ => None,
    }
}

/// The reason kept with a job after a report: that of the service where the job is reported
/// as failed, else the one kept before.
pub open spec fn noted_error(kept: Option<Seq<char>>, report: StatusReport) -> Option<Seq<char>> {
    if reported(report.status@) is Failed {
        Some(reported_error(report.error))
    } else {
        kept
    }
}

/// What to do after a status report.
#[derive(Debug)]
pub enum PollStep {
    /// The job is done: fetch its result.
    Fetch,
    /// The job is not done: wait this many seconds, then poll again.
    Wait(u64),
    /// The job failed, or the service spoke out of protocol.
    Fail(JobError),
}

/// A job as the library follows it.
#[derive(Debug)]
pub struct RemoteTask {
    pub task_id: String,
    pub state: TaskState,
    pub error_message: Option<String>,
    pub attempts: usize,
}

impl RemoteTask {
    /// The reason kept with the job, as text.
    pub open spec fn noted(&self) -> Option<Seq<char>> {
        match self.error_message {
            Some(reason) => Some(reason@),
            None => None,
        }
    }

    /// The job that the service has just accepted under `task_id`.
    pub fn submitted(task_id: String) -> (task: RemoteTask)
        ensures
            task.task_id == task_id,
            task.state == TaskState::Submitted,
            task.error_message is None,
            task.attempts == 0,
    {
        RemoteTask { task_id, state: TaskState::Submitted, error_message: None, attempts: 0 }
    }

    /// Opens the next poll of a job that has not ended. While fewer than
    /// `max_poll_attempts` polls were made the poll is counted and may go out; after that
    /// the job is given up as timed out, which is the only way to this error.
    pub fn begin_poll(&mut self, max_poll_attempts: usize) -> (go: Result<(), JobError>)
        requires
            !old(self).state.is_final(),
        ensures
            final(self).task_id == old(self).task_id,
            final(self).error_message == old(self).error_message,
            old(self).attempts < max_poll_attempts ==> go is Ok && final(self).attempts == old(self).attempts + 1 && final(self).state == old(self).state,
            old(self).attempts >= max_poll_attempts ==> go == Err::<(), JobError>(
                JobError::TimeoutError,
            ) && final(self).attempts == old(self).attempts && final(self).state
                == TaskState::TimedOut,
    {
        if self.attempts < max_poll_attempts {
            self.attempts = self.attempts + 1;
            Ok(())
        } else {
            self.state = TaskState::TimedOut;
            Err(JobError::TimeoutError)
        }
    }

    /// Takes in what the service reported for a job that has not ended. `completed` ends the
    /// job and asks for its result; `failed` ends it with the reason given by the service;
    /// `pending` and `running` ask for another poll after `poll_interval` seconds; any other
    /// status ends it as out of protocol.
    pub fn observe(&mut self, report: &StatusReport, poll_interval: u64) -> (step: PollStep)
        requires
            !old(self).state.is_final(),
        ensures
            final(self).task_id == old(self).task_id,
            final(self).attempts == old(self).attempts,
            final(self).state == reported_state(report.status@),
            final(self).noted() == noted_error(old(self).noted(), *report),
            step is Fail == report_failure(*report) is Some,
            step matches PollStep::Fail(error) ==> error == JobError::InvalidResponse(
                error->InvalidResponse_0,
            ) && Some(error.message()) == report_failure(*report),
            step is Fetch == (final(self).state == TaskState::Completed),
            step matches PollStep::Wait(seconds) ==> seconds == poll_interval,
    {
        let status = report.status.as_str();
        if str_eq(status, "completed") {
            self.state = TaskState::Completed;
            PollStep::Fetch
        } else if str_eq(status, "failed") {
            let reason = match &report.error {
                Some(reason) => reason.clone(),
                None => String::from_str("Unknown error"),
            };
            let error = invalid_response("Task failed: ", reason.as_str());
            self.state = TaskState::Failed;
            self.error_message = Some(reason);
            PollStep::Fail(error)
        } else if str_eq(status, "pending") {
            self.state = TaskState::Pending;
            PollStep::Wait(poll_interval)
        } else if str_eq(status, "running") {
            self.state = TaskState::Running;
            PollStep::Wait(poll_interval)
        } else {
            self.state = TaskState::Failed;
            PollStep::Fail(invalid_response("Unknown task status: ", status))
        }
    }
}

/// The statuses of a series of reports.
pub open spec fn statuses(reports: Seq<StatusReport>) -> Seq<Seq<char>> {
    Seq::new(reports.len(), |i: int| reports[i].status@)
}

/// Where polling leaves a job that is in `state` after `attempts` polls, when the service
/// reports `statuses` in turn and at most `max` polls are made: the state, and the number of
/// polls made. A job in a final state stays as it is; a job whose polls are used up is timed
/// out; otherwise the next status is taken in, and where none is left the job waits.
pub open spec fn polled(state: TaskState, attempts: nat, statuses: Seq<Seq<char>>, max: nat) -> (
    TaskState,
    nat,
)
    decreases statuses.len(),
{
    if state.is_final() {
        (state, attempts)
    } else if attempts >= max {
        (TaskState::TimedOut, attempts)
    } else if statuses.len() == 0 {
        (state, attempts)
    } else {
        polled(reported_state(statuses[0]), attempts + 1, statuses.drop_first(), max)
    }
}

/// Polls a job against the reports that the service gives in turn, without waiting. The
/// answer is `None` while the job has not ended and no report is left, `Ok` when the job is
/// completed and its result can be fetched, the time-out when `max_poll_attempts` polls did
/// not end the job, and the failure that the last report taken in means otherwise.
pub fn poll_task_completion(
    task: &mut RemoteTask,
    reports: &Vec<StatusReport>,
    max_poll_attempts: usize,
    poll_interval: u64,
) -> (end: Option<Result<(), JobError>>)
    requires
        !old(task).state.is_final(),
    ensures
        final(task).task_id == old(task).task_id,
        (final(task).state, final(task).attempts as nat) == polled(
            old(task).state,
            old(task).attempts as nat,
            statuses(reports@),
            max_poll_attempts as nat,
        ),
        end is None == !final(task).state.is_final(),
        end matches Some(Ok(_)) == (final(task).state == TaskState::Completed),
        final(task).state == TaskState::TimedOut ==> end == Some(
            Err::<(), JobError>(JobError::TimeoutError),
        ),
        final(task).state != TaskState::Failed ==> final(task).noted() == old(task).noted(),
        final(task).state == TaskState::Failed ==> {
            &&& old(task).attempts < final(task).attempts <= old(task).attempts + reports@.len()
            &&& final(task).noted() == noted_error(
                old(task).noted(),
                reports@[final(task).attempts - old(task).attempts - 1],
            )
            &&& end matches Some(Err(error))
            &&& error == JobError::InvalidResponse(error->InvalidResponse_0)
            &&& Some(error.message()) == report_failure(
                reports@[final(task).attempts - old(task).attempts - 1],
            )
        },
{
    let ghost all = statuses(reports@);
    let ghost max = max_poll_attempts as nat;
    let n = reports.len();
    let mut i: usize = 0;
    assert(all.skip(0) =~= all);
    while i < n
        invariant
            n == reports@.len(),
            i <= n,
            all == statuses(reports@),
            max == max_poll_attempts as nat,
            !task.state.is_final(),
            task.task_id == old(task).task_id,
            task.attempts == old(task).attempts + i,
            task.noted() == old(task).noted(),
            polled(old(task).state, old(task).attempts as nat, all, max) == polled(
                task.state,
                task.attempts as nat,
                all.skip(i as int),
                max,
            ),
        decreases n - i,
    {
        let ghost rest = all.skip(i as int);
        assert(rest.len() > 0 && rest[0] == reports@[i as int].status@);
        assert(rest.drop_first() =~= all.skip(i + 1));
        match task.begin_poll(max_poll_attempts) {
            Err(error) => {
                return Some(Err(error));
            },
            Ok(_) => {},
        }
        match task.observe(&reports[i], poll_interval) {
            PollStep::Fetch => {
                assert(polled(task.state, task.attempts as nat, all.skip(i + 1), max) == (
                    task.state,
                    task.attempts as nat,
                ));
                return Some(Ok(()));
            },
            PollStep::Fail(error) => {
                assert(polled(task.state, task.attempts as nat, all.skip(i + 1), max) == (
                    task.state,
                    task.attempts as nat,
                ));
                return Some(Err(error));
            },
            PollStep::Wait(_) => {},
        }
        i += 1;
    }
    assert(all.skip(n as int).len() == 0);
    if task.attempts >= max_poll_attempts {
        match task.begin_poll(max_poll_attempts) {
            Err(error) => {
                return Some(Err(error));
            },
            Ok(_) => {},
        }
    }
    None
}

/// Polling from any point: a job that has not ended, and of which the next reports up to
/// the limit of polls are all `pending` or `running`, is timed out with exactly `max` polls
/// made.
proof fn lemma_times_out_from(state: TaskState, attempts: nat, statuses: Seq<Seq<char>>, max: nat)
    requires
        !state.is_final(),
        attempts <= max,
        statuses.len() >= max - attempts,
        forall|i: int| 0 <= i < max - attempts ==> !reported_state(#[trigger] statuses[i]).is_final(),
    ensures
        polled(state, attempts, statuses, max) == (TaskState::TimedOut, max),
    decreases statuses.len(),
{
    if attempts < max {
        let rest = statuses.drop_first();
        assert forall|i: int| 0 <= i < max - (attempts + 1) implies !reported_state(
            #[trigger] rest[i],
        ).is_final() by {
            assert(rest[i] == statuses[i + 1]);
        }
        lemma_times_out_from(reported_state(statuses[0]), attempts + 1, rest, max);
    }
}

/// Time-out. A job that the service keeps reporting as `pending` or `running` for `max`
/// polls ends as timed out after exactly `max` polls, and in no other state, whatever the
/// service reports afterwards.
pub proof fn lemma_unfinished_job_times_out(statuses: Seq<Seq<char>>, max: nat)
    requires
        statuses.len() >= max,
        forall|i: int|
            0 <= i < max ==> (reported(#[trigger] statuses[i]) is Pending || reported(
                statuses[i],
            ) is Running),
    ensures
        polled(TaskState::Submitted, 0, statuses, max) == (TaskState::TimedOut, max),
{
    lemma_times_out_from(TaskState::Submitted, 0, statuses, max);
}

/// Polling from any point: the first report that ends the job decides its state, provided
/// that it comes within the limit of polls.
proof fn lemma_ends_from(state: TaskState, attempts: nat, statuses: Seq<Seq<char>>, max: nat, k: int)
    requires
        !state.is_final(),
        0 <= k < statuses.len(),
        attempts + k < max,
        reported_state(statuses[k]).is_final(),
        forall|i: int| 0 <= i < k ==> !reported_state(#[trigger] statuses[i]).is_final(),
    ensures
        polled(state, attempts, statuses, max) == (
            reported_state(statuses[k]),
            (attempts + k + 1) as nat,
        ),
    decreases statuses.len(),
{
    let rest = statuses.drop_first();
    if k == 0 {
        assert(polled(reported_state(statuses[0]), attempts + 1, rest, max) == (
            reported_state(statuses[0]),
            (attempts + 1) as nat,
        ));
    } else {
        assert(rest[k - 1] == statuses[k]);
        assert forall|i: int| 0 <= i < k - 1 implies !reported_state(#[trigger] rest[i]).is_final() by {
            assert(rest[i] == statuses[i + 1]);
        }
        lemma_ends_from(reported_state(statuses[0]), attempts + 1, rest, max, k - 1);
    }
}

/// A job does not time out while the service answers in time: where the report of poll
/// `k + 1` is the first that ends the job, and `k + 1` polls are allowed, the job ends in the
/// state of that report, completed or failed, after `k + 1` polls.
pub proof fn lemma_final_report_ends_job(statuses: Seq<Seq<char>>, max: nat, k: int)
    requires
        0 <= k < statuses.len(),
        k < max,
        reported_state(statuses[k]).is_final(),
        forall|i: int| 0 <= i < k ==> !reported_state(#[trigger] statuses[i]).is_final(),
    ensures
        polled(TaskState::Submitted, 0, statuses, max) == (
            reported_state(statuses[k]),
            (k + 1) as nat,
        ),
        !(polled(TaskState::Submitted, 0, statuses, max).0 is TimedOut),
{
    lemma_ends_from(TaskState::Submitted, 0, statuses, max, k);
}

} // verus!
