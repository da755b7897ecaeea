//! The life of one remote proving job, as its poller sees it.
//!
//! A job runs from the moment it is submitted. The service is asked for its
//! status; while it runs the poller waits a fixed interval and asks again,
//! and the first other answer ends the polling: success leads to the
//! download of the result, anything else is a fatal failure. Both proving
//! stages are polled this way.

use vstd::prelude::*;
use vstd::string::StringExecFns;
use crate::args::text_view;
use crate::error::{EvalError, EvalErrorView};

verus! {

/// The pause between two status requests, in milliseconds.
pub const POLL_INTERVAL_MILLIS: u64 = 100;

/// The state of a job. `Running` is the only one from which polling goes
/// on; the other two are terminal.
#[derive(Clone, Copy, PartialEq, Eq, Structural, Debug)]
pub enum JobState {
    Running,
    Succeeded,
    Failed,
}

/// How a poller waits: the pause between two requests, and how many pauses
/// it may spend on one job before it gives up (`None`: as many as it takes).
#[derive(Clone, Copy, Debug)]
pub struct PollPolicy {
    pub interval_millis: u64,
    pub max_waits: Option<u64>,
}

impl Default for PollPolicy {
    /// A tenth of a second between requests, for as long as it takes.
    fn default() -> (policy: PollPolicy)
        ensures
            policy == (PollPolicy { interval_millis: POLL_INTERVAL_MILLIS, max_waits: None }),
    {
        PollPolicy { interval_millis: POLL_INTERVAL_MILLIS, max_waits: None }
    }
}

/// What the service answers to a status request.
#[derive(Debug)]
pub struct StatusReply {
    /// `RUNNING`, `SUCCEEDED`, or anything else, which means failure.
    pub status: String,
    /// The service's word on a failure.
    pub error_msg: Option<String>,
    /// Where the result of a successful job can be downloaded.
    pub output: Option<String>,
}

/// The mathematical value of a [`StatusReply`].
pub struct StatusView {
    pub status: Seq<char>,
    pub error_msg: Option<Seq<char>>,
    pub output: Option<Seq<char>>,
}

impl View for StatusReply {
    type V = StatusView;

    open spec fn view(&self) -> StatusView {
        StatusView {
            status: self.status@,
            error_msg: text_view(self.error_msg),
            output: text_view(self.output),
        }
    }
}

/// What the poller does after one status reply.
#[derive(Debug)]
pub enum Verdict {
    /// The job runs: wait this long, then ask again.
    Wait { millis: u64 },
    /// The job succeeded: fetch its result.
    Fetch,
    /// Polling ends in a fatal error.
    Abort(EvalError),
}

/// The mathematical value of a [`Verdict`].
pub enum VerdictView {
    Wait { millis: u64 },
    Fetch,
    Abort(EvalErrorView),
}

impl View for Verdict {
    type V = VerdictView;

    open spec fn view(&self) -> VerdictView {
        match self {
            Verdict::Wait { millis } => VerdictView::Wait { millis: *millis },
            Verdict::Fetch => VerdictView::Fetch,
            Verdict::Abort(e) => VerdictView::Abort(e@),
        }
    }
}

/// A submitted job: the id that the service gave it, its state as last
/// seen, and the waits that the poller may still spend on it.
#[derive(Debug)]
pub struct ProvingJob {
    pub id: String,
    pub state: JobState,
    pub waits_left: Option<u64>,
    pub interval_millis: u64,
}

/// The mathematical value of a [`ProvingJob`].
pub struct JobView {
    pub id: Seq<char>,
    pub state: JobState,
    pub waits_left: Option<u64>,
    pub interval_millis: u64,
}

impl View for ProvingJob {
    type V = JobView;

    open spec fn view(&self) -> JobView {
        JobView {
            id: self.id@,
            state: self.state,
            waits_left: self.waits_left,
            interval_millis: self.interval_millis,
        }
    }
}

/// The state that a status word stands for.
pub open spec fn classify(status: Seq<char>) -> JobState {
    if status == "RUNNING"@ {
        JobState::Running
    } else if status == "SUCCEEDED"@ {
        JobState::Succeeded
    } else {
        JobState::Failed
    }
}

/// A job as it stands right after its submission.
pub open spec fn submitted(id: Seq<char>, policy: PollPolicy) -> JobView {
    JobView {
        id,
        state: JobState::Running,
        waits_left: policy.max_waits,
        interval_millis: policy.interval_millis,
    }
}

/// The job after one status reply, and what the poller does next.
pub open spec fn observe(job: JobView, reply: StatusView) -> (JobView, VerdictView) {
    if job.state != JobState::Running {
        (job, VerdictView::Abort(EvalErrorView::UnexpectedEvent))
    } else {
        match classify(reply.status) {
            JobState::Running => match job.waits_left {
                None => (job, VerdictView::Wait { millis: job.interval_millis }),
                Some(left) => if left == 0 {
                    (job, VerdictView::Abort(EvalErrorView::JobTimedOut { job_id: job.id }))
                } else {
                    (
                        JobView { waits_left: Some((left - 1) as u64), ..job },
                        VerdictView::Wait { millis: job.interval_millis },
                    )
                },
            },
            JobState::Succeeded => (JobView { state: JobState::Succeeded, ..job }, VerdictView::Fetch),
            JobState::Failed => (
                JobView { state: JobState::Failed, ..job },
                VerdictView::Abort(
                    EvalErrorView::JobFailed {
                        job_id: job.id,
                        message: match reply.error_msg {
                            Some(m) => m,
                            None => Seq::empty(),
                        },
                    },
                ),
            ),
        }
    }
}

/// A job never leaves a terminal state, whatever the service says later,
/// and a reply changes nothing of a job but its state and the waits that
/// are left.
pub proof fn lemma_terminal_states_are_final(job: JobView, reply: StatusView)
    ensures
        job.state != JobState::Running ==> observe(job, reply).0 == job,
        observe(job, reply).0.state == JobState::Running ==> job.state == JobState::Running,
        observe(job, reply).0.id == job.id,
        observe(job, reply).0.interval_millis == job.interval_millis,
        observe(job, reply).1 is Wait ==> observe(job, reply).0.state == JobState::Running,
        observe(job, reply).1 is Fetch ==> observe(job, reply).0.state == JobState::Succeeded,
{
}

/// The poll loop on a given run of replies: ask, and go on asking as long
/// as the verdict is to wait. Yields the job as the loop leaves it and the
/// verdicts in the order in which they fell.
pub open spec fn poll(job: JobView, replies: Seq<StatusView>) -> (JobView, Seq<VerdictView>)
    decreases replies.len(),
{
    if replies.len() == 0 {
        (job, Seq::empty())
    } else {
        let (next, verdict) = observe(job, replies[0]);
        if verdict is Wait {
            let (last, rest) = poll(next, replies.skip(1));
            (last, seq![verdict] + rest)
        } else {
            (next, seq![verdict])
        }
    }
}

/// Whether the waits that are left to a poller allow for `n` more.
pub open spec fn allows(waits_left: Option<u64>, n: nat) -> bool {
    match waits_left {
        None => true,
        Some(left) => n <= left,
    }
}

/// A service that answers `RUNNING` exactly `n` times and then something
/// else makes the poller wait exactly `n` times, each time for the
/// configured interval, and end the loop on the reply after those: never
/// earlier, never without the pause, and never later.
pub proof fn lemma_poll_waits_once_per_running_reply(
    job: JobView,
    replies: Seq<StatusView>,
    n: nat,
)
    requires
        job.state == JobState::Running,
        n < replies.len(),
        forall|i: int| 0 <= i < n ==> classify(#[trigger] replies[i].status) == JobState::Running,
        classify(replies[n as int].status) != JobState::Running,
        allows(job.waits_left, n),
    ensures
        poll(job, replies).1.len() == n + 1,
        forall|i: int|
            0 <= i < n ==> #[trigger] poll(job, replies).1[i] == (VerdictView::Wait {
                millis: job.interval_millis,
            }),
        !(poll(job, replies).1[n as int] is Wait),
        poll(job, replies).0.state == classify(replies[n as int].status),
        poll(job, replies).0.id == job.id,
        classify(replies[n as int].status) == JobState::Succeeded ==> poll(job, replies).1[n as int]
            == VerdictView::Fetch,
        classify(replies[n as int].status) == JobState::Failed ==> poll(job, replies).1[n as int]
            == VerdictView::Abort(
            EvalErrorView::JobFailed {
                job_id: job.id,
                message: match replies[n as int].error_msg {
                    Some(m) => m,
                    None => Seq::empty(),
                },
            },
        ),
    decreases n,
{
    let (next, verdict) = observe(job, replies[0]);
    if n == 0 {
        assert(!(verdict is Wait));
    } else {
        assert(classify(replies[0].status) == JobState::Running);
        assert(verdict == VerdictView::Wait { millis: job.interval_millis });
        let tail = replies.skip(1);
        assert forall|i: int| 0 <= i < n - 1 implies classify(#[trigger] tail[i].status)
            == JobState::Running by {
            assert(tail[i] == replies[i + 1]);
        }
        assert(tail[(n - 1) as int] == replies[n as int]);
        lemma_poll_waits_once_per_running_reply(next, tail, (n - 1) as nat);
        let (last, rest) = poll(next, tail);
        assert(poll(job, replies).1 == seq![verdict] + rest);
        assert forall|i: int| 0 <= i < n implies #[trigger] poll(job, replies).1[i] == (
        VerdictView::Wait { millis: job.interval_millis }) by {
            if i > 0 {
                assert(poll(job, replies).1[i] == rest[i - 1]);
            }
        }
        assert(poll(job, replies).1[n as int] == rest[n - 1]);
    }
}

/// A poller that may wait `k` times gives up on the reply after the `k`-th
/// `RUNNING`, with an error that names the job.
pub proof fn lemma_poll_gives_up(job: JobView, replies: Seq<StatusView>, k: nat)
    requires
        job.state == JobState::Running,
        job.waits_left == Some(k as u64),
        k <= u64::MAX,
        k < replies.len(),
        forall|i: int| 0 <= i <= k ==> classify(#[trigger] replies[i].status) == JobState::Running,
    ensures
        poll(job, replies).1.len() == k + 1,
        forall|i: int|
            0 <= i < k ==> #[trigger] poll(job, replies).1[i] == (VerdictView::Wait {
                millis: job.interval_millis,
            }),
        poll(job, replies).1[k as int] == VerdictView::Abort(
            EvalErrorView::JobTimedOut { job_id: job.id },
        ),
    decreases k,
{
    let (next, verdict) = observe(job, replies[0]);
    assert(classify(replies[0].status) == JobState::Running);
    if k > 0 {
        let tail = replies.skip(1);
        assert forall|i: int| 0 <= i <= k - 1 implies classify(#[trigger] tail[i].status)
            == JobState::Running by {
            assert(tail[i] == replies[i + 1]);
        }
        lemma_poll_gives_up(next, tail, (k - 1) as nat);
        let (last, rest) = poll(next, tail);
        assert(poll(job, replies).1 == seq![verdict] + rest);
        assert forall|i: int| 0 <= i < k implies #[trigger] poll(job, replies).1[i] == (
        VerdictView::Wait { millis: job.interval_millis }) by {
            if i > 0 {
                assert(poll(job, replies).1[i] == rest[i - 1]);
            }
        }
        assert(poll(job, replies).1[k as int] == rest[k - 1]);
    }
}

/// The state that a status word stands for.
pub fn classify_status(status: &String) -> (state: JobState)
    ensures
        state == classify(status@),
{
    let running: String = String::from_str("RUNNING");
    let succeeded: String = String::from_str("SUCCEEDED");
    if *status == running {
        JobState::Running
    } else if *status == succeeded {
        JobState::Succeeded
    } else {
        JobState::Failed
    }
}

impl ProvingJob {
    /// The job that the service filed under `id`: it runs from now on.
    pub fn submit(id: String, policy: &PollPolicy) -> (job: ProvingJob)
        ensures
            job@ == submitted(id@, *policy),
    {
        ProvingJob {
            id,
            state: JobState::Running,
            waits_left: policy.max_waits,
            interval_millis: policy.interval_millis,
        }
    }

    /// Takes one status reply in and says what the poller does next.
    ///
    /// While the service says `RUNNING` the verdict is to wait for the
    /// configured interval, unless the waits are spent. `SUCCEEDED` ends
    /// the polling with the verdict to fetch the result. Any other status
    /// ends it with [`EvalError::JobFailed`], which carries the job's id
    /// and the service's message (empty where it sent none). A job that no
    /// longer runs is not to be polled: the verdict is then
    /// [`EvalError::UnexpectedEvent`], and the job stays as it is.
    pub fn observe(&mut self, reply: &StatusReply) -> (verdict: Verdict)
        ensures
            (final(self)@, verdict@) == observe(old(self)@, reply@),
    {
        if self.state != JobState::Running {
            return Verdict::Abort(EvalError::UnexpectedEvent);
        }
        match classify_status(&reply.status) {
            JobState::Running => match self.waits_left {
                None => Verdict::Wait { millis: self.interval_millis },
                Some(left) => {
                    if left == 0 {
                        Verdict::Abort(EvalError::JobTimedOut { job_id: self.id.clone() })
                    } else {
                        self.waits_left = Some(left - 1);
                        Verdict::Wait { millis: self.interval_millis }
                    }
                },
            },
            JobState::Succeeded => {
                self.state = JobState::Succeeded;
                Verdict::Fetch
            },
            JobState::Failed => {
                self.state = JobState::Failed;
                let message: String = match &reply.error_msg {
                    Some(m) => m.clone(),
                    None => String::new(),
                };
                Verdict::Abort(EvalError::JobFailed { job_id: self.id.clone(), message })
            },
        }
    }
}

} // verus!
