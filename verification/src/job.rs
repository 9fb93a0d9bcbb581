//! Scheduling and retry decisions of the indexer's jobs.
//!
//! Each time a job's schedule fires, the job is run: it gets a number of attempts,
//! each attempt told its own index; a successful attempt ends the run, a failed one
//! is followed by a pause of the retry interval, after which the next attempt
//! starts, if any is left. [`JobRun`] holds the decisions of one such run as a
//! state machine: the runtime performs each [`JobAction`] and hands back the
//! [`JobOutcome`] of every attempt.
use vstd::prelude::*;

verus! {

/// The number of attempts a job gets per run unless it says otherwise.
pub fn default_retries() -> (r: usize)
    ensures
        r == 3,
{
    3
}

/// A pause, as whole seconds and the nanoseconds beyond them.
#[derive(Clone, Copy, Debug, PartialEq, Eq, Structural)]
pub struct RetryInterval {
    pub secs: u64,
    pub nanos: u32,
}

/// The pause after a failed attempt unless a job says otherwise: 5 seconds.
pub fn default_retry_interval() -> (r: RetryInterval)
    ensures
        r == (RetryInterval { secs: 5, nanos: 0 }),
{
    RetryInterval { secs: 5, nanos: 0 }
}

/// The schedule of a job unless it says otherwise.
pub fn default_schedule() -> (r: &'static str)
    ensures
        r@ == "every 10 seconds"@,
{
    "every 10 seconds"
}

/// The job that gathers the metadata of uncatalogued tokens, a batch of them
/// at a time.
#[derive(Clone, Copy, Debug, PartialEq, Eq, Structural)]
pub struct TokenDataJob {
    batch_size: u64,
}

impl TokenDataJob {
    /// How many tokens one run of the job takes on.
    pub closed spec fn spec_batch_size(&self) -> u64 {
        self.batch_size
    }

    /// A job that takes on `batch_size` tokens per run.
    pub fn new(batch_size: u64) -> (r: TokenDataJob)
        ensures
            r.spec_batch_size() == batch_size,
    {
        TokenDataJob { batch_size }
    }

    /// How many tokens one run of the job takes on.
    pub fn batch_size(&self) -> (r: u64)
        ensures
            r == self.spec_batch_size(),
    {
        self.batch_size
    }

    /// The job's name.
    pub fn name(&self) -> (r: &'static str)
        ensures
            r@ == "token_data_job"@,
    {
        "token_data_job"
    }

    /// When the job runs.
    pub fn schedule(&self) -> (r: &'static str)
        ensures
            r@ == "every 10 seconds"@,
    {
        "every 10 seconds"
    }

    /// How many attempts one run of the job may make.
    pub fn retries(&self) -> (r: usize)
        ensures
            r == 3,
    {
        default_retries()
    }

    /// The pause after a failed attempt.
    pub fn retry_interval(&self) -> (r: RetryInterval)
        ensures
            r == (RetryInterval { secs: 5, nanos: 0 }),
    {
        default_retry_interval()
    }

    /// Starts a run of the job.
    pub fn begin_run(&self) -> (r: (JobRun, JobAction))
        ensures
            r == spec_begin(3, RetryInterval { secs: 5, nanos: 0 }),
    {
        JobRun::begin(self.retries(), self.retry_interval())
    }
}

/// The jobs the indexer runs: the token metadata job, 50 tokens at a time.
pub fn default_jobs() -> (r: Vec<TokenDataJob>)
    ensures
        r.len() == 1,
        r[0].spec_batch_size() == 50,
{
    let mut jobs: Vec<TokenDataJob> = Vec::new();
    jobs.push(TokenDataJob::new(50));
    jobs
}

/// Where a run stands: at the attempt with the given index, or over.
#[derive(Clone, Copy, Debug, PartialEq, Eq, Structural)]
pub enum RunPhase {
    Attempting(usize),
    Done,
}

/// One run of a job: how many attempts it may make, how long it pauses after a
/// failure, and where it stands.
#[derive(Clone, Copy, Debug, PartialEq, Eq, Structural)]
pub struct JobRun {
    pub retries: usize,
    pub retry_interval: RetryInterval,
    pub phase: RunPhase,
}

/// How an attempt ended.
#[derive(Clone, Copy, Debug, PartialEq, Eq, Structural)]
pub enum JobOutcome {
    Succeeded,
    Failed,
}

/// What the runtime is to do next.
#[derive(Clone, Copy, Debug, PartialEq, Eq, Structural)]
pub enum JobAction {
    /// Execute the job, telling it that this is the attempt with index `attempt`.
    Execute { attempt: usize },
    /// Pause for `pause`, then execute the attempt with index `attempt`.
    SleepThenExecute { pause: RetryInterval, attempt: usize },
    /// Pause for `pause`; the run is then over.
    SleepThenStop { pause: RetryInterval },
    /// The run is over.
    Stop,
}

/// The first state and action of a run with the given number of attempts.
pub open spec fn spec_begin(retries: usize, retry_interval: RetryInterval) -> (JobRun, JobAction) {
    if retries == 0 {
        (JobRun { retries, retry_interval, phase: RunPhase::Done }, JobAction::Stop)
    } else {
        (
            JobRun { retries, retry_interval, phase: RunPhase::Attempting(0) },
            JobAction::Execute { attempt: 0 },
        )
    }
}

/// The next state and action of a run once the current attempt has ended.
pub open spec fn spec_step(run: JobRun, outcome: JobOutcome) -> (JobRun, JobAction) {
    match run.phase {
        RunPhase::Done => (run, JobAction::Stop),
        RunPhase::Attempting(a) => match outcome {
            JobOutcome::Succeeded => (JobRun { phase: RunPhase::Done, ..run }, JobAction::Stop),
            JobOutcome::Failed => if a + 1 < run.retries {
                (
                    JobRun { phase: RunPhase::Attempting((a + 1) as usize), ..run },
                    JobAction::SleepThenExecute {
                        pause: run.retry_interval,
                        attempt: (a + 1) as usize,
                    },
                )
            } else {
                (
                    JobRun { phase: RunPhase::Done, ..run },
                    JobAction::SleepThenStop { pause: run.retry_interval },
                )
            },
        },
    }
}

impl JobRun {
    /// Starts a run that may make `retries` attempts and pauses for
    /// `retry_interval` after each failure.
    pub fn begin(retries: usize, retry_interval: RetryInterval) -> (r: (JobRun, JobAction))
        ensures
            r == spec_begin(retries, retry_interval),
    {
        if retries == 0 {
            (JobRun { retries, retry_interval, phase: RunPhase::Done }, JobAction::Stop)
        } else {
            (
                JobRun { retries, retry_interval, phase: RunPhase::Attempting(0) },
                JobAction::Execute { attempt: 0 },
            )
        }
    }

    /// Moves the run on once the current attempt has ended with `outcome`.
    pub fn step(self, outcome: JobOutcome) -> (r: (JobRun, JobAction))
        ensures
            r == spec_step(self, outcome),
    {
        match self.phase {
            RunPhase::Done => (self, JobAction::Stop),
            RunPhase::Attempting(a) => match outcome {
                JobOutcome::Succeeded => (JobRun { phase: RunPhase::Done, ..self }, JobAction::Stop),
                JobOutcome::Failed => {
                    if self.retries > a && self.retries - a > 1 {
                        let next = a + 1;
                        (
                            JobRun { phase: RunPhase::Attempting(next), ..self },
                            JobAction::SleepThenExecute {
                                pause: self.retry_interval,
                                attempt: next,
                            },
                        )
                    } else {
                        (
                            JobRun { phase: RunPhase::Done, ..self },
                            JobAction::SleepThenStop { pause: self.retry_interval },
                        )
                    }
                },
            },
        }
    }

    /// Whether the run is over.
    pub fn is_done(&self) -> (r: bool)
        ensures
            r == (self.phase == RunPhase::Done),
    {
        match self.phase {
            RunPhase::Done => true,
            RunPhase::Attempting(_) => false,
        }
    }
}

/// The state reached and the actions taken by a run whose attempts ended with
/// `outcomes`, one after the other; the first action is that of the start.
pub open spec fn trace(retries: usize, retry_interval: RetryInterval, outcomes: Seq<JobOutcome>) -> (
    JobRun,
    Seq<JobAction>,
)
    decreases outcomes.len(),
{
    if outcomes.len() == 0 {
        let (run, action) = spec_begin(retries, retry_interval);
        (run, seq![action])
    } else {
        let (run, actions) = trace(retries, retry_interval, outcomes.drop_last());
        let (next, action) = spec_step(run, outcomes.last());
        (next, actions.push(action))
    }
}

/// The attempt an action executes, if it executes one.
pub open spec fn executed_attempt(action: JobAction) -> Option<usize> {
    match action {
        JobAction::Execute { attempt } => Some(attempt),
        JobAction::SleepThenExecute { attempt, .. } => Some(attempt),
        _ => None,
    }
}

/// Whether an action ends a run.
pub open spec fn ends_run(action: JobAction) -> bool {
    action is Stop || action is SleepThenStop
}

/// The indices of the attempts that a sequence of actions executes, in order.
pub open spec fn attempts(actions: Seq<JobAction>) -> Seq<usize>
    decreases actions.len(),
{
    if actions.len() == 0 {
        seq![]
    } else {
        let earlier = attempts(actions.drop_last());
        match executed_attempt(actions.last()) {
            Some(k) => earlier.push(k),
            None => earlier,
        }
    }
}

proof fn lemma_trace_invariant(retries: usize, retry_interval: RetryInterval, outcomes: Seq<JobOutcome>)
    ensures
        ({
            let (run, actions) = trace(retries, retry_interval, outcomes);
            let done = attempts(actions);
            &&& run.retries == retries
            &&& run.retry_interval == retry_interval
            &&& actions.len() == outcomes.len() + 1
            &&& (forall|i: int| 0 <= i < done.len() ==> done[i] == i)
            &&& match run.phase {
                RunPhase::Attempting(a) => a < retries && done.len() == a + 1,
                RunPhase::Done => done.len() <= retries,
            }
            &&& (forall|i: int| 0 <= i < actions.len() && ends_run(#[trigger] actions[i])
                ==> run.phase == RunPhase::Done)
            &&& (forall|i: int, j: int| 0 <= i < j < actions.len() && ends_run(#[trigger] actions[i])
                ==> #[trigger] actions[j] == JobAction::Stop)
        }),
    decreases outcomes.len(),
{
    if outcomes.len() == 0 {
        let (run, action) = spec_begin(retries, retry_interval);
        let all = seq![action];
        assert(all.drop_last() =~= Seq::<JobAction>::empty());
        assert(attempts(all.drop_last()).len() == 0);
    } else {
        let prefix = outcomes.drop_last();
        lemma_trace_invariant(retries, retry_interval, prefix);
        let (run, actions) = trace(retries, retry_interval, prefix);
        let (next, action) = spec_step(run, outcomes.last());
        let all = actions.push(action);
        assert(all.drop_last() =~= actions);
        assert(all.last() == action);
        assert(attempts(all) == match executed_attempt(action) {
            Some(k) => attempts(actions).push(k),
            None => attempts(actions),
        });
        assert forall|i: int| 0 <= i < all.len() && ends_run(#[trigger] all[i]) implies next.phase
            == RunPhase::Done by {
            if i < actions.len() {
                assert(all[i] == actions[i]);
            }
        }
        assert forall|i: int, j: int| 0 <= i < j < all.len() && ends_run(#[trigger] all[i]) implies
            #[trigger] all[j] == JobAction::Stop by {
            assert(all[i] == actions[i]);
            if j < actions.len() {
                assert(all[j] == actions[j]);
            } else {
                assert(run.phase == RunPhase::Done);
            }
        }
    }
}

/// Whatever the outcomes of its attempts, a run executes at most `retries`
/// attempts, and their indices are 0, 1, 2, ... in that order.
pub proof fn lemma_attempts_bounded_and_in_order(
    retries: usize,
    retry_interval: RetryInterval,
    outcomes: Seq<JobOutcome>,
)
    ensures
        ({
            let done = attempts(trace(retries, retry_interval, outcomes).1);
            &&& done.len() <= retries
            &&& forall|i: int| 0 <= i < done.len() ==> done[i] == i
        }),
{
    lemma_trace_invariant(retries, retry_interval, outcomes);
}

/// Once a run has ended, it stays over: every later step answers `Stop`.
pub proof fn lemma_end_is_final(retries: usize, retry_interval: RetryInterval, outcomes: Seq<JobOutcome>)
    ensures
        ({
            let actions = trace(retries, retry_interval, outcomes).1;
            forall|i: int, j: int| 0 <= i < j < actions.len() && ends_run(#[trigger] actions[i])
                ==> #[trigger] actions[j] == JobAction::Stop
        }),
{
    lemma_trace_invariant(retries, retry_interval, outcomes);
}

} // verus!
