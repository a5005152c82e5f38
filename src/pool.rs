//! The decisions of the job pool's event loop: when to pull a job, when to
//! reap one, and when the pool is done.
use vstd::prelude::*;

verus! {

/// A snapshot of the pool's counters, for observation only.
#[derive(Clone, Copy, Debug, PartialEq, Eq, Structural)]
pub struct PoolStats {
    pub jobs_submitted: u64,
    pub jobs_started: u64,
    pub jobs_completed: u64,
}

/// Where the pool stands.
#[derive(Clone, Copy, Debug, PartialEq, Eq, Structural)]
pub enum PoolStatus {
    /// Work remains or may still arrive.
    Running,
    /// Every handle is gone and no job is in flight.
    Finished,
    /// A job returned an error; the pool takes no more work.
    Failed,
}

/// The abstract state of the pool.
pub struct PoolModel {
    pub concurrency: nat,
    pub in_flight: nat,
    /// The inbound channel has closed: every handle has been dropped.
    pub closed: bool,
    pub failed: bool,
    /// Jobs pulled from the channel and started.
    pub started: nat,
    /// Started jobs that have finished.
    pub completed: nat,
}

/// No more jobs are in flight than the concurrency allows, and every started
/// job is either in flight or completed.
pub open spec fn model_wf(m: PoolModel) -> bool {
    &&& m.in_flight <= m.concurrency
    &&& m.completed + m.in_flight == m.started
}

pub open spec fn status_spec(m: PoolModel) -> PoolStatus {
    if m.failed {
        PoolStatus::Failed
    } else if m.closed && m.in_flight == 0 {
        PoolStatus::Finished
    } else {
        PoolStatus::Running
    }
}

/// A job may be pulled from the channel only below the concurrency bound,
/// while the channel is open and no job has failed.
pub open spec fn may_accept_spec(m: PoolModel) -> bool {
    m.in_flight < m.concurrency && !m.closed && !m.failed
}

/// The scheduling state of a job pool that runs at most `concurrency` jobs at
/// once.
pub struct JobPool {
    concurrency: usize,
    in_flight: usize,
    closed: bool,
    failed: bool,
    started: u64,
    completed: u64,
}

impl View for JobPool {
    type V = PoolModel;

    closed spec fn view(&self) -> PoolModel {
        PoolModel {
            concurrency: self.concurrency as nat,
            in_flight: self.in_flight as nat,
            closed: self.closed,
            failed: self.failed,
            started: self.started as nat,
            completed: self.completed as nat,
        }
    }
}

impl JobPool {
    pub fn new(concurrency: usize) -> (r: JobPool)
        ensures
            model_wf(r@),
            r@ == (PoolModel {
                concurrency: concurrency as nat,
                in_flight: 0,
                closed: false,
                failed: false,
                started: 0,
                completed: 0,
            }),
    {
        JobPool { concurrency, in_flight: 0, closed: false, failed: false, started: 0, completed: 0 }
    }

    pub fn concurrency(&self) -> (r: usize)
        ensures
            r == self@.concurrency,
    {
        self.concurrency
    }

    pub fn in_flight(&self) -> (r: usize)
        ensures
            r == self@.in_flight,
    {
        self.in_flight
    }

    pub fn jobs_started(&self) -> (r: u64)
        ensures
            r == self@.started,
    {
        self.started
    }

    pub fn jobs_completed(&self) -> (r: u64)
        ensures
            r == self@.completed,
    {
        self.completed
    }

    /// The counters, with the number of submissions that the handles
    /// counted.
    pub fn stats(&self, jobs_submitted: u64) -> (r: PoolStats)
        ensures
            r == (PoolStats {
                jobs_submitted,
                jobs_started: self@.started as u64,
                jobs_completed: self@.completed as u64,
            }),
    {
        PoolStats { jobs_submitted, jobs_started: self.started, jobs_completed: self.completed }
    }

    /// Whether the loop may pull the next job from the channel.
    pub fn may_accept(&self) -> (r: bool)
        ensures
            r == may_accept_spec(self@),
    {
        self.in_flight < self.concurrency && !self.closed && !self.failed
    }

    /// Whether the loop should wait for a running job to finish.
    pub fn may_reap(&self) -> (r: bool)
        ensures
            r == (self@.in_flight > 0 && !self@.failed),
    {
        self.in_flight > 0 && !self.failed
    }

    pub fn status(&self) -> (r: PoolStatus)
        ensures
            r == status_spec(self@),
    {
        if self.failed {
            PoolStatus::Failed
        } else if self.closed && self.in_flight == 0 {
            PoolStatus::Finished
        } else {
            PoolStatus::Running
        }
    }

    /// A job was pulled from the channel and started.
    pub fn on_job_started(&mut self)
        requires
            model_wf(old(self)@),
            may_accept_spec(old(self)@),
            old(self)@.started < u64::MAX,
        ensures
            model_wf(final(self)@),
            final(self)@ == (PoolModel {
                in_flight: old(self)@.in_flight + 1,
                started: old(self)@.started + 1,
                ..old(self)@
            }),
    {
        self.in_flight = self.in_flight + 1;
        self.started = self.started + 1;
    }

    /// The channel reported that every handle has been dropped.
    pub fn on_channel_closed(&mut self)
        requires
            model_wf(old(self)@),
        ensures
            model_wf(final(self)@),
            final(self)@ == (PoolModel { closed: true, ..old(self)@ }),
    {
        self.closed = true;
    }

    /// A running job finished, successfully or not.
    pub fn on_job_finished(&mut self, ok: bool)
        requires
            model_wf(old(self)@),
            old(self)@.in_flight > 0,
        ensures
            model_wf(final(self)@),
            final(self)@ == (PoolModel {
                in_flight: (old(self)@.in_flight - 1) as nat,
                completed: old(self)@.completed + 1,
                failed: old(self)@.failed || !ok,
                ..old(self)@
            }),
    {
        self.in_flight = self.in_flight - 1;
        self.completed = self.completed + 1;
        if !ok {
            self.failed = true;
        }
    }
}

/// The pool's run ends exactly when every handle is gone and nothing is in
/// flight, or when a job has failed; after a failure it accepts no more work.
/// When it finishes, every started job has completed, and at every step no
/// more jobs have completed than started.
pub proof fn lemma_run_ends_exactly(m: PoolModel)
    requires
        model_wf(m),
    ensures
        (status_spec(m) != PoolStatus::Running) <==> ((m.closed && m.in_flight == 0) || m.failed),
        status_spec(m) == PoolStatus::Failed <==> m.failed,
        m.failed ==> !may_accept_spec(m),
        status_spec(m) == PoolStatus::Finished ==> m.completed == m.started,
        m.completed <= m.started,
{
}

/// Pulling a job never takes the pool past its concurrency bound.
pub proof fn lemma_accept_within_bound(m: PoolModel)
    requires
        may_accept_spec(m),
    ensures
        m.in_flight + 1 <= m.concurrency,
{
}

} // verus!
