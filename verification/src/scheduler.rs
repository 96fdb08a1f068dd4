//! The dispatcher of a batch as a state machine: it decides which job
//! starts next, when to wait, and when the summary is due. Whoever drives
//! it runs the jobs and reports how each ended.
use crate::batch::{BatchJob, BatchProgress, ProgressView, Semaphore};
use crate::error::{ConversionError, PermitSystemFault};
use crate::model::{
    lemma_end_wf, lemma_finish_wf, lemma_initial_wf, lemma_none_running, lemma_running_counts,
    lemma_start_wf, running_jobs, BatchModel, Decision, Emission, JobState,
};
use vstd::prelude::*;

verus! {

/// What the driver of a batch has to do next.
#[derive(Debug, Clone, PartialEq, Eq)]
pub enum BatchAction {
    /// Emit `event` and run the job at `index`; report its end with
    /// `job_finished`.
    Start { index: usize, event: BatchProgress },
    /// Wait until a running job has ended and report it.
    Wait,
    /// Emit `event`, the summary. The batch is over.
    Finish { event: BatchProgress },
    /// The batch was over already.
    Done,
}

/// The event that reports the end of a job.
pub open spec fn terminal_view(label: Seq<char>, outcome: Result<(), ConversionError>)
    -> ProgressView {
    match outcome {
        Ok(_) => ProgressView::Completed { file: label },
        Err(error) => ProgressView::Failed { file: label, error: error.description_text() },
    }
}

/// The event that reports the end of a job: `Completed` where it went
/// well, `Failed` with the description of the error where it did not.
pub fn terminal_event(label: String, outcome: Result<(), ConversionError>) -> (event:
    BatchProgress)
    ensures
        event@ == terminal_view(label@, outcome),
{
    match outcome {
        Ok(_) => BatchProgress::Completed { file: label },
        Err(error) => BatchProgress::Failed { file: label, error: error.description() },
    }
}

/// A batch under way.
pub struct BatchScheduler {
    jobs: Vec<BatchJob>,
    labels: Vec<String>,
    states: Vec<JobState>,
    permits: Semaphore,
    dispatched: usize,
    successful: usize,
    failed: usize,
    finished: bool,
    trace: Ghost<Seq<Emission>>,
}

impl View for BatchScheduler {
    type V = BatchModel;

    closed spec fn view(&self) -> BatchModel {
        BatchModel {
            limit: self.permits.limit(),
            states: self.states@,
            dispatched: self.dispatched as nat,
            successful: self.successful as nat,
            failed: self.failed as nat,
            finished: self.finished,
            trace: self.trace@,
        }
    }
}

impl BatchScheduler {
    /// The jobs of the batch, in the order of submission.
    pub closed spec fn jobs(&self) -> Seq<BatchJob> {
        self.jobs@
    }

    /// The name under which each job is reported.
    pub closed spec fn labels(&self) -> Seq<Seq<char>> {
        Seq::new(self.labels@.len(), |i: int| self.labels@[i]@)
    }

    /// The batch is in a state that the model allows, and the permits that
    /// are out are those of the running jobs.
    pub closed spec fn wf(&self) -> bool {
        &&& self@.wf()
        &&& self.jobs@.len() == self.states@.len()
        &&& self.labels@.len() == self.states@.len()
        &&& self.permits.wf()
        &&& self.permits.in_use() == running_jobs(self.states@)
    }

    /// A batch of `jobs` of which at most `limit` run at once.
    pub fn new(jobs: Vec<BatchJob>, limit: usize) -> (scheduler: BatchScheduler)
        ensures
            scheduler.wf(),
            scheduler@.wf(),
            scheduler@ == BatchModel::initial(jobs@.len(), limit as nat),
            scheduler@.running() == 0,
            scheduler.jobs() == jobs@,
            scheduler.labels().len() == jobs@.len(),
            forall|i: int|
                0 <= i < jobs@.len() ==> (#[trigger] scheduler.labels()[i]) == jobs@[i].label(),
    {
        let mut labels: Vec<String> = Vec::new();
        let mut states: Vec<JobState> = Vec::new();
        let mut i: usize = 0;
        while i < jobs.len()
            invariant
                i <= jobs.len(),
                labels@.len() == i,
                states@.len() == i,
                forall|k: int| 0 <= k < i ==> (#[trigger] labels@[k])@ == jobs@[k].label(),
                forall|k: int| 0 <= k < i ==> states@[k] == JobState::Pending,
            decreases jobs.len() - i,
        {
            labels.push(jobs[i].file_name());
            states.push(JobState::Pending);
            i = i + 1;
        }
        let scheduler = BatchScheduler {
            jobs,
            labels,
            states,
            permits: Semaphore::new(limit),
            dispatched: 0,
            successful: 0,
            failed: 0,
            finished: false,
            trace: Ghost(Seq::empty()),
        };
        proof {
            lemma_initial_wf(scheduler.jobs@.len(), limit as nat);
            lemma_none_running(scheduler.states@);
            assert(scheduler@.states =~= BatchModel::initial(
                scheduler.jobs@.len(),
                limit as nat,
            ).states);
        }
        scheduler
    }

    /// The number of jobs in the batch.
    pub fn total(&self) -> (total: usize)
        requires
            self.wf(),
        ensures
            total == self@.total(),
    {
        self.jobs.len()
    }

    /// The most jobs that may run at once.
    pub fn limit(&self) -> (limit: usize)
        ensures
            limit == self@.limit,
    {
        self.permits.capacity()
    }

    /// The number of jobs that are running.
    pub fn running(&self) -> (running: usize)
        requires
            self.wf(),
        ensures
            running == self@.running(),
    {
        self.permits.permits_in_use()
    }

    /// Whether the summary has been emitted.
    pub fn is_finished(&self) -> (finished: bool)
        ensures
            finished == self@.finished,
    {
        self.finished
    }

    /// The job at `index`, where there is one.
    pub fn job(&self, index: usize) -> (job: Option<&BatchJob>)
        ensures
            index < self.jobs().len() ==> job == Some(&self.jobs()[index as int]),
            index >= self.jobs().len() ==> job is None,
    {
        if index < self.jobs.len() {
            Some(&self.jobs[index])
        } else {
            None
        }
    }

    /// Where the job at `index` stands, where there is one.
    pub fn state(&self, index: usize) -> (state: Option<JobState>)
        ensures
            index < self@.total() ==> state == Some(self@.states[index as int]),
            index >= self@.total() ==> state is None,
    {
        if index < self.states.len() {
            Some(self.states[index])
        } else {
            None
        }
    }

    /// Decides what is to be done next, and records it.
    ///
    /// While a job is left and a permit is free, the next job in order is
    /// started and its `Processing` event handed out. When every job has
    /// ended, the summary is handed out, once. In between the answer is to
    /// wait.
    pub fn next_action(&mut self) -> (action: BatchAction)
        requires
            old(self).wf(),
        ensures
            final(self).wf(),
            final(self)@.wf(),
            final(self).jobs() == old(self).jobs(),
            final(self).labels() == old(self).labels(),
            match old(self)@.decision() {
                Decision::Start { job } => {
                    &&& final(self)@ == old(self)@.start()
                    &&& final(self)@.running() == old(self)@.running() + 1
                    &&& action matches BatchAction::Start { index, event }
                    &&& index == job
                    &&& event@ == (ProgressView::Processing {
                        file: old(self).labels()[job as int],
                    })
                },
                Decision::Wait => final(self)@ == old(self)@ && action is Wait,
                Decision::Finish => {
                    &&& final(self)@ == old(self)@.finish()
                    &&& action matches BatchAction::Finish { event }
                    &&& event@ == (ProgressView::Finished {
                        successful: old(self)@.successful,
                        failed: old(self)@.failed,
                    })
                },
                Decision::Done => final(self)@ == old(self)@ && action is Done,
            },
    {
        if self.finished {
            return BatchAction::Done;
        }
        if self.dispatched < self.jobs.len() {
            let granted = self.permits.acquire();
            if !granted {
                return BatchAction::Wait;
            }
            let index: usize = self.dispatched;
            proof {
                lemma_start_wf(old(self)@);
            }
            self.states.set(index, JobState::Running);
            self.dispatched = index + 1;
            self.trace = Ghost(self.trace@.push(Emission::Processing { job: index as nat }));
            let event = BatchProgress::Processing { file: self.labels[index].clone() };
            return BatchAction::Start { index, event };
        }
        if self.permits.permits_in_use() > 0 {
            return BatchAction::Wait;
        }
        proof {
            lemma_finish_wf(old(self)@);
        }
        self.finished = true;
        self.trace = Ghost(
            self.trace@.push(
                Emission::Finished {
                    successful: self.successful as nat,
                    failed: self.failed as nat,
                },
            ),
        );
        BatchAction::Finish {
            event: BatchProgress::Finished { successful: self.successful, failed: self.failed },
        }
    }

    /// Records that the job at `index` has ended, with `outcome`, and hands
    /// out the event that reports it. The job gives its permit back.
    ///
    /// A report for a job that is not running is a fault: nothing changes.
    pub fn job_finished(&mut self, index: usize, outcome: Result<(), ConversionError>) -> (report:
        Result<BatchProgress, PermitSystemFault>)
        requires
            old(self).wf(),
        ensures
            final(self).wf(),
            final(self)@.wf(),
            final(self).jobs() == old(self).jobs(),
            final(self).labels() == old(self).labels(),
            old(self)@.can_end(index as nat) ==> {
                &&& final(self)@ == old(self)@.end(index as nat, outcome is Ok)
                &&& final(self)@.running() == old(self)@.running() - 1
                &&& report matches Ok(event)
                &&& event@ == terminal_view(old(self).labels()[index as int], outcome)
            },
            !old(self)@.can_end(index as nat) ==> final(self)@ == old(self)@ && report is Err,
    {
        if index >= self.states.len() {
            return Err(PermitSystemFault {});
        }
        if self.states[index] != JobState::Running {
            return Err(PermitSystemFault {});
        }
        let success = outcome.is_ok();
        proof {
            lemma_end_wf(old(self)@, index as nat, success);
            lemma_running_counts(old(self).states@, index as int);
        }
        let _ = self.permits.release();
        if success {
            self.states.set(index, JobState::Succeeded);
            self.successful = self.successful + 1;
            self.trace = Ghost(self.trace@.push(Emission::Completed { job: index as nat }));
        } else {
            self.states.set(index, JobState::Failed);
            self.failed = self.failed + 1;
            self.trace = Ghost(self.trace@.push(Emission::Failed { job: index as nat }));
        }
        Ok(terminal_event(self.labels[index].clone(), outcome))
    }
}

} // verus!
