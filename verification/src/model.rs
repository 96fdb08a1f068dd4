//! A batch as a mathematical value: the state of each job, the counters,
//! and the trace of every event emitted so far. The scheduler is stated
//! against this model, and what always holds of a batch is proved of it.
use vstd::prelude::*;

verus! {

/// One emitted event, with the job it belongs to named by its position in
/// the batch.
pub enum Emission {
    Processing { job: nat },
    Completed { job: nat },
    Failed { job: nat },
    Finished { successful: nat, failed: nat },
}

/// The four sorts of event.
pub enum EventKind {
    Processing,
    Completed,
    Failed,
    Finished,
}

impl Emission {
    pub open spec fn kind(self) -> EventKind {
        match self {
            Emission::Processing { .. } => EventKind::Processing,
            Emission::Completed { .. } => EventKind::Completed,
            Emission::Failed { .. } => EventKind::Failed,
            Emission::Finished { .. } => EventKind::Finished,
        }
    }

    /// Whether the event ends a job.
    pub open spec fn is_terminal(self) -> bool {
        self is Completed || self is Failed
    }

    /// The job that a `Processing`, `Completed` or `Failed` event is about.
    pub open spec fn job(self) -> nat {
        match self {
            Emission::Processing { job } => job,
            Emission::Completed { job } => job,
            Emission::Failed { job } => job,
            Emission::Finished { .. } => 0,
        }
    }
}

/// How often a sort of event occurs in a trace.
pub open spec fn occurrences(trace: Seq<Emission>, kind: EventKind) -> nat
    decreases trace.len(),
{
    if trace.len() == 0 {
        0
    } else {
        occurrences(trace.drop_last(), kind) + if trace.last().kind() == kind {
            1nat
        } else {
            0nat
        }
    }
}

/// The number of jobs that a trace shows as begun and not ended.
pub open spec fn in_flight(trace: Seq<Emission>) -> int {
    occurrences(trace, EventKind::Processing) - occurrences(trace, EventKind::Completed)
        - occurrences(trace, EventKind::Failed)
}

/// Where a job of a batch stands.
#[derive(Debug, Clone, Copy, PartialEq, Eq, Structural)]
pub enum JobState {
    Pending,
    Running,
    Succeeded,
    Failed,
}

/// The number of jobs that are running.
pub open spec fn running_jobs(states: Seq<JobState>) -> nat
    decreases states.len(),
{
    if states.len() == 0 {
        0
    } else {
        running_jobs(states.drop_last()) + if states.last() == JobState::Running {
            1nat
        } else {
            0nat
        }
    }
}

/// What the dispatcher of a batch does next.
pub enum Decision {
    /// Hand the named job to a worker.
    Start { job: nat },
    /// Every permit is out, or every job is handed off and some still run:
    /// wait for a worker to report.
    Wait,
    /// Every job has ended: emit the summary.
    Finish,
    /// The summary is out: nothing is left to do.
    Done,
}

/// One step of a batch.
pub enum Step {
    /// The next job is handed off.
    Start,
    /// The named job, which was running, has ended.
    End { job: nat, success: bool },
    /// The summary is emitted.
    Finish,
}

/// The state of a batch.
pub struct BatchModel {
    /// The most jobs that may run at once.
    pub limit: nat,
    /// Where each job stands, in the order of submission.
    pub states: Seq<JobState>,
    /// The number of jobs handed off so far; jobs are handed off in order.
    pub dispatched: nat,
    pub successful: nat,
    pub failed: nat,
    /// Whether the summary has been emitted.
    pub finished: bool,
    /// Every event emitted so far, oldest first.
    pub trace: Seq<Emission>,
}

/// What one event of a trace says of the state of the batch.
pub open spec fn event_agrees(event: Emission, position: int, model: BatchModel) -> bool {
    match event {
        Emission::Processing { job } => job < model.states.len() && model.states[job as int]
            != JobState::Pending,
        Emission::Completed { job } => job < model.states.len() && model.states[job as int]
            == JobState::Succeeded,
        Emission::Failed { job } => job < model.states.len() && model.states[job as int]
            == JobState::Failed,
        Emission::Finished { successful, failed } => {
            &&& model.finished
            &&& position == model.trace.len() - 1
            &&& successful == model.successful
            &&& failed == model.failed
        },
    }
}

/// What the state of one job says of the trace.
pub open spec fn job_recorded(trace: Seq<Emission>, job: int, state: JobState) -> bool {
    &&& state != JobState::Pending ==> trace.contains(Emission::Processing { job: job as nat })
    &&& state == JobState::Succeeded ==> trace.contains(Emission::Completed { job: job as nat })
    &&& state == JobState::Failed ==> trace.contains(Emission::Failed { job: job as nat })
}

impl BatchModel {
    /// A batch of `total` jobs before anything has happened.
    pub open spec fn initial(total: nat, limit: nat) -> BatchModel {
        BatchModel {
            limit,
            states: Seq::new(total, |i: int| JobState::Pending),
            dispatched: 0,
            successful: 0,
            failed: 0,
            finished: false,
            trace: Seq::empty(),
        }
    }

    pub open spec fn total(self) -> nat {
        self.states.len()
    }

    pub open spec fn running(self) -> nat {
        running_jobs(self.states)
    }

    pub open spec fn can_start(self) -> bool {
        !self.finished && self.dispatched < self.total() && self.running() < self.limit
    }

    pub open spec fn can_end(self, job: nat) -> bool {
        job < self.total() && self.states[job as int] == JobState::Running
    }

    pub open spec fn can_finish(self) -> bool {
        !self.finished && self.dispatched == self.total() && self.running() == 0
    }

    pub open spec fn decision(self) -> Decision {
        if self.finished {
            Decision::Done
        } else if self.can_start() {
            Decision::Start { job: self.dispatched }
        } else if self.can_finish() {
            Decision::Finish
        } else {
            Decision::Wait
        }
    }

    /// The next job is handed off and reports `Processing`.
    pub open spec fn start(self) -> BatchModel {
        BatchModel {
            states: self.states.update(self.dispatched as int, JobState::Running),
            dispatched: self.dispatched + 1,
            trace: self.trace.push(Emission::Processing { job: self.dispatched }),
            ..self
        }
    }

    /// A running job ends and reports `Completed` or `Failed`.
    pub open spec fn end(self, job: nat, success: bool) -> BatchModel {
        if success {
            BatchModel {
                states: self.states.update(job as int, JobState::Succeeded),
                successful: self.successful + 1,
                trace: self.trace.push(Emission::Completed { job }),
                ..self
            }
        } else {
            BatchModel {
                states: self.states.update(job as int, JobState::Failed),
                failed: self.failed + 1,
                trace: self.trace.push(Emission::Failed { job }),
                ..self
            }
        }
    }

    /// The summary is emitted.
    pub open spec fn finish(self) -> BatchModel {
        BatchModel {
            finished: true,
            trace: self.trace.push(
                Emission::Finished { successful: self.successful, failed: self.failed },
            ),
            ..self
        }
    }

    /// Whether a step can be taken.
    pub open spec fn enabled(self, step: Step) -> bool {
        match step {
            Step::Start => self.can_start(),
            Step::End { job, .. } => self.can_end(job),
            Step::Finish => self.can_finish(),
        }
    }

    /// The batch after a step.
    pub open spec fn step(self, step: Step) -> BatchModel {
        match step {
            Step::Start => self.start(),
            Step::End { job, success } => self.end(job, success),
            Step::Finish => self.finish(),
        }
    }

    /// The batch after a run of steps, oldest first.
    pub open spec fn run(self, steps: Seq<Step>) -> BatchModel
        decreases steps.len(),
    {
        if steps.len() == 0 {
            self
        } else {
            self.run(steps.drop_last()).step(steps.last())
        }
    }

    /// Whether each step of a run can be taken when its turn comes.
    pub open spec fn admits(self, steps: Seq<Step>) -> bool
        decreases steps.len(),
    {
        steps.len() == 0 || (self.admits(steps.drop_last()) && self.run(
            steps.drop_last(),
        ).enabled(steps.last()))
    }

    /// What holds of a batch at every moment.
    pub open spec fn wf(self) -> bool {
        &&& self.dispatched <= self.total()
        &&& forall|i: int|
            0 <= i < self.total() ==> ((#[trigger] self.states[i]) == JobState::Pending <==> i
                >= self.dispatched)
        &&& self.running() <= self.limit
        &&& self.successful + self.failed + self.running() == self.dispatched
        &&& self.finished ==> self.dispatched == self.total() && self.running() == 0
        &&& forall|p: int|
            0 <= p < self.trace.len() ==> event_agrees(#[trigger] self.trace[p], p, self)
        &&& forall|j: int|
            0 <= j < self.total() ==> job_recorded(self.trace, j, #[trigger] self.states[j])
        &&& self.trace.no_duplicates()
        &&& forall|p: int|
            0 <= p < self.trace.len() && (#[trigger] self.trace[p]).is_terminal()
                ==> self.trace.take(p).contains(
                Emission::Processing { job: self.trace[p].job() },
            )
        &&& self.finished ==> self.trace.len() > 0 && self.trace.last() == (Emission::Finished {
            successful: self.successful,
            failed: self.failed,
        })
        &&& occurrences(self.trace, EventKind::Completed) == self.successful
        &&& occurrences(self.trace, EventKind::Failed) == self.failed
        &&& occurrences(self.trace, EventKind::Finished) == if self.finished {
            1nat
        } else {
            0nat
        }
        &&& in_flight(self.trace) == self.running()
        &&& forall|k: int|
            0 <= k <= self.trace.len() ==> in_flight(#[trigger] self.trace.take(k)) <= self.limit
    }
}

/// One more event adds one to the count of its own sort and nothing to
/// the others.
pub proof fn lemma_occurrences_push(trace: Seq<Emission>, event: Emission, kind: EventKind)
    ensures
        occurrences(trace.push(event), kind) == occurrences(trace, kind) + if event.kind()
            == kind {
            1nat
        } else {
            0nat
        },
{
    assert(trace.push(event).drop_last() =~= trace);
}

/// Every event of a trace is of one of the four sorts.
pub proof fn lemma_occurrences_cover(trace: Seq<Emission>)
    ensures
        occurrences(trace, EventKind::Processing) + occurrences(trace, EventKind::Completed)
            + occurrences(trace, EventKind::Failed) + occurrences(trace, EventKind::Finished)
            == trace.len(),
    decreases trace.len(),
{
    if trace.len() > 0 {
        lemma_occurrences_cover(trace.drop_last());
    }
}

/// A sort of event that no event of a trace is of does not occur in it.
pub proof fn lemma_occurrences_none(trace: Seq<Emission>, kind: EventKind)
    requires
        forall|i: int| 0 <= i < trace.len() ==> (#[trigger] trace[i]).kind() != kind,
    ensures
        occurrences(trace, kind) == 0,
    decreases trace.len(),
{
    if trace.len() > 0 {
        lemma_occurrences_none(trace.drop_last(), kind);
    }
}

/// A sort of event occurs in the start of a trace at most as often as in
/// the whole of it.
pub proof fn lemma_occurrences_prefix(trace: Seq<Emission>, events: int, kind: EventKind)
    requires
        0 <= events <= trace.len(),
    ensures
        occurrences(trace.take(events), kind) <= occurrences(trace, kind),
    decreases trace.len(),
{
    if events < trace.len() {
        assert(trace.drop_last().take(events) =~= trace.take(events));
        lemma_occurrences_prefix(trace.drop_last(), events, kind);
    } else {
        assert(trace.take(events) =~= trace);
    }
}

/// A `Processing` event adds one job under way, a `Completed` or `Failed`
/// event takes one away, and the summary changes nothing.
pub proof fn lemma_in_flight_push(trace: Seq<Emission>, event: Emission)
    ensures
        in_flight(trace.push(event)) == in_flight(trace) + if event is Processing {
            1int
        } else if event.is_terminal() {
            -1int
        } else {
            0int
        },
{
    lemma_occurrences_push(trace, event, EventKind::Processing);
    lemma_occurrences_push(trace, event, EventKind::Completed);
    lemma_occurrences_push(trace, event, EventKind::Failed);
}

/// A longer trace holds what the shorter one held, and the new event.
pub proof fn lemma_contains_push(trace: Seq<Emission>, event: Emission, needle: Emission)
    ensures
        trace.push(event).contains(needle) <==> trace.contains(needle) || needle == event,
{
    let longer = trace.push(event);
    if trace.contains(needle) {
        let i = choose|i: int| 0 <= i < trace.len() && trace[i] == needle;
        assert(longer[i] == needle);
    }
    if needle == event {
        assert(longer[trace.len() as int] == needle);
    }
    if longer.contains(needle) {
        let i = choose|i: int| 0 <= i < longer.len() && longer[i] == needle;
        if i < trace.len() {
            assert(trace[i] == needle);
        }
    }
}

/// Changing the state of one job changes the number of running jobs by
/// that job alone.
pub proof fn lemma_running_update(states: Seq<JobState>, job: int, state: JobState)
    requires
        0 <= job < states.len(),
    ensures
        running_jobs(states.update(job, state)) == running_jobs(states) - if states[job]
            == JobState::Running {
            1int
        } else {
            0int
        } + if state == JobState::Running {
            1int
        } else {
            0int
        },
    decreases states.len(),
{
    let updated = states.update(job, state);
    if job == states.len() - 1 {
        assert(updated.drop_last() =~= states.drop_last());
    } else {
        lemma_running_update(states.drop_last(), job, state);
        assert(updated.drop_last() =~= states.drop_last().update(job, state));
    }
}

/// A job that is running is counted.
pub proof fn lemma_running_counts(states: Seq<JobState>, job: int)
    requires
        0 <= job < states.len(),
        states[job] == JobState::Running,
    ensures
        running_jobs(states) >= 1,
    decreases states.len(),
{
    if job < states.len() - 1 {
        lemma_running_counts(states.drop_last(), job);
    }
}

/// Where no job is running, the count is zero.
pub proof fn lemma_none_running(states: Seq<JobState>)
    requires
        forall|i: int| 0 <= i < states.len() ==> states[i] != JobState::Running,
    ensures
        running_jobs(states) == 0,
    decreases states.len(),
{
    if states.len() > 0 {
        lemma_none_running(states.drop_last());
    }
}

/// A fresh batch is well formed.
pub proof fn lemma_initial_wf(total: nat, limit: nat)
    ensures
        BatchModel::initial(total, limit).wf(),
{
    let model = BatchModel::initial(total, limit);
    lemma_none_running(model.states);
    assert forall|k: int| 0 <= k <= model.trace.len() implies in_flight(
        #[trigger] model.trace.take(k),
    ) <= limit by {
        assert(model.trace.take(k) =~= model.trace);
    }
}

/// One more event keeps what a trace has to say of the batch. The step
/// that emits it leaves every state where it was or moves it on, the
/// event is one that the batch before the step could not have emitted,
/// and it agrees with the batch after the step.
proof fn lemma_push_event(model: BatchModel, next: BatchModel, event: Emission)
    requires
        model.wf(),
        !model.finished,
        next.trace == model.trace.push(event),
        next.limit == model.limit,
        next.states.len() == model.states.len(),
        forall|j: int|
            0 <= j < model.states.len() ==> {
                ||| (#[trigger] next.states[j]) == model.states[j]
                ||| model.states[j] == JobState::Pending && next.states[j] == JobState::Running
                    && event == (Emission::Processing { job: j as nat })
                ||| model.states[j] == JobState::Running && next.states[j] == JobState::Succeeded
                    && event == (Emission::Completed { job: j as nat })
                ||| model.states[j] == JobState::Running && next.states[j] == JobState::Failed
                    && event == (Emission::Failed { job: j as nat })
            },
        forall|p: int| !event_agrees(event, p, model),
        event_agrees(event, model.trace.len() as int, next),
        event.is_terminal() ==> model.states[event.job() as int] == JobState::Running,
        in_flight(next.trace) <= next.limit,
    ensures
        forall|p: int| 0 <= p < next.trace.len() ==> event_agrees(#[trigger] next.trace[p], p, next),
        forall|j: int|
            0 <= j < next.total() ==> job_recorded(next.trace, j, #[trigger] next.states[j]),
        next.trace.no_duplicates(),
        forall|p: int|
            0 <= p < next.trace.len() && (#[trigger] next.trace[p]).is_terminal()
                ==> next.trace.take(p).contains(
                Emission::Processing { job: next.trace[p].job() },
            ),
        forall|k: int|
            0 <= k <= next.trace.len() ==> in_flight(#[trigger] next.trace.take(k)) <= next.limit,
{
    assert forall|p: int| 0 <= p < next.trace.len() implies event_agrees(
        #[trigger] next.trace[p],
        p,
        next,
    ) by {
        if p < model.trace.len() {
            assert(event_agrees(model.trace[p], p, model));
        }
    }
    assert forall|j: int| 0 <= j < next.total() implies job_recorded(
        next.trace,
        j,
        #[trigger] next.states[j],
    ) by {
        assert(job_recorded(model.trace, j, model.states[j]));
        lemma_contains_push(model.trace, event, Emission::Processing { job: j as nat });
        lemma_contains_push(model.trace, event, Emission::Completed { job: j as nat });
        lemma_contains_push(model.trace, event, Emission::Failed { job: j as nat });
    }
    assert forall|i: int, j: int|
        0 <= i < next.trace.len() && 0 <= j < next.trace.len() && i != j implies next.trace[i]
        != next.trace[j] by {
        if i < model.trace.len() {
            assert(event_agrees(model.trace[i], i, model));
        }
        if j < model.trace.len() {
            assert(event_agrees(model.trace[j], j, model));
        }
    }
    assert forall|p: int|
        0 <= p < next.trace.len() && (#[trigger] next.trace[p]).is_terminal()
        implies next.trace.take(p).contains(Emission::Processing { job: next.trace[p].job() }) by {
        if p < model.trace.len() {
            assert(next.trace.take(p) =~= model.trace.take(p));
            assert(model.trace[p].is_terminal());
        } else {
            let job = event.job() as int;
            assert(next.trace.take(p) =~= model.trace);
            assert(job_recorded(model.trace, job, model.states[job]));
        }
    }
    assert forall|k: int| 0 <= k <= next.trace.len() implies in_flight(
        #[trigger] next.trace.take(k),
    ) <= next.limit by {
        if k <= model.trace.len() {
            assert(next.trace.take(k) =~= model.trace.take(k));
        } else {
            assert(next.trace.take(k) =~= next.trace);
        }
    }
}

/// Handing off the next job keeps a batch well formed.
pub proof fn lemma_start_wf(model: BatchModel)
    requires
        model.wf(),
        model.can_start(),
    ensures
        model.start().wf(),
        model.start().running() == model.running() + 1,
{
    let job = model.dispatched;
    let event = Emission::Processing { job };
    lemma_running_update(model.states, job as int, JobState::Running);
    lemma_in_flight_push(model.trace, event);
    lemma_occurrences_push(model.trace, event, EventKind::Completed);
    lemma_occurrences_push(model.trace, event, EventKind::Failed);
    lemma_occurrences_push(model.trace, event, EventKind::Finished);
    lemma_push_event(model, model.start(), event);
}

/// The end of a running job keeps a batch well formed.
pub proof fn lemma_end_wf(model: BatchModel, job: nat, success: bool)
    requires
        model.wf(),
        model.can_end(job),
    ensures
        model.end(job, success).wf(),
        model.end(job, success).running() == model.running() - 1,
        !model.finished,
{
    let event = if success {
        Emission::Completed { job }
    } else {
        Emission::Failed { job }
    };
    let state = if success {
        JobState::Succeeded
    } else {
        JobState::Failed
    };
    lemma_running_counts(model.states, job as int);
    lemma_running_update(model.states, job as int, state);
    lemma_in_flight_push(model.trace, event);
    lemma_occurrences_push(model.trace, event, EventKind::Completed);
    lemma_occurrences_push(model.trace, event, EventKind::Failed);
    lemma_occurrences_push(model.trace, event, EventKind::Finished);
    lemma_push_event(model, model.end(job, success), event);
}

/// Emitting the summary keeps a batch well formed.
pub proof fn lemma_finish_wf(model: BatchModel)
    requires
        model.wf(),
        model.can_finish(),
    ensures
        model.finish().wf(),
{
    let event = Emission::Finished { successful: model.successful, failed: model.failed };
    lemma_in_flight_push(model.trace, event);
    lemma_occurrences_push(model.trace, event, EventKind::Completed);
    lemma_occurrences_push(model.trace, event, EventKind::Failed);
    lemma_occurrences_push(model.trace, event, EventKind::Finished);
    lemma_push_event(model, model.finish(), event);
}

/// Whatever steps a batch takes, it stays well formed, and its trace
/// holds one event for each step.
pub proof fn lemma_run_wf(model: BatchModel, steps: Seq<Step>)
    requires
        model.wf(),
        model.admits(steps),
    ensures
        model.run(steps).wf(),
        model.run(steps).trace.len() == model.trace.len() + steps.len(),
        model.run(steps).limit == model.limit,
        model.run(steps).total() == model.total(),
    decreases steps.len(),
{
    if steps.len() > 0 {
        let before = model.run(steps.drop_last());
        lemma_run_wf(model, steps.drop_last());
        match steps.last() {
            Step::Start => lemma_start_wf(before),
            Step::End { job, success } => lemma_end_wf(before, job, success),
            Step::Finish => lemma_finish_wf(before),
        }
    }
}

} // verus!
