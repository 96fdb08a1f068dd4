//! The consumer's side of a batch: the tally it keeps of the events it has
//! received.
use crate::batch::{BatchProgress, ProgressView};
use vstd::prelude::*;

verus! {

/// What a consumer knows of a batch from the events it has seen.
pub struct Tally {
    /// The number of jobs in the batch.
    pub total: nat,
    /// The number of jobs seen to have ended, well or not.
    pub completed: nat,
    /// The number of jobs seen to have failed.
    pub failed: nat,
    /// The two counts of the summary, once it has been seen.
    pub summary: Option<(nat, nat)>,
}

impl Tally {
    /// The tally before any event.
    pub open spec fn start(total: nat) -> Tally {
        Tally { total, completed: 0, failed: 0, summary: None }
    }

    /// The tally after one more event. A job that ends counts while the
    /// batch has jobs left to end; after the summary nothing counts.
    pub open spec fn observe(self, event: ProgressView) -> Tally {
        if self.summary is Some {
            self
        } else {
            match event {
                ProgressView::Processing { .. } => self,
                ProgressView::Completed { .. } => if self.completed < self.total {
                    Tally { completed: self.completed + 1, ..self }
                } else {
                    self
                },
                ProgressView::Failed { .. } => if self.completed < self.total {
                    Tally { completed: self.completed + 1, failed: self.failed + 1, ..self }
                } else {
                    self
                },
                ProgressView::Finished { successful, failed } => Tally {
                    summary: Some((successful, failed)),
                    ..self
                },
            }
        }
    }

    /// The tally after a run of events, oldest first.
    pub open spec fn observe_all(self, events: Seq<ProgressView>) -> Tally
        decreases events.len(),
    {
        if events.len() == 0 {
            self
        } else {
            self.observe_all(events.drop_last()).observe(events.last())
        }
    }

    /// No more jobs have failed than have ended, and no more have ended
    /// than there are.
    pub open spec fn wf(self) -> bool {
        self.failed <= self.completed <= self.total
    }
}

/// The tally that a consumer keeps while it drains the progress channel.
pub struct ProgressTracker {
    total: usize,
    completed: usize,
    failed: usize,
    summary: Option<(usize, usize)>,
}

impl View for ProgressTracker {
    type V = Tally;

    closed spec fn view(&self) -> Tally {
        Tally {
            total: self.total as nat,
            completed: self.completed as nat,
            failed: self.failed as nat,
            summary: match self.summary {
                Some((successful, failed)) => Some((successful as nat, failed as nat)),
                None => None,
            },
        }
    }
}

impl ProgressTracker {
    /// A tracker for a batch of `total` jobs.
    pub fn new(total: usize) -> (tracker: ProgressTracker)
        ensures
            tracker@ == Tally::start(total as nat),
            tracker@.wf(),
    {
        ProgressTracker { total, completed: 0, failed: 0, summary: None }
    }

    /// Takes note of one event. The answer says whether the batch is over,
    /// which it is from the summary on.
    pub fn observe(&mut self, event: &BatchProgress) -> (over: bool)
        requires
            old(self)@.wf(),
        ensures
            final(self)@ == old(self)@.observe(event@),
            final(self)@.wf(),
            over == final(self)@.summary is Some,
    {
        if self.summary.is_some() {
            return true;
        }
        match event {
            BatchProgress::Processing { .. } => false,
            BatchProgress::Completed { .. } => {
                if self.completed < self.total {
                    self.completed = self.completed + 1;
                }
                false
            },
            BatchProgress::Failed { .. } => {
                if self.completed < self.total {
                    self.completed = self.completed + 1;
                    self.failed = self.failed + 1;
                }
                false
            },
            BatchProgress::Finished { successful, failed } => {
                self.summary = Some((*successful, *failed));
                true
            },
        }
    }

    /// The number of jobs in the batch.
    pub fn total(&self) -> (total: usize)
        ensures
            total == self@.total,
    {
        self.total
    }

    /// The number of jobs seen to have ended, well or not.
    pub fn completed(&self) -> (completed: usize)
        ensures
            completed == self@.completed,
    {
        self.completed
    }

    /// The number of jobs seen to have failed.
    pub fn failed(&self) -> (failed: usize)
        ensures
            failed == self@.failed,
    {
        self.failed
    }

    /// The counts of the summary, successful first, once it has been seen.
    pub fn summary(&self) -> (summary: Option<(usize, usize)>)
        ensures
            match summary {
                Some((successful, failed)) => self@.summary == Some(
                    (successful as nat, failed as nat),
                ),
                None => self@.summary is None,
            },
    {
        self.summary
    }
}

} // verus!
