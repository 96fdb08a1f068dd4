//! The progress channel: an unbounded first-in, first-out queue between
//! the producers of a batch and the one consumer that polls it. Sharing it
//! between threads is left to whoever holds it.
use crate::batch::BatchProgress;
use std::collections::VecDeque;
use vstd::prelude::*;

verus! {

/// The queue of progress events that have been sent and not yet received.
pub struct ProgressChannel {
    queue: VecDeque<BatchProgress>,
    connected: bool,
    accepted: Ghost<Seq<BatchProgress>>,
    delivered: Ghost<Seq<BatchProgress>>,
}

impl ProgressChannel {
    /// The events that wait for the consumer, oldest first.
    pub closed spec fn pending(&self) -> Seq<BatchProgress> {
        self.queue@
    }

    /// Whether the consumer is still there.
    pub closed spec fn connected(&self) -> bool {
        self.connected
    }

    /// Every event sent while the consumer was there, oldest first.
    pub closed spec fn accepted(&self) -> Seq<BatchProgress> {
        self.accepted@
    }

    /// Every event that the consumer has received, oldest first.
    pub closed spec fn delivered(&self) -> Seq<BatchProgress> {
        self.delivered@
    }

    /// While the consumer is there, what it has received and what waits for
    /// it are together what was sent, in the order of sending. Once it is
    /// gone nothing waits.
    pub closed spec fn wf(&self) -> bool {
        &&& self.connected ==> self.accepted@ == self.delivered@ + self.queue@
        &&& !self.connected ==> self.queue@.len() == 0
    }

    /// An empty channel with its consumer there.
    pub fn new() -> (channel: ProgressChannel)
        ensures
            channel.wf(),
            channel.connected(),
            channel.pending() == Seq::<BatchProgress>::empty(),
            channel.accepted() == Seq::<BatchProgress>::empty(),
            channel.delivered() == Seq::<BatchProgress>::empty(),
    {
        ProgressChannel {
            queue: VecDeque::new(),
            connected: true,
            accepted: Ghost(Seq::empty()),
            delivered: Ghost(Seq::empty()),
        }
    }

    /// Sends an event. The call never waits and never fails: the event goes
    /// to the end of the queue, or is dropped where the consumer is gone.
    pub fn send(&mut self, event: BatchProgress)
        requires
            old(self).wf(),
        ensures
            final(self).wf(),
            final(self).connected() == old(self).connected(),
            final(self).delivered() == old(self).delivered(),
            old(self).connected() ==> final(self).pending() == old(self).pending().push(event)
                && final(self).accepted() == old(self).accepted().push(event),
            !old(self).connected() ==> final(self).pending() == old(self).pending()
                && final(self).accepted() == old(self).accepted(),
    {
        if self.connected {
            proof {
                assert((self.delivered@ + self.queue@).push(event) =~= self.delivered@
                    + self.queue@.push(event));
            }
            self.accepted = Ghost(self.accepted@.push(event));
            self.queue.push_back(event);
        }
    }

    /// Takes the oldest waiting event, or says at once that none waits.
    pub fn try_receive(&mut self) -> (event: Option<BatchProgress>)
        requires
            old(self).wf(),
        ensures
            final(self).wf(),
            final(self).connected() == old(self).connected(),
            final(self).accepted() == old(self).accepted(),
            match event {
                Some(received) => {
                    &&& old(self).pending().len() > 0
                    &&& received == old(self).pending()[0]
                    &&& final(self).pending() == old(self).pending().skip(1)
                    &&& final(self).delivered() == old(self).delivered().push(received)
                },
                None => {
                    &&& old(self).pending().len() == 0
                    &&& final(self).pending() == old(self).pending()
                    &&& final(self).delivered() == old(self).delivered()
                },
            },
    {
        let event = self.queue.pop_front();
        if event.is_some() {
            proof {
                let before = old(self).queue@;
                assert(before.subrange(1, before.len() as int) =~= before.skip(1));
                assert(self.delivered@.push(before[0]) + before.skip(1) =~= self.delivered@
                    + before);
            }
            self.delivered = Ghost(self.delivered@.push(old(self).queue@[0]));
        }
        event
    }

    /// The consumer goes away: what waits is dropped, and so is whatever is
    /// sent from now on.
    pub fn disconnect(&mut self)
        ensures
            final(self).wf(),
            !final(self).connected(),
            final(self).pending() == Seq::<BatchProgress>::empty(),
            final(self).accepted() == old(self).accepted(),
            final(self).delivered() == old(self).delivered(),
    {
        self.connected = false;
        self.queue.clear();
    }

    /// The number of events that wait.
    pub fn pending_count(&self) -> (count: usize)
        ensures
            count == self.pending().len(),
    {
        self.queue.len()
    }

    /// Whether the consumer is still there.
    pub fn is_connected(&self) -> (connected: bool)
        ensures
            connected == self.connected(),
    {
        self.connected
    }
}

/// Nothing is lost, doubled or reordered: while the consumer is there, the
/// events it has received followed by those that wait are exactly the
/// events that were sent, in the order in which they were sent.
pub proof fn lemma_channel_keeps_order(channel: ProgressChannel)
    requires
        channel.wf(),
        channel.connected(),
    ensures
        channel.accepted() == channel.delivered() + channel.pending(),
{
}

} // verus!
