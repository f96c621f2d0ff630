use vstd::prelude::*;

verus! {

/// Admission control for the optional synchronous-download mode: a
/// process-wide FIFO that lets one fetch run at a time, across all
/// names, strictly in submission order.
///
/// A caller takes a ticket with [`SyncQueue::enqueue`], runs when
/// [`SyncQueue::is_turn`] says the ticket is being served, and hands
/// the turn on with [`SyncQueue::finish_turn`].  The waiting itself is
/// done by the process that drives the fetches; this type only decides
/// who runs next.
pub struct SyncQueue {
    next_ticket: u64,
    now_serving: u64,
}

impl SyncQueue {
    /// The ticket the next submission will receive.
    pub closed spec fn spec_next_ticket(&self) -> u64 {
        self.next_ticket
    }

    /// The ticket currently allowed to run.
    pub closed spec fn spec_now_serving(&self) -> u64 {
        self.now_serving
    }

    /// Tickets are served in the order they were issued, and only
    /// issued tickets are served.
    pub open spec fn wf(&self) -> bool {
        self.spec_now_serving() <= self.spec_next_ticket()
    }

    /// An empty queue: nothing submitted, nothing waiting.
    pub fn new() -> (r: Self)
        ensures
            r.wf(),
            r.spec_next_ticket() == 0,
            r.spec_now_serving() == 0,
    {
        SyncQueue { next_ticket: 0, now_serving: 0 }
    }

    /// Submits one call and returns its ticket.  Tickets are issued in
    /// strictly increasing order.
    pub fn enqueue(&mut self) -> (t: u64)
        requires
            old(self).wf(),
            old(self).spec_next_ticket() < u64::MAX,
        ensures
            final(self).wf(),
            t == old(self).spec_next_ticket(),
            final(self).spec_next_ticket() == old(self).spec_next_ticket() + 1,
            final(self).spec_now_serving() == old(self).spec_now_serving(),
    {
        let t = self.next_ticket;
        self.next_ticket = self.next_ticket + 1;
        t
    }

    /// Whether ticket `t` is the one being served.
    pub fn is_turn(&self, t: u64) -> (r: bool)
        ensures
            r == (t == self.spec_now_serving()),
    {
        t == self.now_serving
    }

    /// Ends the turn of the ticket being served; the next submission,
    /// if any, runs.
    pub fn finish_turn(&mut self)
        requires
            old(self).wf(),
            old(self).spec_now_serving() < old(self).spec_next_ticket(),
        ensures
            final(self).wf(),
            final(self).spec_now_serving() == old(self).spec_now_serving() + 1,
            final(self).spec_next_ticket() == old(self).spec_next_ticket(),
    {
        self.now_serving = self.now_serving + 1;
    }

    /// How many submitted calls have not finished their turn.
    pub fn pending(&self) -> (r: u64)
        requires
            self.wf(),
        ensures
            r == self.spec_next_ticket() - self.spec_now_serving(),
    {
        self.next_ticket - self.now_serving
    }
}

/// The queue is strictly first-in-first-out: when a ticket's turn
/// comes, every ticket submitted before it has already finished its
/// turn.
pub proof fn lemma_fifo_order(q: SyncQueue, earlier: u64, current: u64)
    requires
        earlier < current,
        current == q.spec_now_serving(),
    ensures
        earlier < q.spec_now_serving(),
{
}

} // verus!
