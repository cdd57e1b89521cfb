//! The shared FIFO job queue.
//!
//! One logical queue feeds every worker. A job enters once, carries the
//! index of its submission, and leaves through exactly one successful pull:
//! pulling removes the front element, so no two pulls can return the same
//! job. Once the producer side is closed and the queue has drained, every
//! further pull reports `Closed`, which is how workers learn to exit.

use vstd::prelude::*;

verus! {

/// One queued job: its submission index and its command text.
pub struct Job {
    /// Position in submission order, starting at 0.
    pub index: usize,
    /// The command string as it was submitted.
    pub text: String,
}

/// What one pull attempt observed.
pub enum PullOutcome {
    /// The front job, now removed from the queue.
    Pulled(Job),
    /// Nothing queued, but the producer side is still open: a blocking
    /// puller would wait and try again.
    Empty,
    /// Nothing queued and the producer side is closed: the puller is done.
    Closed,
}

/// The multi-consumer FIFO queue of pending jobs.
pub struct SharedJobQueue {
    pending: Vec<Job>,
    open: bool,
    issued: usize,
}

impl SharedJobQueue {
    /// The jobs currently queued, front first.
    pub closed spec fn pending(self) -> Seq<Job> {
        self.pending@
    }

    /// Whether the producer side is still open.
    pub closed spec fn is_open(self) -> bool {
        self.open
    }

    /// How many jobs have ever been pushed; also the index the next push
    /// will carry.
    pub closed spec fn issued(self) -> nat {
        self.issued as nat
    }

    /// The queued jobs carry consecutive submission indices ending at
    /// `issued() - 1`: the front is the oldest still queued.
    pub open spec fn wf(self) -> bool {
        &&& self.pending().len() <= self.issued()
        &&& forall|i: int| 0 <= i < self.pending().len()
            ==> (#[trigger] self.pending()[i]).index as nat
                == self.issued() - self.pending().len() + i
    }

    /// How many jobs are queued right now.
    pub fn pending_len(&self) -> (n: usize)
        ensures
            n == self.pending().len(),
    {
        self.pending.len()
    }

    /// How many jobs have ever been pushed.
    pub fn total_issued(&self) -> (n: usize)
        ensures
            n == self.issued(),
    {
        self.issued
    }

    /// Enqueues one job; never blocks, never drops. The job takes the next
    /// submission index.
    pub fn push(&mut self, text: String)
        requires
            old(self).wf(),
            old(self).is_open(),
            old(self).issued() < usize::MAX,
        ensures
            final(self).wf(),
            final(self).is_open(),
            final(self).issued() == old(self).issued() + 1,
            final(self).pending() == old(self).pending().push(
                Job { index: old(self).issued() as usize, text },
            ),
    {
        let idx = self.issued;
        self.pending.push(Job { index: idx, text });
        self.issued = idx + 1;
    }

    /// Closes the producer side: no further pushes; pulls drain what is
    /// left and then report `Closed`.
    pub fn close(&mut self)
        requires
            old(self).wf(),
        ensures
            final(self).wf(),
            !final(self).is_open(),
            final(self).pending() == old(self).pending(),
            final(self).issued() == old(self).issued(),
    {
        self.open = false;
    }

    /// One pull attempt. Exactly one of three things happens: the front job
    /// is handed out and removed (so no other pull can ever receive it),
    /// or the queue is momentarily empty but still open, or the queue is
    /// drained and closed and the puller should stop.
    pub fn try_pull(&mut self) -> (r: PullOutcome)
        requires
            old(self).wf(),
        ensures
            final(self).wf(),
            final(self).is_open() == old(self).is_open(),
            final(self).issued() == old(self).issued(),
            old(self).pending().len() > 0 ==> r == PullOutcome::Pulled(
                old(self).pending()[0],
            ) && final(self).pending() == old(self).pending().drop_first(),
            old(self).pending().len() == 0 ==> final(self).pending() == old(self).pending()
                && r == (if old(self).is_open() {
                    PullOutcome::Empty
                } else {
                    PullOutcome::Closed
                }),
    {
        if self.pending.len() > 0 {
            let ghost before = self.pending();
            let job = self.pending.remove(0);
            proof {
                assert(self.pending() =~= before.drop_first());
            }
            PullOutcome::Pulled(job)
        } else if self.open {
            PullOutcome::Empty
        } else {
            PullOutcome::Closed
        }
    }

    /// Enqueues a batch of job texts in order, tagging each with its
    /// submission index.
    pub fn enqueue_all(&mut self, jobs: Vec<String>)
        requires
            old(self).wf(),
            old(self).is_open(),
            old(self).issued() + jobs@.len() <= usize::MAX,
        ensures
            final(self).wf(),
            final(self).is_open(),
            final(self).issued() == old(self).issued() + jobs@.len(),
            final(self).pending().len() == old(self).pending().len() + jobs@.len(),
            final(self).pending().take(old(self).pending().len() as int)
                == old(self).pending(),
            forall|i: int| 0 <= i < jobs@.len()
                ==> (#[trigger] final(self).pending()[old(self).pending().len() + i]).text@
                        == jobs@[i]@
                    && final(self).pending()[old(self).pending().len() + i].index as nat
                        == old(self).issued() + i,
    {
        let ghost base_pending = self.pending();
        let ghost base_issued = self.issued();
        let n = jobs.len();
        let mut k: usize = 0;
        while k < n
            invariant
                k <= n,
                n == jobs@.len(),
                self.wf(),
                self.is_open(),
                self.issued() == base_issued + k,
                self.pending().len() == base_pending.len() + k,
                self.pending().take(base_pending.len() as int) == base_pending,
                base_issued + n <= usize::MAX,
                forall|i: int| 0 <= i < k
                    ==> (#[trigger] self.pending()[base_pending.len() + i]).text@
                            == jobs@[i]@
                        && self.pending()[base_pending.len() + i].index as nat
                            == base_issued + i,
            decreases n - k,
        {
            let text = jobs[k].clone();
            let ghost before = self.pending();
            self.push(text);
            proof {
                assert(self.pending().take(base_pending.len() as int)
                    =~= before.take(base_pending.len() as int));
            }
            k = k + 1;
        }
    }
}

/// Creates the one logical queue that the job source fills and every worker
/// pulls from: empty, open, with no job issued yet.
pub fn shared_channel() -> (q: SharedJobQueue)
    ensures
        q.wf(),
        q.is_open(),
        q.issued() == 0,
        q.pending() == Seq::<Job>::empty(),
{
    SharedJobQueue { pending: Vec::new(), open: true, issued: 0 }
}

} // verus!
