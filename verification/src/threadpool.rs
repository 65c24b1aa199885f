//! The worker pool's coordination core: one shared FIFO queue carrying tasks
//! and termination markers, consumed competitively, each item delivered to
//! exactly one worker. The threads themselves live with the caller, whose
//! worker loop takes the next message with `deliver`, runs a task, and exits
//! on a termination marker.

use vstd::prelude::*;

verus! {

/// One item on the pool's shared queue: a task to run, or a termination
/// marker telling one worker to exit its loop.
pub enum Message<T> {
    Task(T),
    Break,
}

/// A sequence of `n` termination markers.
pub open spec fn break_markers<T>(n: nat) -> Seq<Message<T>> {
    Seq::new(n, |i: int| Message::Break)
}

/// The pool's queue state, with the ghost history that every law below rests
/// on: all messages ever enqueued, and all messages delivered so far, in
/// order.
pub struct ThreadPool<T> {
    pub queue: Vec<Message<T>>,
    pub live_workers: usize,
    pub enqueued: Ghost<Seq<Message<T>>>,
    pub delivered: Ghost<Seq<Message<T>>>,
}

impl<T> ThreadPool<T> {
    /// The queue invariant: what was enqueued is what has been delivered
    /// followed by what still waits.
    pub open spec fn wf(self) -> bool {
        self.enqueued@ == self.delivered@ + self.queue@
    }

    /// A pool of `size` workers with an empty queue.
    pub fn new(size: usize) -> (r: Self)
        requires
            size > 0,
        ensures
            r.wf(),
            r.live_workers == size,
            r.queue@ == Seq::<Message<T>>::empty(),
            r.enqueued@ == Seq::<Message<T>>::empty(),
            r.delivered@ == Seq::<Message<T>>::empty(),
    {
        let r = ThreadPool {
            queue: Vec::new(),
            live_workers: size,
            enqueued: Ghost(Seq::empty()),
            delivered: Ghost(Seq::empty()),
        };
        proof {
            assert(r.enqueued@ =~= r.delivered@ + r.queue@);
        }
        r
    }

    /// Add one more worker to the pool.
    pub fn add_worker(&mut self)
        requires
            old(self).live_workers < usize::MAX,
        ensures
            final(self).live_workers == old(self).live_workers + 1,
            final(self).queue == old(self).queue,
            final(self).enqueued == old(self).enqueued,
            final(self).delivered == old(self).delivered,
    {
        self.live_workers = self.live_workers + 1;
    }

    /// How many messages wait on the queue.
    pub fn queue_len(&self) -> (r: usize)
        ensures
            r == self.queue@.len(),
    {
        self.queue.len()
    }

    /// How many workers have not yet seen a termination marker.
    pub fn worker_count(&self) -> (r: usize)
        ensures
            r == self.live_workers,
    {
        self.live_workers
    }

    /// Enqueue a task. This returns at once: the producer never waits on a
    /// busy pool, and the queue grows without bound.
    pub fn execute(&mut self, task: T)
        requires
            old(self).wf(),
        ensures
            final(self).wf(),
            final(self).queue@ == old(self).queue@.push(Message::Task(task)),
            final(self).enqueued@ == old(self).enqueued@.push(Message::Task(task)),
            final(self).delivered@ == old(self).delivered@,
            final(self).live_workers == old(self).live_workers,
    {
        let ghost m = Message::Task(task);
        self.queue.push(Message::Task(task));
        self.enqueued = Ghost(self.enqueued@.push(m));
        proof {
            assert(self.enqueued@ =~= self.delivered@ + self.queue@);
        }
    }

    /// Take the next message off the queue, as one worker's loop does. A
    /// task is handed back for the worker to run; a termination marker
    /// retires one worker. Removal from the queue is what makes delivery
    /// exactly-once.
    pub fn deliver(&mut self) -> (m: Message<T>)
        requires
            old(self).wf(),
            old(self).queue@.len() > 0,
            old(self).live_workers > 0,
        ensures
            final(self).wf(),
            m == old(self).queue@[0],
            final(self).queue@ == old(self).queue@.drop_first(),
            final(self).delivered@ == old(self).delivered@.push(old(self).queue@[0]),
            final(self).enqueued@ == old(self).enqueued@,
            m is Break ==> final(self).live_workers == old(self).live_workers - 1,
            m is Task ==> final(self).live_workers == old(self).live_workers,
    {
        let ghost q0 = self.queue@[0];
        let m = self.queue.remove(0);
        self.delivered = Ghost(self.delivered@.push(q0));
        match &m {
            Message::Break => {
                self.live_workers = self.live_workers - 1;
            },
            Message::Task(_) => {},
        }
        proof {
            assert(old(self).queue@.remove(0) =~= old(self).queue@.drop_first());
            assert(self.enqueued@ =~= self.delivered@ + self.queue@);
        }
        m
    }

    /// Place exactly one termination marker per live worker on the same
    /// queue the tasks use. Tasks already queued stand before the markers
    /// and are delivered first; a task enqueued after the markers is behind
    /// them and is never run once every worker has exited.
    pub fn close(&mut self)
        requires
            old(self).wf(),
        ensures
            final(self).wf(),
            final(self).queue@ == old(self).queue@ + break_markers(old(self).live_workers as nat),
            final(self).enqueued@ == old(self).enqueued@ + break_markers(
                old(self).live_workers as nat,
            ),
            final(self).delivered@ == old(self).delivered@,
            final(self).live_workers == old(self).live_workers,
    {
        let n = self.live_workers;
        let mut k: usize = 0;
        while k < n
            invariant
                old(self).wf(),
                k <= n,
                n == self.live_workers,
                self.live_workers == old(self).live_workers,
                self.queue@ == old(self).queue@ + break_markers::<T>(k as nat),
                self.enqueued@ == old(self).enqueued@ + break_markers::<T>(k as nat),
                self.delivered@ == old(self).delivered@,
            decreases n - k,
        {
            self.queue.push(Message::Break);
            self.enqueued = Ghost(self.enqueued@.push(Message::Break));
            proof {
                assert(break_markers::<T>(k as nat).push(Message::Break) =~= break_markers::<T>(
                    k as nat + 1,
                ));
                assert(self.queue@ =~= old(self).queue@ + break_markers::<T>(k as nat + 1));
                assert(self.enqueued@ =~= old(self).enqueued@ + break_markers::<T>(k as nat + 1));
            }
            k += 1;
        }
        proof {
            assert(self.enqueued@ =~= self.delivered@ + self.queue@);
        }
    }
}

/// Law: deliveries happen in queue order — what has been delivered is
/// exactly the first `delivered.len()` messages ever enqueued. In
/// particular, every delivered task was enqueued, and every task enqueued
/// before `close` placed the termination markers stands before them and, if
/// delivered at all, is delivered before any of them.
pub proof fn lemma_delivered_is_prefix<T>(p: ThreadPool<T>)
    requires
        p.wf(),
    ensures
        p.delivered@.len() <= p.enqueued@.len(),
        p.delivered@ == p.enqueued@.take(p.delivered@.len() as int),
        forall|i: int| 0 <= i < p.delivered@.len() ==> p.delivered@[i] == p.enqueued@[i],
{
    assert(p.enqueued@.take(p.delivered@.len() as int) =~= p.delivered@);
}

/// Law: no task runs twice. When the enqueued tasks are pairwise distinct,
/// no two deliveries hand out the same task.
pub proof fn lemma_no_task_delivered_twice<T>(p: ThreadPool<T>, i: int, j: int)
    requires
        p.wf(),
        0 <= i < j < p.delivered@.len(),
        forall|k: int, l: int|
            0 <= k < l < p.enqueued@.len() && p.enqueued@[k] is Task && p.enqueued@[l] is Task
                ==> p.enqueued@[k] != p.enqueued@[l],
    ensures
        p.delivered@[i] is Task && p.delivered@[j] is Task ==> p.delivered@[i] != p.delivered@[j],
{
    lemma_delivered_is_prefix(p);
}

} // verus!
