use vstd::prelude::*;

verus! {

/// The tasks of a pass that are still pending afterwards, in their order:
/// those whose poll did not report completion.
pub open spec fn pending_of<T>(polled: Seq<T>, ready: Seq<bool>) -> Seq<T>
    decreases polled.len(),
{
    if polled.len() == 0 {
        Seq::empty()
    } else {
        let rest = pending_of(polled.drop_last(), ready.drop_last());
        if ready.len() == polled.len() && !ready.last() {
            rest.push(polled.last())
        } else {
            rest
        }
    }
}

/// The queue of pending tasks, owned by the cooperative thread.
///
/// A pass takes the whole queue out (`begin_pass`), the caller polls each
/// task once in queue order, and `finish_pass` puts back those that are not
/// ready, ahead of any task submitted while the pass ran.
pub struct LocalScheduler<T> {
    queue: Vec<T>,
}

impl<T> View for LocalScheduler<T> {
    type V = Seq<T>;

    closed spec fn view(&self) -> Seq<T> {
        self.queue@
    }
}

/// Keeps the tasks whose poll reported "not ready", in their order.
pub fn retain_pending<T>(polled: Vec<T>, ready: &Vec<bool>) -> (r: Vec<T>)
    requires
        polled@.len() == ready@.len(),
    ensures
        r@ == pending_of(polled@, ready@),
{
    let ghost all = polled@;
    let n = polled.len();
    let mut rest = polled;
    let mut kept: Vec<T> = Vec::new();
    let mut i: usize = 0;
    while i < n
        invariant
            n == all.len(),
            n == ready@.len(),
            i <= n,
            rest@ == all.subrange(i as int, n as int),
            kept@ == pending_of(all.take(i as int), ready@.take(i as int)),
        decreases n - i,
    {
        let t = rest.remove(0);
        proof {
            let a = all.take(i + 1);
            let b = ready@.take(i + 1);
            assert(a.drop_last() =~= all.take(i as int));
            assert(b.drop_last() =~= ready@.take(i as int));
            assert(a.last() == all[i as int]);
            assert(rest@ =~= all.subrange(i + 1, n as int));
        }
        if !ready[i] {
            kept.push(t);
        }
        i = i + 1;
    }
    proof {
        assert(all.take(n as int) =~= all);
        assert(ready@.take(n as int) =~= ready@);
    }
    kept
}

/// A pass leaves nothing behind when its queue was empty: once a pass has
/// reported done, the next one, with no submission in between, hands out no
/// task and reports done again.
pub proof fn lemma_done_stays_done<T>(queue: Seq<T>, ready: Seq<bool>)
    requires
        queue.len() == 0,
        ready.len() == queue.len(),
    ensures
        (pending_of(queue, ready) + Seq::<T>::empty()).len() == 0,
{
}

impl<T> LocalScheduler<T> {
    /// An empty queue.
    pub fn new() -> (r: Self)
        ensures
            r@ == Seq::<T>::empty(),
    {
        LocalScheduler { queue: Vec::new() }
    }

    /// Takes ownership of a task and appends it to the queue.
    pub fn queue_future(&mut self, task: T)
        ensures
            final(self)@ == old(self)@.push(task),
    {
        self.queue.push(task);
    }

    /// The number of tasks in the queue.
    pub fn futures_count(&self) -> (r: usize)
        ensures
            r == self@.len(),
    {
        self.queue.len()
    }

    /// Starts a pass: hands out every queued task, in queue order, and leaves
    /// the queue empty.
    pub fn begin_pass(&mut self) -> (r: Vec<T>)
        ensures
            r@ == old(self)@,
            final(self)@ == Seq::<T>::empty(),
    {
        let mut r: Vec<T> = Vec::new();
        std::mem::swap(&mut r, &mut self.queue);
        r
    }

    /// Ends a pass: `polled` are the tasks of `begin_pass` after their poll,
    /// `ready[i]` whether task `i` completed. Completed tasks are dropped,
    /// the others go back ahead of the tasks submitted during the pass.
    /// Returns whether the queue is now empty.
    pub fn finish_pass(&mut self, polled: Vec<T>, ready: &Vec<bool>) -> (r: bool)
        requires
            polled@.len() == ready@.len(),
        ensures
            final(self)@ == pending_of(polled@, ready@) + old(self)@,
            r == (final(self)@.len() == 0),
    {
        let mut kept = retain_pending(polled, ready);
        kept.append(&mut self.queue);
        self.queue = kept;
        self.queue.len() == 0
    }
}

} // verus!
