use vstd::prelude::*;

verus! {

/// The flag after a signal, whatever it was before.
pub open spec fn signaled(pending: bool) -> bool {
    true
}

/// Whether a check of the flag delivers a wake.
pub open spec fn wake_of(pending: bool) -> bool {
    pending
}

/// The flag after a check: any request is consumed.
pub open spec fn after_check(pending: bool) -> bool {
    false
}

/// One operation on the flag, from any thread.
pub enum NotifyOp {
    Signal,
    Check,
}

/// The flag, and the number of wakes delivered, after `ops` run in order
/// from `pending`.
pub open spec fn run_ops(pending: bool, ops: Seq<NotifyOp>) -> (bool, nat)
    decreases ops.len(),
{
    if ops.len() == 0 {
        (pending, 0)
    } else {
        let (p, wakes) = run_ops(pending, ops.drop_last());
        match ops.last() {
            NotifyOp::Signal => (signaled(p), wakes),
            NotifyOp::Check => (after_check(p), wakes + if wake_of(p) {
                1nat
            } else {
                0nat
            }),
        }
    }
}

/// `n` signals in a row.
pub open spec fn signals(n: nat) -> Seq<NotifyOp> {
    Seq::new(n, |i: int| NotifyOp::Signal)
}

/// `n` checks in a row.
pub open spec fn checks(n: nat) -> Seq<NotifyOp> {
    Seq::new(n, |i: int| NotifyOp::Check)
}

/// The "wake requested" flag at the heart of the notify primitive.
///
/// Signals are coalesced: any number of them before the next check leaves
/// exactly one pending request behind.
pub struct NotifyFlag {
    pending: bool,
}

impl View for NotifyFlag {
    type V = bool;

    closed spec fn view(&self) -> bool {
        self.pending
    }
}

impl NotifyFlag {
    /// A flag with no pending request.
    pub fn new() -> (r: Self)
        ensures
            r@ == false,
    {
        NotifyFlag { pending: false }
    }

    /// Records a wake request.
    pub fn signal(&mut self)
        ensures
            final(self)@ == signaled(old(self)@),
    {
        self.pending = true;
    }

    /// Consumes the pending request, if any: returns whether one was there.
    /// A waiter checks before it blocks and after each wake-up, so a signal
    /// that came first is seen.
    pub fn take(&mut self) -> (r: bool)
        ensures
            r == wake_of(old(self)@),
            final(self)@ == after_check(old(self)@),
    {
        let r = self.pending;
        self.pending = false;
        r
    }

    /// Whether a wake request is pending, without consuming it.
    pub fn is_pending(&self) -> (r: bool)
        ensures
            r == self@,
    {
        self.pending
    }
}

proof fn lemma_run_signals(pending: bool, n: nat)
    ensures
        run_ops(pending, signals(n)) == (pending || n > 0, 0nat),
    decreases n,
{
    if n > 0 {
        assert(signals(n).drop_last() =~= signals((n - 1) as nat));
        lemma_run_signals(pending, (n - 1) as nat);
    }
}

proof fn lemma_run_append_checks(pending: bool, ops: Seq<NotifyOp>, k: nat)
    ensures
        run_ops(pending, ops + checks(k)).0 == (run_ops(pending, ops).0 && k == 0),
        run_ops(pending, ops + checks(k)).1 == run_ops(pending, ops).1 + (if run_ops(
            pending,
            ops,
        ).0 && k > 0 {
            1nat
        } else {
            0nat
        }),
    decreases k,
{
    if k == 0 {
        assert(ops + checks(0) =~= ops);
    } else {
        assert((ops + checks(k)).drop_last() =~= ops + checks((k - 1) as nat));
        lemma_run_append_checks(pending, ops, (k - 1) as nat);
    }
}

/// Signals coalesce: after a wait has consumed the flag, any number `n >= 1`
/// of signals followed by any number `k >= 1` of checks delivers exactly one
/// wake, and leaves no request pending.
pub proof fn lemma_signals_coalesce(n: nat, k: nat)
    requires
        n >= 1,
        k >= 1,
    ensures
        run_ops(false, signals(n) + checks(k)) == (false, 1nat),
{
    lemma_run_signals(false, n);
    lemma_run_append_checks(false, signals(n), k);
}

/// No signal is missed: whatever came before, a check that follows a signal
/// delivers a wake.
pub proof fn lemma_signal_not_missed(pending: bool, before: Seq<NotifyOp>)
    ensures
        run_ops(pending, before.push(NotifyOp::Signal).push(NotifyOp::Check)).1 == run_ops(
            pending,
            before,
        ).1 + 1,
{
    let s = before.push(NotifyOp::Signal);
    assert(s.push(NotifyOp::Check).drop_last() =~= s);
    assert(s.drop_last() =~= before);
    assert(s.last() == NotifyOp::Signal);
    assert(run_ops(pending, s) == (true, run_ops(pending, before).1));
    assert(s.push(NotifyOp::Check).last() == NotifyOp::Check);
}

} // verus!
