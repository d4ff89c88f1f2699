use vstd::prelude::*;

use crate::scheduler::{pending_of, LocalScheduler};

verus! {

/// Why the wake cycle could not be set up with the host.
#[derive(Clone, Copy, Debug, PartialEq, Eq, Structural)]
pub enum SetupError {
    /// The host refused to create the callback registration.
    CallbackCreation,
    /// The notifier thread could not be started.
    NotifierThread,
}

/// An event from the bridge to the notifier thread.
pub enum WakerEvent<H> {
    /// First activation of a cycle: the handle through which the notifier
    /// thread asks the host to run the bridge.
    Init(H),
    /// Tasks are still pending: keep waking.
    Next,
    /// The queue is empty: the notifier thread may stop.
    Done,
}

/// Where the runtime stands in its wake cycle.
#[derive(Clone, Copy, Debug, PartialEq, Eq, Structural)]
pub enum CycleState {
    /// No bridge is installed and no notifier thread runs.
    Idle,
    /// A submission found the runtime idle and the queue empty: the caller
    /// is now registering the bridge with the host.
    Installing,
    /// The bridge is installed and the notifier thread is alive.
    Running,
}

/// What the caller of `spawn` must do next.
#[derive(Clone, Copy, Debug, PartialEq, Eq, Structural)]
pub enum SpawnStep {
    /// The task is queued; a running cycle will pick it up.
    Queued,
    /// The task is queued and opened a new cycle: register the bridge with
    /// the host and report the outcome to `install_result`.
    Install,
}

/// The local runtime: the task queue and the state of its wake cycle.
///
/// `installs` counts the bridges installed, `fills` the submissions that
/// found the queue empty. Every cycle is opened by such a submission, so
/// there are never more installs than fills.
pub struct LocalRuntime<T> {
    scheduler: LocalScheduler<T>,
    cycle: CycleState,
    installs: Ghost<nat>,
    fills: Ghost<nat>,
}

impl<T> LocalRuntime<T> {
    /// The pending tasks.
    pub closed spec fn queue(&self) -> Seq<T> {
        self.scheduler@
    }

    pub closed spec fn cycle(&self) -> CycleState {
        self.cycle
    }

    /// The number of bridges installed so far.
    pub closed spec fn installs(&self) -> nat {
        self.installs@
    }

    /// The number of submissions so far that found the queue empty.
    pub closed spec fn fills(&self) -> nat {
        self.fills@
    }

    /// Each install, and an install under way, is owed to its own fill.
    pub open spec fn wf(&self) -> bool {
        self.installs() + (if self.cycle() == CycleState::Installing { 1nat } else { 0nat })
            <= self.fills()
    }

    /// An idle runtime with no task.
    pub fn new() -> (r: Self)
        ensures
            r.wf(),
            r.queue() == Seq::<T>::empty(),
            r.cycle() == CycleState::Idle,
            r.installs() == 0,
            r.fills() == 0,
    {
        LocalRuntime {
            scheduler: LocalScheduler::new(),
            cycle: CycleState::Idle,
            installs: Ghost(0),
            fills: Ghost(0),
        }
    }

    /// The number of queued tasks.
    pub fn futures_count(&self) -> (r: usize)
        ensures
            r == self.queue().len(),
    {
        self.scheduler.futures_count()
    }

    /// Where the wake cycle stands.
    pub fn cycle_state(&self) -> (r: CycleState)
        ensures
            r == self.cycle(),
    {
        self.cycle
    }

    /// Submits a task. It opens a new cycle, and asks for the bridge to be
    /// installed, exactly when the runtime is idle and the queue was empty.
    pub fn spawn(&mut self, task: T) -> (r: SpawnStep)
        requires
            old(self).wf(),
        ensures
            final(self).wf(),
            final(self).queue() == old(self).queue().push(task),
            (r == SpawnStep::Install) == (old(self).cycle() == CycleState::Idle
                && old(self).queue().len() == 0),
            final(self).cycle() == (if r == SpawnStep::Install {
                CycleState::Installing
            } else {
                old(self).cycle()
            }),
            final(self).installs() == old(self).installs(),
            final(self).fills() == old(self).fills() + (if old(self).queue().len() == 0 {
                1nat
            } else {
                0nat
            }),
    {
        let was_empty = self.scheduler.futures_count() == 0;
        self.scheduler.queue_future(task);
        if was_empty {
            self.fills = Ghost(self.fills@ + 1);
        }
        if was_empty && self.cycle == CycleState::Idle {
            self.cycle = CycleState::Installing;
            SpawnStep::Install
        } else {
            SpawnStep::Queued
        }
    }

    /// Reports how registering the bridge went. On success the cycle runs
    /// and the notifier thread gets `Init` with the handle; on failure the
    /// runtime goes back to idle, and its tasks stay queued.
    pub fn install_result<H>(&mut self, created: Result<H, SetupError>) -> (r: Result<
        WakerEvent<H>,
        SetupError,
    >)
        requires
            old(self).wf(),
            old(self).cycle() == CycleState::Installing,
        ensures
            final(self).wf(),
            final(self).queue() == old(self).queue(),
            final(self).fills() == old(self).fills(),
            match created {
                Ok(h) => r == Ok::<WakerEvent<H>, SetupError>(WakerEvent::Init(h))
                    && final(self).cycle() == CycleState::Running
                    && final(self).installs() == old(self).installs() + 1,
                Err(e) => r == Err::<WakerEvent<H>, SetupError>(e)
                    && final(self).cycle() == CycleState::Idle
                    && final(self).installs() == old(self).installs(),
            },
    {
        match created {
            Ok(h) => {
                self.cycle = CycleState::Running;
                self.installs = Ghost(self.installs@ + 1);
                Ok(WakerEvent::Init(h))
            },
            Err(e) => {
                self.cycle = CycleState::Idle;
                Err(e)
            },
        }
    }

    /// Starts a bridge run: hands out every queued task in queue order.
    pub fn begin_pass(&mut self) -> (r: Vec<T>)
        requires
            old(self).wf(),
        ensures
            final(self).wf(),
            r@ == old(self).queue(),
            final(self).queue() == Seq::<T>::empty(),
            final(self).cycle() == old(self).cycle(),
            final(self).installs() == old(self).installs(),
            final(self).fills() == old(self).fills(),
    {
        self.scheduler.begin_pass()
    }

    /// Ends a bridge run of a running cycle: `polled` are the tasks of
    /// `begin_pass` after their poll, `ready[i]` whether task `i` completed.
    /// Returns `Done`, and ends the cycle, when no task is left; else `Next`.
    pub fn finish_pass<H>(&mut self, polled: Vec<T>, ready: &Vec<bool>) -> (r: WakerEvent<H>)
        requires
            old(self).wf(),
            old(self).cycle() == CycleState::Running,
            polled@.len() == ready@.len(),
        ensures
            final(self).wf(),
            final(self).queue() == pending_of(polled@, ready@) + old(self).queue(),
            final(self).installs() == old(self).installs(),
            final(self).fills() == old(self).fills(),
            final(self).queue().len() == 0 ==> r == WakerEvent::<H>::Done && final(self).cycle()
                == CycleState::Idle,
            final(self).queue().len() != 0 ==> r == WakerEvent::<H>::Next && final(self).cycle()
                == CycleState::Running,
    {
        let done = self.scheduler.finish_pass(polled, ready);
        if done {
            self.cycle = CycleState::Idle;
            WakerEvent::Done
        } else {
            WakerEvent::Next
        }
    }
}

/// Bridges are never installed more often than submissions find the queue
/// empty, whatever sequence of calls led to the runtime's state.
pub proof fn lemma_installs_bounded_by_fills<T>(rt: LocalRuntime<T>)
    requires
        rt.wf(),
    ensures
        rt.installs() <= rt.fills(),
{
}

} // verus!
