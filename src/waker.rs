use vstd::prelude::*;

use crate::runtime::WakerEvent;

verus! {

/// What the notifier thread does after an event.
#[derive(Clone, Copy, Debug, PartialEq, Eq, Structural)]
pub enum NotifierAction {
    /// Block until the notify primitive is signalled, then ask the host,
    /// through the stored handle, to run the bridge.
    WaitThenInvoke,
    /// Leave the loop: the thread ends.
    Exit,
}

/// The decisions of the notifier thread: it holds the bridge handle of the
/// current cycle from `Init` until `Done`.
pub struct Notifier<H> {
    handle: Option<H>,
}

impl<H> Notifier<H> {
    /// The handle held, if any.
    pub closed spec fn handle(&self) -> Option<H> {
        self.handle
    }

    /// A notifier that has not been given a handle.
    pub fn new() -> (r: Self)
        ensures
            r.handle() == Option::<H>::None,
    {
        Notifier { handle: None }
    }

    /// Whether a handle is held: the thread is within a cycle.
    pub fn is_active(&self) -> (r: bool)
        ensures
            r == self.handle().is_some(),
    {
        self.handle.is_some()
    }

    /// The handle held, if any, to ask the host for a bridge run.
    pub fn handle_ref(&self) -> (r: Option<&H>)
        ensures
            r == match self.handle() {
                Some(h) => Some(&h),
                None => Option::<&H>::None,
            },
    {
        match &self.handle {
            Some(h) => Some(h),
            None => None,
        }
    }

    /// Takes in one event. `Init` stores its handle and `Next` keeps the one
    /// held; both then wait and invoke. `Done` drops the handle and exits, as
    /// does a `Next` that comes with no handle held, having nothing to invoke.
    pub fn on_event(&mut self, event: WakerEvent<H>) -> (r: NotifierAction)
        ensures
            match event {
                WakerEvent::Init(h) => final(self).handle() == Some(h) && r
                    == NotifierAction::WaitThenInvoke,
                WakerEvent::Next => final(self).handle() == old(self).handle() && r == (if old(
                    self,
                ).handle().is_some() {
                    NotifierAction::WaitThenInvoke
                } else {
                    NotifierAction::Exit
                }),
                WakerEvent::Done => final(self).handle() == Option::<H>::None && r
                    == NotifierAction::Exit,
            },
    {
        match event {
            WakerEvent::Init(h) => {
                self.handle = Some(h);
                NotifierAction::WaitThenInvoke
            },
            WakerEvent::Next => {
                if self.handle.is_some() {
                    NotifierAction::WaitThenInvoke
                } else {
                    NotifierAction::Exit
                }
            },
            WakerEvent::Done => {
                self.handle = None;
                NotifierAction::Exit
            },
        }
    }
}

} // verus!
