//! The coordinator's state: which slot is active, the process held in each slot,
//! whether an update runs, and the callers parked behind it.
use crate::slot::Slot;
use std::collections::VecDeque;
use tokio::sync::oneshot::{Receiver, Sender};
use vstd::prelude::*;

verus! {

/// tokio's one-shot sender, held opaque: the end that wakes a parked caller.
#[verifier::external_type_specification]
#[verifier::external_body]
#[verifier::reject_recursive_types(T)]
pub struct ExSender<T>(Sender<T>);

/// tokio's one-shot receiver, held opaque: the end a parked caller awaits.
#[verifier::external_type_specification]
#[verifier::external_body]
#[verifier::reject_recursive_types(T)]
pub struct ExReceiver<T>(Receiver<T>);

/// tokio's error for a receiver whose sender was dropped, held opaque. Nothing
/// here names it, but the receiver's `Future` impl does, and Verus wants every
/// type of that impl declared before it accepts the receiver.
#[verifier::external_type_specification]
#[verifier::external_body]
pub struct ExRecvError(tokio::sync::oneshot::error::RecvError);

/// Relies on `tokio::sync::oneshot::channel`: a fresh one-shot channel whose
/// receiver observes either the signal or, once the sender is dropped, cancellation.
#[verifier::external_body]
fn new_waiter() -> (Sender<()>, Receiver<()>) {
    tokio::sync::oneshot::channel()
}

/// Relies on `tokio::sync::oneshot::Sender::send`: `Ok` unless the receiver is
/// already gone. Whether it is gone is decided outside, so nothing is promised.
#[verifier::external_body]
fn wake(waiter: Sender<()>) -> bool {
    waiter.send(()).is_ok()
}

/// The abstract state of the coordinator, without the process handles and the
/// parked callers.
#[derive(Clone, Copy, Debug, PartialEq, Eq, Structural)]
pub struct HandlerView {
    /// Slot receiving public traffic.
    pub active: Option<Slot>,
    /// Whether slot one holds a process.
    pub running1: bool,
    /// Whether slot two holds a process.
    pub running2: bool,
    /// Whether an update sequence is executing.
    pub updating: bool,
    /// Slot the proxy was last pointed at.
    pub world: Slot,
}

impl HandlerView {
    pub open spec fn running(self, s: Slot) -> bool {
        match s {
            Slot::One => self.running1,
            Slot::Two => self.running2,
        }
    }

    /// The active slot holds a process.
    pub open spec fn serving(self) -> bool {
        forall|s: Slot| self.active == Some(s) ==> #[trigger] self.running(s)
    }

    /// Number of slots that hold a process.
    pub open spec fn running_count(self) -> nat {
        (if self.running1 { 1nat } else { 0nat }) + (if self.running2 { 1nat } else { 0nat })
    }
}

/// Entering the update path: afterwards an update runs, and the caller is
/// admitted at once exactly when none ran before.
pub open spec fn admission(before: HandlerView, after: HandlerView, admitted: bool) -> bool {
    &&& after == HandlerView { updating: true, ..before }
    &&& admitted <==> !before.updating
}

/// Leaving the update path: either the turn passed to a parked caller and an
/// update still runs, or no caller was left and none runs.
pub open spec fn release(before: HandlerView, after: HandlerView, handed_over: bool) -> bool {
    if handed_over {
        after == before
    } else {
        after == HandlerView { updating: false, ..before }
    }
}

/// A cheap read-only summary of the coordinator.
#[derive(Clone, Copy, Debug, PartialEq, Eq)]
pub struct InstanceStatus {
    pub current_main_instance: Option<Slot>,
    pub instance1_running: bool,
    pub instance2_running: bool,
    pub update_in_progress: bool,
    pub queued_update_requests: usize,
}

/// The update coordinator. `P` is the handle of a running slot process.
pub struct InstanceHandler<P> {
    current_main_instance: Option<Slot>,
    instance1_proc: Option<P>,
    instance2_proc: Option<P>,
    update_in_progress: bool,
    queued_update_waiters: VecDeque<Sender<()>>,
    world_backend: Slot,
}

impl<P> InstanceHandler<P> {
    pub closed spec fn view(&self) -> HandlerView {
        HandlerView {
            active: self.current_main_instance,
            running1: self.instance1_proc is Some,
            running2: self.instance2_proc is Some,
            updating: self.update_in_progress,
            world: self.world_backend,
        }
    }

    /// The process held in slot `s`.
    pub closed spec fn proc(&self, s: Slot) -> Option<P> {
        match s {
            Slot::One => self.instance1_proc,
            Slot::Two => self.instance2_proc,
        }
    }

    /// Callers parked behind the running update, oldest first.
    pub closed spec fn waiters(&self) -> Seq<Sender<()>> {
        self.queued_update_waiters@
    }

    /// Callers are parked only while an update runs.
    pub closed spec fn wf(&self) -> bool {
        self.queued_update_waiters@.len() > 0 ==> self.update_in_progress
    }

    /// What well-formedness says: a caller is parked only while an update runs.
    pub proof fn lemma_parked_only_while_updating(&self)
        requires
            self.wf(),
        ensures
            self.waiters().len() > 0 ==> self.view().updating,
    {
    }

    pub proof fn lemma_proc_matches_view(&self, s: Slot)
        ensures
            self.view().running(s) <==> self.proc(s) is Some,
    {
    }

    /// A coordinator before startup: no active slot, no process, no update, and
    /// the proxy on slot one.
    pub fn new() -> (r: Self)
        ensures
            r.wf(),
            r.view() == (HandlerView {
                active: None,
                running1: false,
                running2: false,
                updating: false,
                world: Slot::One,
            }),
            r.waiters().len() == 0,
    {
        InstanceHandler {
            current_main_instance: None,
            instance1_proc: None,
            instance2_proc: None,
            update_in_progress: false,
            queued_update_waiters: VecDeque::new(),
            world_backend: Slot::One,
        }
    }

    pub fn status_snapshot(&self) -> (r: InstanceStatus)
        ensures
            r.current_main_instance == self.view().active,
            r.instance1_running == self.view().running1,
            r.instance2_running == self.view().running2,
            r.update_in_progress == self.view().updating,
            r.queued_update_requests as nat == self.waiters().len(),
    {
        InstanceStatus {
            current_main_instance: self.current_main_instance,
            instance1_running: self.instance1_proc.is_some(),
            instance2_running: self.instance2_proc.is_some(),
            update_in_progress: self.update_in_progress,
            queued_update_requests: self.queued_update_waiters.len(),
        }
    }

    pub fn is_running(&self, s: Slot) -> (r: bool)
        ensures
            r == self.view().running(s),
    {
        match s {
            Slot::One => self.instance1_proc.is_some(),
            Slot::Two => self.instance2_proc.is_some(),
        }
    }

    pub fn active(&self) -> (r: Option<Slot>)
        ensures
            r == self.view().active,
    {
        self.current_main_instance
    }

    pub fn world_backend(&self) -> (r: Slot)
        ensures
            r == self.view().world,
    {
        self.world_backend
    }

    /// Takes the process out of slot `s`, leaving the slot empty; the caller
    /// terminates it. An empty slot gives `None`.
    pub fn terminate_instance(&mut self, s: Slot) -> (r: Option<P>)
        requires
            old(self).wf(),
        ensures
            final(self).wf(),
            r == old(self).proc(s),
            final(self).proc(s) is None,
            final(self).proc(s.spec_other()) == old(self).proc(s.spec_other()),
            final(self).view() == (match s {
                Slot::One => HandlerView { running1: false, ..old(self).view() },
                Slot::Two => HandlerView { running2: false, ..old(self).view() },
            }),
            final(self).waiters() == old(self).waiters(),
    {
        match s {
            Slot::One => self.instance1_proc.take(),
            Slot::Two => self.instance2_proc.take(),
        }
    }

    /// Stops everything: both processes are handed back for termination, no slot
    /// is active, no update runs, and every parked caller is dropped, so that its
    /// receiver observes cancellation.
    pub fn shutdown(&mut self) -> (r: (Option<P>, Option<P>))
        ensures
            final(self).wf(),
            r.0 == old(self).proc(Slot::One),
            r.1 == old(self).proc(Slot::Two),
            final(self).view() == (HandlerView {
                active: None,
                running1: false,
                running2: false,
                updating: false,
                world: old(self).view().world,
            }),
            final(self).waiters().len() == 0,
    {
        let first = self.instance1_proc.take();
        let second = self.instance2_proc.take();
        self.current_main_instance = None;
        self.update_in_progress = false;
        self.queued_update_waiters.clear();
        (first, second)
    }

    /// Records the active slot.
    pub(crate) fn set_active(&mut self, s: Option<Slot>)
        requires
            old(self).wf(),
        ensures
            final(self).wf(),
            final(self).view() == (HandlerView { active: s, ..old(self).view() }),
            forall|t: Slot| #[trigger] final(self).proc(t) == old(self).proc(t),
            final(self).waiters() == old(self).waiters(),
    {
        self.current_main_instance = s;
    }

    /// Records the slot the proxy now points at.
    pub(crate) fn set_world_backend(&mut self, s: Slot)
        requires
            old(self).wf(),
        ensures
            final(self).wf(),
            final(self).view() == (HandlerView { world: s, ..old(self).view() }),
            forall|t: Slot| #[trigger] final(self).proc(t) == old(self).proc(t),
            final(self).waiters() == old(self).waiters(),
    {
        self.world_backend = s;
    }

    /// Stores a freshly started process in the empty slot `s`.
    pub(crate) fn attach_instance(&mut self, s: Slot, p: P)
        requires
            old(self).wf(),
            old(self).proc(s) is None,
        ensures
            final(self).wf(),
            final(self).proc(s) == Some(p),
            final(self).proc(s.spec_other()) == old(self).proc(s.spec_other()),
            final(self).view() == (match s {
                Slot::One => HandlerView { running1: true, ..old(self).view() },
                Slot::Two => HandlerView { running2: true, ..old(self).view() },
            }),
            final(self).waiters() == old(self).waiters(),
    {
        match s {
            Slot::One => self.instance1_proc = Some(p),
            Slot::Two => self.instance2_proc = Some(p),
        }
    }

    /// Entry into the update path. With no update running the caller is admitted
    /// at once (`None`) and an update is marked as running; otherwise the caller
    /// is parked at the back of the queue and receives the end it must await.
    pub fn queue_update_request(&mut self) -> (r: Option<Receiver<()>>)
        requires
            old(self).wf(),
        ensures
            final(self).wf(),
            admission(old(self).view(), final(self).view(), r is None),
            forall|s: Slot| #[trigger] final(self).proc(s) == old(self).proc(s),
            r is None <==> !old(self).view().updating,
            r is None ==> final(self).waiters() == old(self).waiters(),
            r is Some ==> final(self).waiters().len() == old(self).waiters().len() + 1,
            r is Some ==> final(self).waiters().drop_last() == old(self).waiters(),
    {
        if self.update_in_progress {
            let (tx, rx) = new_waiter();
            self.queued_update_waiters.push_back(tx);
            proof {
                assert(self.queued_update_waiters@.drop_last() =~= old(self).queued_update_waiters@);
            }
            Some(rx)
        } else {
            self.update_in_progress = true;
            None
        }
    }

    /// One step of the exit path: the oldest parked caller leaves the queue and
    /// is returned, to be offered the turn. With nobody parked, no update is
    /// running any more.
    pub fn pop_next_waiter(&mut self) -> (r: Option<Sender<()>>)
        requires
            old(self).wf(),
        ensures
            final(self).wf(),
            forall|s: Slot| #[trigger] final(self).proc(s) == old(self).proc(s),
            old(self).waiters().len() > 0 ==> r == Some(old(self).waiters()[0])
                && final(self).waiters() == old(self).waiters().drop_first()
                && final(self).view() == old(self).view(),
            old(self).waiters().len() == 0 ==> r is None && final(self).waiters().len() == 0
                && final(self).view() == (HandlerView { updating: false, ..old(self).view() }),
    {
        let next = self.queued_update_waiters.pop_front();
        if next.is_none() {
            self.update_in_progress = false;
        }
        next
    }

    /// Exit of the update path. Parked callers are offered the turn oldest first,
    /// each through `pop_next_waiter`; one whose receiver is gone is dropped and
    /// the next is tried. Returns whether a caller took the turn; when none did,
    /// the queue is empty and no update is running any more.
    pub fn process_next_queued_update(&mut self) -> (r: bool)
        requires
            old(self).wf(),
        ensures
            final(self).wf(),
            forall|s: Slot| #[trigger] final(self).proc(s) == old(self).proc(s),
            release(old(self).view(), final(self).view(), r),
            !r ==> final(self).waiters().len() == 0,
            exists|k: int|
                #![trigger old(self).waiters().skip(k)]
                0 <= k <= old(self).waiters().len() && (r ==> k >= 1)
                    && final(self).waiters() == old(self).waiters().skip(k),
    {
        let ghost start = self.queued_update_waiters@;
        let ghost mut k: int = 0;
        assert(start.skip(0) =~= start);
        loop
            invariant
                self.wf(),
                forall|s: Slot| #[trigger] self.proc(s) == old(self).proc(s),
                self.view() == old(self).view(),
                start == old(self).waiters(),
                0 <= k <= start.len(),
                self.waiters() == start.skip(k),
            decreases self.waiters().len(),
        {
            match self.pop_next_waiter() {
                Some(waiter) => {
                    proof {
                        assert(self.waiters() =~= start.skip(k + 1));
                        k = k + 1;
                    }
                    if wake(waiter) {
                        return true;
                    }
                },
                None => {
                    return false;
                },
            }
        }
    }
}

} // verus!
