//! The blue/green update sequence: pull, build, stage, start, probe, commit,
//! settle, flip, drain; as a machine from outcome to next action.
use crate::coordinator::{HandlerView, InstanceHandler};
use crate::health::probe_succeeded;
use crate::slot::Slot;
use crate::steps::{Action, ActionKind, Event, Outcome, Script};
use vstd::prelude::*;

verus! {

/// How many probes a new slot gets before it is given up.
pub const PROBE_ATTEMPTS: u32 = 10;

/// Seconds between two probes.
pub const PROBE_INTERVAL_SECS: u64 = 3;

/// Seconds between the commit and the flip of the proxy.
pub const SETTLE_SECS: u64 = 10;

/// Where an update sequence stands; each phase awaits the outcome of the action
/// that led into it.
#[derive(Clone, Copy, Debug, PartialEq, Eq, Structural)]
pub enum Phase {
    /// Nothing done yet.
    Ready,
    /// Awaits the pull of the latest sources.
    Pull,
    /// Awaits the build.
    Build,
    /// Awaits the move of the build into the new slot.
    Stage,
    /// Awaits the cleanup of the new slot after a failed move.
    StageCleanup,
    /// Awaits the start of the new slot's server.
    Attach,
    /// Awaits the answer of the probe with this number, counted from one.
    Probe(u32),
    /// Awaits the pause after the probe with this number.
    ProbeWait(u32),
    /// Awaits the end of the new slot's process, which is given up.
    Discard,
    /// Awaits the cleanup of the given-up new slot.
    DiscardCleanup,
    /// Awaits the settling pause after the commit.
    Settle,
    /// Awaits the proxy's answer to the flip.
    Flip,
    /// Awaits the end of the old slot's process.
    Drain,
    /// Awaits the cleanup of the old slot.
    DrainCleanup,
    /// Over; whether the other slot took over.
    Finished(bool),
}

/// The state of one update sequence: the slot it leaves, the slot it brings up,
/// its phase, and whether the new slot has passed its probe.
#[derive(Clone, Copy, Debug, PartialEq, Eq, Structural)]
pub struct SequenceState {
    pub old: Slot,
    pub new: Slot,
    pub phase: Phase,
    pub healthy: bool,
}

impl SequenceState {
    /// The slots differ, probe numbers stay in range, and every phase from the
    /// settling pause on comes after a passed probe.
    pub open spec fn wf(self) -> bool {
        &&& self.new == self.old.spec_other()
        &&& (self.phase matches Phase::Probe(n) ==> 1 <= n <= PROBE_ATTEMPTS)
        &&& (self.phase matches Phase::ProbeWait(n) ==> 1 <= n < PROBE_ATTEMPTS)
        &&& (self.phase is Settle || self.phase is Flip || self.phase is Drain
            || self.phase is DrainCleanup || self.phase == Phase::Finished(true)) ==> self.healthy
    }
}

/// A slot may be stopped when the proxy does not point at it and it is not the
/// active slot.
pub open spec fn may_stop(h: HandlerView, s: Slot) -> bool {
    s != h.world && h.active != Some(s)
}

pub open spec fn with_running(h: HandlerView, s: Slot, b: bool) -> HandlerView {
    match s {
        Slot::One => HandlerView { running1: b, ..h },
        Slot::Two => HandlerView { running2: b, ..h },
    }
}

pub open spec fn goto(q: SequenceState, p: Phase) -> SequenceState {
    SequenceState { phase: p, ..q }
}

pub open spec fn finish(q: SequenceState, h: HandlerView, ok: bool) -> (SequenceState, HandlerView, ActionKind) {
    (goto(q, Phase::Finished(ok)), h, ActionKind::Done(ok))
}

/// Gives up the new slot: stop it if that is allowed, then clean it up.
pub open spec fn discard_new(q: SequenceState, h: HandlerView) -> (SequenceState, HandlerView, ActionKind) {
    if h.running(q.new) && may_stop(h, q.new) {
        (goto(q, Phase::Discard), with_running(h, q.new, false), ActionKind::Kill(q.new))
    } else {
        (goto(q, Phase::DiscardCleanup), h, ActionKind::Run(Script::CleanupInstance, Some(q.new)))
    }
}

/// Drains the old slot: stop it if that is allowed, then clean it up.
pub open spec fn stop_old(q: SequenceState, h: HandlerView) -> (SequenceState, HandlerView, ActionKind) {
    if h.running(q.old) && may_stop(h, q.old) {
        (goto(q, Phase::Drain), with_running(h, q.old, false), ActionKind::Kill(q.old))
    } else {
        (goto(q, Phase::DrainCleanup), h, ActionKind::Run(Script::CleanupInstance, Some(q.old)))
    }
}

/// One transition of the update sequence: from its state, the coordinator's
/// state and the last outcome, to the next of each and the next action.
pub open spec fn update_step(q: SequenceState, h: HandlerView, e: Event) -> (SequenceState, HandlerView, ActionKind) {
    match q.phase {
        Phase::Ready => if h.active == Some(q.old) {
            (goto(q, Phase::Pull), h, ActionKind::Run(Script::PullLatestGitChanges, None))
        } else {
            finish(q, h, false)
        },
        Phase::Pull => if e == Event::Exited(true) {
            (goto(q, Phase::Build), h, ActionKind::Run(Script::CreateNewBuild, None))
        } else {
            finish(q, h, false)
        },
        Phase::Build => if e == Event::Exited(true) {
            (goto(q, Phase::Stage), h, ActionKind::Run(Script::MoveBuildToInstance, Some(q.new)))
        } else {
            finish(q, h, false)
        },
        Phase::Stage => if e != Event::Exited(true) {
            (goto(q, Phase::StageCleanup), h, ActionKind::Run(Script::CleanupInstance, Some(q.new)))
        } else if h.running(q.new) {
            finish(q, h, false)
        } else {
            (goto(q, Phase::Attach), h, ActionKind::Spawn(q.new))
        },
        Phase::StageCleanup => finish(q, h, false),
        Phase::Attach => if e != Event::Spawned {
            finish(q, h, false)
        } else if h.running(q.new) {
            (goto(q, Phase::Finished(false)), h, ActionKind::Discard)
        } else {
            (goto(q, Phase::Probe(1)), with_running(h, q.new, true), ActionKind::Probe(q.new))
        },
        Phase::Probe(n) => if e == Event::Health(true) {
            if h.active == Some(q.old) && h.running(q.new) {
                (
                    SequenceState { phase: Phase::Settle, healthy: true, ..q },
                    HandlerView { active: Some(q.new), ..h },
                    ActionKind::Sleep(SETTLE_SECS),
                )
            } else {
                discard_new(q, h)
            }
        } else if n < PROBE_ATTEMPTS {
            (goto(q, Phase::ProbeWait(n)), h, ActionKind::Sleep(PROBE_INTERVAL_SECS))
        } else {
            discard_new(q, h)
        },
        Phase::ProbeWait(n) => (goto(q, Phase::Probe((n + 1) as u32)), h, ActionKind::Probe(q.new)),
        Phase::Discard => (goto(q, Phase::DiscardCleanup), h, ActionKind::Run(Script::CleanupInstance, Some(q.new))),
        Phase::DiscardCleanup => finish(q, h, false),
        Phase::Settle => (goto(q, Phase::Flip), h, ActionKind::Publish(q.new)),
        Phase::Flip => if e == Event::Published(true) {
            stop_old(q, HandlerView { world: q.new, ..h })
        } else if h.active == Some(q.new) && h.running(q.old) {
            discard_new(q, HandlerView { active: Some(q.old), ..h })
        } else {
            discard_new(q, h)
        },
        Phase::Drain => (goto(q, Phase::DrainCleanup), h, ActionKind::Run(Script::CleanupInstance, Some(q.old))),
        Phase::DrainCleanup => finish(q, h, true),
        Phase::Finished(ok) => (q, h, ActionKind::Done(ok)),
    }
}

/// One update sequence in progress.
pub struct UpdateSequence {
    state: SequenceState,
}

impl UpdateSequence {
    pub closed spec fn view(&self) -> SequenceState {
        self.state
    }

    /// A sequence that replaces the currently active slot by the other one.
    /// Without an active slot it replaces nothing and ends at its first step.
    pub fn new<P>(h: &InstanceHandler<P>) -> (r: Self)
        ensures
            r.view().wf(),
            r.view().phase == Phase::Ready,
            !r.view().healthy,
            h.view().active is Some ==> h.view().active == Some(r.view().old),
            h.view().active is None ==> r.view().old == Slot::One,
    {
        let old = match h.active() {
            Some(s) => s,
            None => Slot::One,
        };
        UpdateSequence {
            state: SequenceState { old, new: old.other(), phase: Phase::Ready, healthy: false },
        }
    }

    pub fn state(&self) -> (r: SequenceState)
        ensures
            r == self.view(),
    {
        self.state
    }

    /// Takes the outcome of the last action, updates the coordinator where the
    /// sequence commits, flips, starts or stops a slot, and returns the next
    /// action. The process handles move as the actions say.
    pub fn next<P>(&mut self, h: &mut InstanceHandler<P>, e: Outcome<P>) -> (r: Action<P>)
        requires
            old(self).view().wf(),
            old(h).wf(),
        ensures
            final(self).view().wf(),
            final(h).wf(),
            (final(self).view(), final(h).view(), r.kind()) == update_step(old(self).view(), old(h).view(), e.event()),
            final(h).waiters() == old(h).waiters(),
            forall|s: Slot| #[trigger] final(h).proc(s) == old(h).proc(s)
                || (r matches Action::Kill(t, p) && t == s && old(h).proc(s) == Some(p) && final(h).proc(s) is None)
                || (e matches Outcome::Spawned(p) && old(h).proc(s) is None && final(h).proc(s) == Some(p)),
            r matches Action::Discard(p) ==> e == Outcome::Spawned(p),
    {
        let q = self.state;
        match q.phase {
            Phase::Ready => {
                if h.active() == Some(q.old) {
                    self.state.phase = Phase::Pull;
                    Action::Run(Script::PullLatestGitChanges, None)
                } else {
                    self.finish(false)
                }
            },
            Phase::Pull => {
                if let Outcome::Exited(true) = e {
                    self.state.phase = Phase::Build;
                    Action::Run(Script::CreateNewBuild, None)
                } else {
                    self.finish(false)
                }
            },
            Phase::Build => {
                if let Outcome::Exited(true) = e {
                    self.state.phase = Phase::Stage;
                    Action::Run(Script::MoveBuildToInstance, Some(q.new))
                } else {
                    self.finish(false)
                }
            },
            Phase::Stage => {
                if let Outcome::Exited(true) = e {
                    if h.is_running(q.new) {
                        self.finish(false)
                    } else {
                        self.state.phase = Phase::Attach;
                        Action::Spawn(q.new)
                    }
                } else {
                    self.state.phase = Phase::StageCleanup;
                    Action::Run(Script::CleanupInstance, Some(q.new))
                }
            },
            Phase::StageCleanup => self.finish(false),
            Phase::Attach => {
                match e {
                    Outcome::Spawned(p) => {
                        if h.is_running(q.new) {
                            self.state.phase = Phase::Finished(false);
                            Action::Discard(p)
                        } else {
                            proof { h.lemma_proc_matches_view(q.new); }
                            h.attach_instance(q.new, p);
                            self.state.phase = Phase::Probe(1);
                            Action::Probe(q.new)
                        }
                    },
                    _ => self.finish(false),
                }
            },
            Phase::Probe(n) => {
                let healthy = match e {
                    Outcome::Health(answer) => probe_succeeded(answer),
                    _ => false,
                };
                if healthy {
                    if h.active() == Some(q.old) && h.is_running(q.new) {
                        h.set_active(Some(q.new));
                        self.state.phase = Phase::Settle;
                        self.state.healthy = true;
                        Action::Sleep(SETTLE_SECS)
                    } else {
                        self.discard_new(h)
                    }
                } else if n < PROBE_ATTEMPTS {
                    self.state.phase = Phase::ProbeWait(n);
                    Action::Sleep(PROBE_INTERVAL_SECS)
                } else {
                    self.discard_new(h)
                }
            },
            Phase::ProbeWait(n) => {
                self.state.phase = Phase::Probe(n + 1);
                Action::Probe(q.new)
            },
            Phase::Discard => {
                self.state.phase = Phase::DiscardCleanup;
                Action::Run(Script::CleanupInstance, Some(q.new))
            },
            Phase::DiscardCleanup => self.finish(false),
            Phase::Settle => {
                self.state.phase = Phase::Flip;
                Action::Publish(q.new)
            },
            Phase::Flip => {
                if let Outcome::Published(true) = e {
                    h.set_world_backend(q.new);
                    self.stop_old(h)
                } else {
                    if h.active() == Some(q.new) && h.is_running(q.old) {
                        h.set_active(Some(q.old));
                    }
                    self.discard_new(h)
                }
            },
            Phase::Drain => {
                self.state.phase = Phase::DrainCleanup;
                Action::Run(Script::CleanupInstance, Some(q.old))
            },
            Phase::DrainCleanup => self.finish(true),
            Phase::Finished(ok) => Action::Done(ok),
        }
    }

    fn finish<P>(&mut self, ok: bool) -> (r: Action<P>)
        ensures
            final(self).view() == goto(old(self).view(), Phase::Finished(ok)),
            r == Action::<P>::Done(ok),
    {
        self.state.phase = Phase::Finished(ok);
        Action::Done(ok)
    }

    fn discard_new<P>(&mut self, h: &mut InstanceHandler<P>) -> (r: Action<P>)
        requires
            old(h).wf(),
        ensures
            final(h).wf(),
            (final(self).view(), final(h).view(), r.kind()) == discard_new(old(self).view(), old(h).view()),
            final(h).waiters() == old(h).waiters(),
            forall|s: Slot| #[trigger] final(h).proc(s) == old(h).proc(s) || (r matches Action::Kill(t, p) && t == s
                && old(h).proc(s) == Some(p) && final(h).proc(s) is None),
    {
        let new = self.state.new;
        let stoppable = h.is_running(new) && h.world_backend() != new && h.active() != Some(new);
        if stoppable {
            proof { old(h).lemma_proc_matches_view(new); }
            let p = h.terminate_instance(new);
            self.state.phase = Phase::Discard;
            match p {
                Some(p) => Action::Kill(new, p),
                None => { proof { assert(false); } Action::Done(false) },
            }
        } else {
            self.state.phase = Phase::DiscardCleanup;
            Action::Run(Script::CleanupInstance, Some(new))
        }
    }

    fn stop_old<P>(&mut self, h: &mut InstanceHandler<P>) -> (r: Action<P>)
        requires
            old(h).wf(),
        ensures
            final(h).wf(),
            (final(self).view(), final(h).view(), r.kind()) == stop_old(old(self).view(), old(h).view()),
            final(h).waiters() == old(h).waiters(),
            forall|s: Slot| #[trigger] final(h).proc(s) == old(h).proc(s) || (r matches Action::Kill(t, p) && t == s
                && old(h).proc(s) == Some(p) && final(h).proc(s) is None),
    {
        let old_slot = self.state.old;
        let stoppable = h.is_running(old_slot) && h.world_backend() != old_slot && h.active() != Some(old_slot);
        if stoppable {
            proof { old(h).lemma_proc_matches_view(old_slot); }
            let p = h.terminate_instance(old_slot);
            self.state.phase = Phase::Drain;
            match p {
                Some(p) => Action::Kill(old_slot, p),
                None => { proof { assert(false); } Action::Done(false) },
            }
        } else {
            self.state.phase = Phase::DrainCleanup;
            Action::Run(Script::CleanupInstance, Some(old_slot))
        }
    }
}

} // verus!
