//! The startup sequence: pull, clean up, build, stage into slot one, mark slot
//! one active and start it.
use crate::coordinator::{HandlerView, InstanceHandler};
use crate::slot::Slot;
use crate::steps::{Action, ActionKind, Event, Outcome, Script};
use crate::update::with_running;
use vstd::prelude::*;

verus! {

/// Where the startup sequence stands; each phase awaits the outcome of the
/// action that led into it.
#[derive(Clone, Copy, Debug, PartialEq, Eq, Structural)]
pub enum StartupPhase {
    Ready,
    Pull,
    CleanupAll,
    Build,
    Stage,
    Attach,
    Finished(bool),
}

/// One transition of the startup sequence. Pulling and cleaning up are advisory;
/// a failed build or staging ends startup without an active slot.
pub open spec fn startup_step(p: StartupPhase, h: HandlerView, e: Event) -> (StartupPhase, HandlerView, ActionKind) {
    match p {
        StartupPhase::Ready => (StartupPhase::Pull, h, ActionKind::Run(Script::PullLatestGitChanges, None)),
        StartupPhase::Pull => (StartupPhase::CleanupAll, h, ActionKind::Run(Script::CleanupInstances, None)),
        StartupPhase::CleanupAll => (StartupPhase::Build, h, ActionKind::Run(Script::CreateNewBuild, None)),
        StartupPhase::Build => if e == Event::Exited(true) {
            (StartupPhase::Stage, h, ActionKind::Run(Script::MoveBuildToInstance, Some(Slot::One)))
        } else {
            (StartupPhase::Finished(false), h, ActionKind::Done(false))
        },
        StartupPhase::Stage => if e != Event::Exited(true) {
            (StartupPhase::Finished(false), h, ActionKind::Done(false))
        } else if h.running(Slot::One) {
            (StartupPhase::Finished(false), HandlerView { active: Some(Slot::One), ..h }, ActionKind::Done(false))
        } else {
            (StartupPhase::Attach, HandlerView { active: Some(Slot::One), ..h }, ActionKind::Spawn(Slot::One))
        },
        StartupPhase::Attach => if e != Event::Spawned {
            (StartupPhase::Finished(false), h, ActionKind::Done(false))
        } else if h.running(Slot::One) {
            (StartupPhase::Finished(false), h, ActionKind::Discard)
        } else {
            (StartupPhase::Finished(true), with_running(h, Slot::One, true), ActionKind::Done(true))
        },
        StartupPhase::Finished(ok) => (p, h, ActionKind::Done(ok)),
    }
}

/// The startup sequence in progress.
pub struct Startup {
    phase: StartupPhase,
}

impl Startup {
    pub closed spec fn view(&self) -> StartupPhase {
        self.phase
    }

    pub fn new() -> (r: Self)
        ensures
            r.view() == StartupPhase::Ready,
    {
        Startup { phase: StartupPhase::Ready }
    }

    /// Takes the outcome of the last action, records slot one as active and
    /// stores its process where the sequence gets there, and returns the next
    /// action.
    pub fn next<P>(&mut self, h: &mut InstanceHandler<P>, e: Outcome<P>) -> (r: Action<P>)
        requires
            old(h).wf(),
        ensures
            final(h).wf(),
            (final(self).view(), final(h).view(), r.kind()) == startup_step(old(self).view(), old(h).view(), e.event()),
            final(h).waiters() == old(h).waiters(),
            forall|s: Slot| #[trigger] final(h).proc(s) == old(h).proc(s)
                || (e matches Outcome::Spawned(p) && old(h).proc(s) is None && final(h).proc(s) == Some(p)),
            r matches Action::Discard(p) ==> e == Outcome::Spawned(p),
    {
        match self.phase {
            StartupPhase::Ready => {
                self.phase = StartupPhase::Pull;
                Action::Run(Script::PullLatestGitChanges, None)
            },
            StartupPhase::Pull => {
                self.phase = StartupPhase::CleanupAll;
                Action::Run(Script::CleanupInstances, None)
            },
            StartupPhase::CleanupAll => {
                self.phase = StartupPhase::Build;
                Action::Run(Script::CreateNewBuild, None)
            },
            StartupPhase::Build => {
                if let Outcome::Exited(true) = e {
                    self.phase = StartupPhase::Stage;
                    Action::Run(Script::MoveBuildToInstance, Some(Slot::One))
                } else {
                    self.phase = StartupPhase::Finished(false);
                    Action::Done(false)
                }
            },
            StartupPhase::Stage => {
                if let Outcome::Exited(true) = e {
                    h.set_active(Some(Slot::One));
                    if h.is_running(Slot::One) {
                        self.phase = StartupPhase::Finished(false);
                        Action::Done(false)
                    } else {
                        self.phase = StartupPhase::Attach;
                        Action::Spawn(Slot::One)
                    }
                } else {
                    self.phase = StartupPhase::Finished(false);
                    Action::Done(false)
                }
            },
            StartupPhase::Attach => {
                match e {
                    Outcome::Spawned(p) => {
                        if h.is_running(Slot::One) {
                            self.phase = StartupPhase::Finished(false);
                            Action::Discard(p)
                        } else {
                            proof { h.lemma_proc_matches_view(Slot::One); }
                            h.attach_instance(Slot::One, p);
                            self.phase = StartupPhase::Finished(true);
                            Action::Done(true)
                        }
                    },
                    _ => {
                        self.phase = StartupPhase::Finished(false);
                        Action::Done(false)
                    },
                }
            },
            StartupPhase::Finished(ok) => Action::Done(ok),
        }
    }
}

} // verus!
