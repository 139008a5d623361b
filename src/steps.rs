//! What the coordinator asks of the outside world, and what it hears back.
use crate::slot::Slot;
use crate::health::probe_ok;
use vstd::prelude::*;

verus! {

/// The deployment scripts; the coordinator observes only their exit status.
#[derive(Clone, Copy, Debug, PartialEq, Eq, Structural)]
pub enum Script {
    PullLatestGitChanges,
    CleanupInstances,
    CleanupInstance,
    CreateNewBuild,
    MoveBuildToInstance,
}

pub open spec fn script_path(s: Script) -> Seq<char> {
    match s {
        Script::PullLatestGitChanges => "/usr/local/share/supervisor/scripts/pull_latest_git_changes.sh"@,
        Script::CleanupInstances => "/usr/local/share/supervisor/scripts/cleanup_instances.sh"@,
        Script::CleanupInstance => "/usr/local/share/supervisor/scripts/cleanup_instance.sh"@,
        Script::CreateNewBuild => "/usr/local/share/supervisor/scripts/create_new_build.sh"@,
        Script::MoveBuildToInstance => "/usr/local/share/supervisor/scripts/move_build_to_instance.sh"@,
    }
}

impl Script {
    pub fn path(self) -> (r: &'static str)
        ensures
            r@ == script_path(self),
    {
        match self {
            Script::PullLatestGitChanges => "/usr/local/share/supervisor/scripts/pull_latest_git_changes.sh",
            Script::CleanupInstances => "/usr/local/share/supervisor/scripts/cleanup_instances.sh",
            Script::CleanupInstance => "/usr/local/share/supervisor/scripts/cleanup_instance.sh",
            Script::CreateNewBuild => "/usr/local/share/supervisor/scripts/create_new_build.sh",
            Script::MoveBuildToInstance => "/usr/local/share/supervisor/scripts/move_build_to_instance.sh",
        }
    }
}

/// The next piece of outside work. `P` is the handle of a slot process.
pub enum Action<P> {
    /// Run the script, with the slot's name as its one argument if given, and
    /// report whether it exited with status zero.
    Run(Script, Option<Slot>),
    /// Start the slot's server and report its handle.
    Spawn(Slot),
    /// Probe the slot's server once and report the HTTP status, if any.
    Probe(Slot),
    /// Wait this many seconds.
    Sleep(u64),
    /// Point the proxy's world backend at the slot and report whether it took it.
    Publish(Slot),
    /// Terminate this process, taken out of the slot, and await its exit.
    Kill(Slot, P),
    /// Terminate this process, which never joined a slot.
    Discard(P),
    /// The sequence is over; whether it achieved its aim.
    Done(bool),
}

/// The result of the last piece of outside work.
pub enum Outcome<P> {
    /// Nothing was done yet.
    Begin,
    /// The script ran; whether it exited with status zero.
    Exited(bool),
    /// The server was started with this handle.
    Spawned(P),
    /// The server could not be started.
    NotSpawned,
    /// The probe's HTTP status, or `None` when no answer came.
    Health(Option<u16>),
    /// The pause is over.
    Slept,
    /// Whether the proxy took the new world backend.
    Published(bool),
    /// The process has ended.
    Stopped,
}

/// An action without its process handle.
#[derive(PartialEq, Eq, Structural)]
pub enum ActionKind {
    Run(Script, Option<Slot>),
    Spawn(Slot),
    Probe(Slot),
    Sleep(u64),
    Publish(Slot),
    Kill(Slot),
    Discard,
    Done(bool),
}

/// An outcome without its process handle, with the probe answer classified.
#[derive(PartialEq, Eq, Structural)]
pub enum Event {
    Begin,
    Exited(bool),
    Spawned,
    NotSpawned,
    Health(bool),
    Slept,
    Published(bool),
    Stopped,
}

impl<P> Action<P> {
    pub open spec fn kind(self) -> ActionKind {
        match self {
            Action::Run(s, a) => ActionKind::Run(s, a),
            Action::Spawn(s) => ActionKind::Spawn(s),
            Action::Probe(s) => ActionKind::Probe(s),
            Action::Sleep(n) => ActionKind::Sleep(n),
            Action::Publish(s) => ActionKind::Publish(s),
            Action::Kill(s, _) => ActionKind::Kill(s),
            Action::Discard(_) => ActionKind::Discard,
            Action::Done(b) => ActionKind::Done(b),
        }
    }
}

impl<P> Outcome<P> {
    pub open spec fn event(self) -> Event {
        match self {
            Outcome::Begin => Event::Begin,
            Outcome::Exited(ok) => Event::Exited(ok),
            Outcome::Spawned(_) => Event::Spawned,
            Outcome::NotSpawned => Event::NotSpawned,
            Outcome::Health(answer) => Event::Health(probe_ok(answer)),
            Outcome::Slept => Event::Slept,
            Outcome::Published(ok) => Event::Published(ok),
            Outcome::Stopped => Event::Stopped,
        }
    }
}

} // verus!
