//! Path-based dispatch of the reverse proxy, and its swappable world backend.
use crate::slot::{slot_addr, Slot};
use vstd::prelude::*;

verus! {

/// Paths under this prefix go to the control API.
pub open spec fn control_prefix() -> Seq<char> {
    "/_supervisor"@
}

/// Address of the control API.
pub open spec fn control_addr() -> Seq<char> {
    "127.0.0.1:19180"@
}

pub open spec fn is_control_path(path: Seq<char>) -> bool {
    control_prefix().is_prefix_of(path)
}

/// Whether a request path belongs to the control API.
pub fn routes_to_control(path: &str) -> (r: bool)
    ensures
        r == is_control_path(path@),
{
    let prefix = "/_supervisor";
    proof {
        reveal_strlit("/_supervisor");
    }
    let n = prefix.unicode_len();
    let len = path.unicode_len();
    if len < n {
        return false;
    }
    let mut i: usize = 0;
    while i < n
        invariant
            n == prefix@.len(),
            prefix@ == control_prefix(),
            len == path@.len(),
            n <= len,
            i <= n,
            forall|j: int| 0 <= j < i ==> path@[j] == prefix@[j],
        decreases n - i,
    {
        if path.get_char(i) != prefix.get_char(i) {
            return false;
        }
        i = i + 1;
    }
    assert(prefix@ =~= path@.subrange(0, n as int));
    true
}

/// Default address the proxy listens on.
pub fn default_listen_addr() -> (r: &'static str)
    ensures
        r@ == "0.0.0.0:19130"@,
{
    "0.0.0.0:19130"
}

/// Why the world backend was not replaced.
#[derive(Clone, Copy, Debug, PartialEq, Eq, Structural)]
pub enum BackendError {
    /// The address resolved to no socket address.
    Unresolvable,
}

/// The proxy's upstreams: the fixed control API and the swappable world backend.
pub struct SupervisorProxy {
    world: String,
    control: String,
}

impl SupervisorProxy {
    pub closed spec fn world(&self) -> Seq<char> {
        self.world@
    }

    pub closed spec fn control(&self) -> Seq<char> {
        self.control@
    }

    /// Upstream for a request path: the control API for control paths, the
    /// world backend for every other path.
    pub open spec fn route(&self, path: Seq<char>) -> Seq<char> {
        if is_control_path(path) {
            self.control()
        } else {
            self.world()
        }
    }

    pub fn new(world_backend: &str, supervisor_backend: &str) -> (r: Self)
        ensures
            r.world() == world_backend@,
            r.control() == supervisor_backend@,
    {
        SupervisorProxy { world: world_backend.to_owned(), control: supervisor_backend.to_owned() }
    }

    /// The control API at its fixed address, and the world backend on slot one.
    pub fn with_defaults() -> (r: Self)
        ensures
            r.world() == slot_addr(Slot::One),
            r.control() == control_addr(),
    {
        SupervisorProxy::new("127.0.0.1:19131", "127.0.0.1:19180")
    }

    pub fn upstream_for(&self, path: &str) -> (r: &String)
        ensures
            r@ == self.route(path@),
    {
        if routes_to_control(path) {
            &self.control
        } else {
            &self.world
        }
    }

    pub fn current_world_backend(&self) -> (r: String)
        ensures
            r@ == self.world(),
    {
        self.world.clone()
    }

    /// Replaces the world backend by `addr`, which resolved to `resolved` socket
    /// addresses. An address that resolved to none is refused and nothing changes.
    pub fn set_world_backend(&mut self, addr: &str, resolved: usize) -> (r: Result<(), BackendError>)
        ensures
            r is Ok <==> resolved > 0,
            r is Ok ==> final(self).world() == addr@,
            r is Err ==> final(self).world() == old(self).world(),
            r is Err ==> r == Err::<(), BackendError>(BackendError::Unresolvable),
            final(self).control() == old(self).control(),
    {
        if resolved == 0 {
            return Err(BackendError::Unresolvable);
        }
        self.world = addr.to_owned();
        Ok(())
    }

    /// Points the world backend at slot `s`, whose address resolved to
    /// `resolved` socket addresses; with none, nothing changes.
    pub fn publish(&mut self, s: Slot, resolved: usize) -> (r: Result<(), BackendError>)
        ensures
            r is Ok <==> resolved > 0,
            r is Ok ==> final(self).world() == slot_addr(s),
            r is Err ==> final(self).world() == old(self).world(),
            r is Err ==> r == Err::<(), BackendError>(BackendError::Unresolvable),
            final(self).control() == old(self).control(),
    {
        let addr = s.address();
        self.set_world_backend(addr.as_str(), resolved)
    }
}

} // verus!
