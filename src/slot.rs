//! The two runtime slots and their fixed bindings.
use vstd::prelude::*;

verus! {

/// One of the two mutually exclusive runtime slots.
#[derive(Clone, Copy, Debug, PartialEq, Eq, Structural)]
pub enum Slot {
    One,
    Two,
}

/// Local address a slot's server listens on.
pub open spec fn slot_addr(s: Slot) -> Seq<char> {
    match s {
        Slot::One => "127.0.0.1:19131"@,
        Slot::Two => "127.0.0.1:19132"@,
    }
}

/// Port a slot's server listens on.
pub open spec fn slot_port(s: Slot) -> Seq<char> {
    match s {
        Slot::One => "19131"@,
        Slot::Two => "19132"@,
    }
}

/// The argument that names a slot to the deployment scripts.
pub open spec fn slot_arg(s: Slot) -> Seq<char> {
    match s {
        Slot::One => "1"@,
        Slot::Two => "2"@,
    }
}

/// Entry point of the server bundle installed into a slot.
pub open spec fn slot_entry(s: Slot) -> Seq<char> {
    match s {
        Slot::One => "/home/container/.app/instance/1/server/index.mjs"@,
        Slot::Two => "/home/container/.app/instance/2/server/index.mjs"@,
    }
}

/// How a slot's server is started: program, arguments and the environment
/// entries added to the supervisor's own.
pub struct ServerCommand {
    pub program: String,
    pub args: Vec<String>,
    pub env: Vec<(String, String)>,
}

impl Slot {
    /// The opposite slot.
    pub open spec fn spec_other(self) -> Slot {
        match self {
            Slot::One => Slot::Two,
            Slot::Two => Slot::One,
        }
    }

    pub fn other(self) -> (r: Slot)
        ensures
            r == self.spec_other(),
            r != self,
    {
        match self {
            Slot::One => Slot::Two,
            Slot::Two => Slot::One,
        }
    }

    /// `host:port` of the slot's server, the target of its health probe and of the
    /// proxy while the slot is active.
    pub fn address(self) -> (r: String)
        ensures
            r@ == slot_addr(self),
    {
        match self {
            Slot::One => "127.0.0.1:19131".to_owned(),
            Slot::Two => "127.0.0.1:19132".to_owned(),
        }
    }

    /// Value of `NITRO_PORT` for the slot's server.
    pub fn port(self) -> (r: &'static str)
        ensures
            r@ == slot_port(self),
    {
        match self {
            Slot::One => "19131",
            Slot::Two => "19132",
        }
    }

    /// The slot's name as the deployment scripts take it.
    pub fn number(self) -> (r: &'static str)
        ensures
            r@ == slot_arg(self),
    {
        match self {
            Slot::One => "1",
            Slot::Two => "2",
        }
    }

    /// The server of a slot runs its entry point under `bun`, told its port and
    /// the loopback host.
    pub fn server_command(self) -> (r: ServerCommand)
        ensures
            r.program@ == "bun"@,
            r.args@.len() == 1,
            r.args@[0]@ == slot_entry(self),
            r.env@.len() == 2,
            r.env@[0].0@ == "NITRO_PORT"@,
            r.env@[0].1@ == slot_port(self),
            r.env@[1].0@ == "NITRO_HOST"@,
            r.env@[1].1@ == "127.0.0.1"@,
    {
        ServerCommand {
            program: "bun".to_owned(),
            args: vec![self.entry_point()],
            env: vec![
                ("NITRO_PORT".to_owned(), self.port().to_owned()),
                ("NITRO_HOST".to_owned(), "127.0.0.1".to_owned()),
            ],
        }
    }

    /// Path of the server entry point installed into the slot.
    pub fn entry_point(self) -> (r: String)
        ensures
            r@ == slot_entry(self),
    {
        match self {
            Slot::One => "/home/container/.app/instance/1/server/index.mjs".to_owned(),
            Slot::Two => "/home/container/.app/instance/2/server/index.mjs".to_owned(),
        }
    }
}

/// The two slots have different addresses.
pub proof fn lemma_slot_addr_injective(a: Slot, b: Slot)
    ensures
        slot_addr(a) == slot_addr(b) <==> a == b,
{
    reveal_strlit("127.0.0.1:19131");
    reveal_strlit("127.0.0.1:19132");
    if a != b {
        assert(slot_addr(a)[14] != slot_addr(b)[14]);
    }
}

} // verus!
