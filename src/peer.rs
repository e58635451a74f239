use vstd::prelude::*;

verus! {

/// The identity of a connection: its remote socket address, held as plain
/// values. Two addresses are the same exactly when every field agrees.
#[derive(Clone, Copy, Debug, PartialEq, Eq, Structural)]
pub enum PeerAddr {
    V4 { ip: u32, port: u16 },
    V6 { ip: u128, port: u16, flowinfo: u32, scope_id: u32 },
}

impl PeerAddr {
    /// Whether two addresses name the same connection.
    pub fn same(&self, other: &PeerAddr) -> (r: bool)
        ensures
            r == (*self == *other),
    {
        *self == *other
    }
}

/// One line of chat: who sent it, and its text as UTF-8 bytes without the
/// line terminator.
#[derive(Clone, Debug)]
pub struct Message {
    pub origin: PeerAddr,
    pub content: Vec<u8>,
}

impl Message {
    pub fn new(origin: PeerAddr, content: Vec<u8>) -> (r: Message)
        ensures
            r.origin == origin,
            r.content@ == content@,
    {
        Message { origin, content }
    }
}

} // verus!
