//! Status flags reported by the server about a client connection.

use vstd::prelude::*;

verus! {

/// A set of status bits the server attaches to a connection, for example
/// when it shuts a client down. An empty status reports nothing unusual.
#[derive(Clone, Copy, Debug, PartialEq, Eq, Structural)]
pub struct ClientStatus {
    pub bits: u32,
}

impl ClientStatus {
    /// The status with no bit set.
    pub fn empty() -> (r: ClientStatus)
        ensures
            r.bits == 0,
    {
        ClientStatus { bits: 0 }
    }

    /// True when no status bit is set.
    pub fn is_empty(&self) -> (r: bool)
        ensures
            r == (self.bits == 0),
    {
        self.bits == 0
    }
}

} // verus!
