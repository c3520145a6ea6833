//! Ports registered on the processing graph.

use vstd::prelude::*;
use crate::control::{JackErr, JackPortId};
use crate::server::{EventModel, Server, ServerModel};

verus! {

/// The port flavor for one channel of audio input.
#[derive(Clone, Copy, Debug, PartialEq, Eq, Structural)]
pub struct AudioInSpec;

impl Default for AudioInSpec {
    /// The one value of the flavor.
    fn default() -> (r: AudioInSpec)
        ensures
            r == (AudioInSpec {  }),
    {
        AudioInSpec {  }
    }
}

/// An owned, registered port of flavor `PS`.
#[derive(Debug)]
pub struct Port<PS> {
    /// The identifier the server assigned on registration.
    pub id: JackPortId,
    /// The flavor the port was registered with.
    pub port_spec: PS,
}

impl<PS> Port<PS> {
    /// Removes the port from the graph; the unregistration is announced to
    /// every handler active while it happened.
    pub fn unregister(self, server: &mut Server) -> (r: Result<(), JackErr>)
        ensures
            r is Ok,
            final(server)@ == (ServerModel {
                events: old(server)@.events.push(
                    EventModel::PortRegistration { port_id: self.id, registered: false },
                ),
                ..old(server)@
            }),
    {
        server.unregister_port(self.id);
        Ok(())
    }
}

} // verus!
