//! The client handle and the per-cycle process scope.

use vstd::prelude::*;
use crate::client_options::ClientOptions;
use crate::client_status::ClientStatus;
use crate::control::{JackErr, JackFrames};
use crate::server::{EventModel, Server, ServerModel};

verus! {

/// An owned handle to one named client connection.
///
/// A handle is created by [`Client::new`] against a running
/// [`crate::server::Server`], owned by the control code before activation and by the
/// active client while activated, and handed back on deactivation.
#[derive(Debug)]
pub struct Client {
    /// The connection's name, unique among open connections of one server.
    pub name: String,
    /// The options the connection was opened with.
    pub options: ClientOptions,
}

impl Client {
    /// Opens a named connection on `server` and returns its handle with
    /// the status the server reported.
    ///
    /// Succeeds exactly when `name` is not empty; the new connection is
    /// announced to the handlers of every client active while it happened.
    pub fn new(server: &mut Server, name: &str, options: ClientOptions) -> (r: Result<
        (Client, ClientStatus),
        JackErr,
    >)
        ensures
            name@.len() == 0 ==> r is Err && r->Err_0 == JackErr::ClientError && final(server)@
                == old(server)@,
            name@.len() != 0 ==> r is Ok && r->Ok_0.0.name@ == name@ && r->Ok_0.0.options
                == options && r->Ok_0.1.bits == 0 && final(server)@ == (ServerModel {
                client_names: old(server)@.client_names.push(name@),
                events: old(server)@.events.push(
                    EventModel::ClientRegistration { name: name@, registered: true },
                ),
                ..old(server)@
            }),
    {
        match server.open_connection(name) {
            Ok(status) => Ok((Client { name: name.to_owned(), options }, status)),
            Err(e) => Err(e),
        }
    }

    /// Closes the connection: its name leaves the server's open list and
    /// the unregistration is announced.
    pub fn close(self, server: &mut Server)
        ensures
            final(server)@ == (ServerModel {
                client_names: crate::server::remove_first(
                    old(server)@.client_names,
                    self.name@,
                ),
                events: old(server)@.events.push(
                    EventModel::ClientRegistration { name: self.name@, registered: false },
                ),
                ..old(server)@
            }),
    {
        server.close_connection(self.name.as_str());
    }

    /// A client view that is bound to no server connection.
    ///
    /// Callbacks must tolerate such an inert view: handler methods receive a
    /// borrowed client and may not assume it can reach a live connection.
    pub fn detached() -> (r: Client)
        ensures
            r.name@ == Seq::<char>::empty(),
    {
        Client { name: String::new(), options: ClientOptions { no_start_server: true } }
    }
}

/// A borrowed view of one `process` invocation: how many frames this cycle
/// holds and how much time the real-time deadline allows.
///
/// A scope is only valid for the duration of the one invocation it was made
/// for; handlers receive it by reference and cannot retain it.
#[derive(Clone, Copy, Debug, PartialEq, Eq, Structural)]
pub struct ProcessScope {
    /// Number of frames to process in this cycle.
    pub frames: JackFrames,
    /// The cycle deadline: time available to the handler, in microseconds.
    pub cycle_time_micros: u64,
}

impl ProcessScope {
    /// Builds the view of one cycle.
    pub fn new(frames: JackFrames, cycle_time_micros: u64) -> (r: ProcessScope)
        ensures
            r.frames == frames,
            r.cycle_time_micros == cycle_time_micros,
    {
        ProcessScope { frames, cycle_time_micros }
    }

    /// Number of frames to process in this cycle.
    pub fn n_frames(&self) -> (r: JackFrames)
        ensures
            r == self.frames,
    {
        self.frames
    }
}

} // verus!
