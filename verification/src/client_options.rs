//! Options chosen by the application when it opens a client connection.

use vstd::prelude::*;

verus! {

/// Options for opening a client connection.
#[derive(Clone, Copy, Debug, PartialEq, Eq, Structural)]
pub struct ClientOptions {
    /// Do not start a server automatically when none is running.
    pub no_start_server: bool,
}

/// The option set that forbids starting a server automatically.
pub fn no_start_server() -> (r: ClientOptions)
    ensures
        r.no_start_server,
{
    ClientOptions { no_start_server: true }
}

impl Default for ClientOptions {
    /// By default a server may be started on demand.
    fn default() -> (r: ClientOptions)
        ensures
            !r.no_start_server,
    {
        ClientOptions { no_start_server: false }
    }
}

} // verus!
