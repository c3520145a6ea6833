//! Verdicts, event identifiers and errors shared across the framework.

use vstd::prelude::*;

verus! {

/// Number of audio frames in one cycle or buffer.
pub type JackFrames = u32;

/// Server-assigned identifier of a port.
pub type JackPortId = u32;

/// The verdict a callback returns to control whether graph processing
/// continues.
#[derive(Clone, Copy, Debug, PartialEq, Eq, Structural)]
pub enum JackControl {
    /// Keep processing.
    Continue,
    /// Ask the server to stop processing the graph.
    Quit,
}

impl Default for JackControl {
    /// The neutral verdict.
    fn default() -> (r: JackControl)
        ensures
            r == JackControl::Continue,
    {
        JackControl::Continue
    }
}

/// The two latency directions a latency callback reports on.
#[derive(Clone, Copy, Debug, PartialEq, Eq, Structural)]
pub enum LatencyType {
    Capture,
    Playback,
}

/// Errors surfaced by the control-side operations of the framework.
#[derive(Clone, Copy, Debug, PartialEq, Eq, Structural)]
pub enum JackErr {
    /// Opening a client connection was refused.
    ClientError,
    /// The server rejected a callback registration during activation.
    ActivationError,
    /// A requested buffer size was rejected.
    BufferSizeError,
    /// A port could not be registered.
    PortRegistrationError,
}

} // verus!
