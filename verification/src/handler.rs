//! The capability traits an application implements to receive callbacks.
//!
//! Each handler type names a mathematical [`NotificationHandler::Model`] of
//! its state, and each method's contract ties its body to a spec-level
//! transition function on that model, declared beside the method. The
//! transition functions default to the no-op: a handler overrides only
//! those whose notifications it cares about, and its method bodies are
//! verified against them. This is what lets the dispatch layer state
//! exactly how a whole session transforms a handler, whatever the handler
//! type.

use vstd::prelude::*;
use crate::client::{Client, ProcessScope};
use crate::client_status::ClientStatus;
use crate::control::{JackControl, JackFrames, JackPortId, LatencyType};

verus! {

/// Receiver of the server's control-side notifications.
pub trait NotificationHandler: Sized {
    /// The mathematical model of this handler's state.
    type Model;

    /// The model of the current state.
    spec fn model(&self) -> Self::Model;

    /// Model after a thread-init notification.
    open spec fn thread_init_spec(pre: Self::Model, c: Client) -> Self::Model {
        pre
    }

    /// Called once for each real-time thread the server brings up. May fire
    /// more than once per activation; implementations keep saturating
    /// counters rather than assuming exactly-once delivery.
    fn thread_init(&mut self, c: &Client)
        ensures
            final(self).model() == Self::thread_init_spec(old(self).model(), *c),
    ;

    /// Model after a shutdown notification.
    open spec fn shutdown_spec(
        pre: Self::Model,
        status: ClientStatus,
        reason: Seq<char>,
    ) -> Self::Model {
        pre
    }

    /// Called when the server forcibly disconnects the client; at most once
    /// per active session.
    fn shutdown(&mut self, status: ClientStatus, reason: &str)
        ensures
            final(self).model() == Self::shutdown_spec(old(self).model(), status, reason@),
    ;

    /// Model after a freewheel notification.
    open spec fn freewheel_spec(pre: Self::Model, c: Client, starting: bool) -> Self::Model {
        pre
    }

    /// Called when the server enters (`starting`) or leaves freewheel mode.
    fn freewheel(&mut self, c: &Client, starting: bool)
        ensures
            final(self).model() == Self::freewheel_spec(old(self).model(), *c, starting),
    ;

    /// Model and verdict after a buffer-size notification.
    open spec fn buffer_size_spec(
        pre: Self::Model,
        c: Client,
        size: JackFrames,
    ) -> (Self::Model, JackControl) {
        (pre, JackControl::Continue)
    }

    /// Called when the cycle buffer size was renegotiated to `size` frames.
    fn buffer_size(&mut self, c: &Client, size: JackFrames) -> (r: JackControl)
        ensures
            (final(self).model(), r) == Self::buffer_size_spec(old(self).model(), *c, size),
    ;

    /// Model and verdict after a sample-rate notification.
    open spec fn sample_rate_spec(
        pre: Self::Model,
        c: Client,
        rate: JackFrames,
    ) -> (Self::Model, JackControl) {
        (pre, JackControl::Continue)
    }

    /// Called when the server's sample rate changes to `rate`.
    fn sample_rate(&mut self, c: &Client, rate: JackFrames) -> (r: JackControl)
        ensures
            (final(self).model(), r) == Self::sample_rate_spec(old(self).model(), *c, rate),
    ;

    /// Model after a client-registration notification.
    open spec fn client_registration_spec(
        pre: Self::Model,
        c: Client,
        name: Seq<char>,
        is_registered: bool,
    ) -> Self::Model {
        pre
    }

    /// Called when a peer client named `name` registers with or leaves the
    /// server.
    fn client_registration(&mut self, c: &Client, name: &str, is_registered: bool)
        ensures
            final(self).model() == Self::client_registration_spec(
                old(self).model(),
                *c,
                name@,
                is_registered,
            ),
    ;

    /// Model after a port-registration notification.
    open spec fn port_registration_spec(
        pre: Self::Model,
        c: Client,
        port_id: JackPortId,
        is_registered: bool,
    ) -> Self::Model {
        pre
    }

    /// Called when the port `port_id` is registered with or removed from the
    /// server's graph.
    fn port_registration(&mut self, c: &Client, port_id: JackPortId, is_registered: bool)
        ensures
            final(self).model() == Self::port_registration_spec(
                old(self).model(),
                *c,
                port_id,
                is_registered,
            ),
    ;

    /// Model and verdict after a port-rename notification.
    open spec fn port_rename_spec(
        pre: Self::Model,
        c: Client,
        port_id: JackPortId,
        old_name: Seq<char>,
        new_name: Seq<char>,
    ) -> (Self::Model, JackControl) {
        (pre, JackControl::Continue)
    }

    /// Called when the port `port_id` was renamed from `old_name` to
    /// `new_name`.
    fn port_rename(
        &mut self,
        c: &Client,
        port_id: JackPortId,
        old_name: &str,
        new_name: &str,
    ) -> (r: JackControl)
        ensures
            (final(self).model(), r) == Self::port_rename_spec(
                old(self).model(),
                *c,
                port_id,
                old_name@,
                new_name@,
            ),
    ;

    /// Model after a ports-connected notification.
    open spec fn ports_connected_spec(
        pre: Self::Model,
        c: Client,
        port_a: JackPortId,
        port_b: JackPortId,
        are_connected: bool,
    ) -> Self::Model {
        pre
    }

    /// Called when ports `port_a` and `port_b` are connected or disconnected.
    fn ports_connected(
        &mut self,
        c: &Client,
        port_a: JackPortId,
        port_b: JackPortId,
        are_connected: bool,
    )
        ensures
            final(self).model() == Self::ports_connected_spec(
                old(self).model(),
                *c,
                port_a,
                port_b,
                are_connected,
            ),
    ;

    /// Model and verdict after a graph-reorder notification.
    open spec fn graph_reorder_spec(pre: Self::Model, c: Client) -> (Self::Model, JackControl) {
        (pre, JackControl::Continue)
    }

    /// Called when the server's processing graph was reordered.
    fn graph_reorder(&mut self, c: &Client) -> (r: JackControl)
        ensures
            (final(self).model(), r) == Self::graph_reorder_spec(old(self).model(), *c),
    ;

    /// Model and verdict after an xrun notification.
    open spec fn xrun_spec(pre: Self::Model, c: Client) -> (Self::Model, JackControl) {
        (pre, JackControl::Continue)
    }

    /// Called when a cycle missed its real-time deadline.
    fn xrun(&mut self, c: &Client) -> (r: JackControl)
        ensures
            (final(self).model(), r) == Self::xrun_spec(old(self).model(), *c),
    ;

    /// Model after a latency notification.
    open spec fn latency_spec(pre: Self::Model, c: Client, mode: LatencyType) -> Self::Model {
        pre
    }

    /// Called when latencies in direction `mode` must be recomputed.
    fn latency(&mut self, c: &Client, mode: LatencyType)
        ensures
            final(self).model() == Self::latency_spec(old(self).model(), *c, mode),
    ;
}

/// Processor of one cycle of audio.
pub trait ProcessHandler: Sized {
    /// The mathematical model of this handler's state.
    type Model;

    /// The model of the current state.
    spec fn model(&self) -> Self::Model;

    /// Model and verdict after processing one cycle.
    spec fn process_spec(pre: Self::Model, c: Client, ps: ProcessScope) -> (Self::Model, JackControl);

    /// Processes the one cycle described by `ps`. The sole required
    /// operation: it must finish within the cycle deadline and returns
    /// whether graph processing should continue.
    fn process(&mut self, c: &Client, ps: &ProcessScope) -> (r: JackControl)
        ensures
            (final(self).model(), r) == Self::process_spec(old(self).model(), *c, *ps),
    ;

    /// Virtual running time of one `process` invocation.
    open spec fn process_duration_spec(pre: Self::Model, ps: ProcessScope) -> u64 {
        0
    }

    /// How long, in microseconds, processing the cycle described by `ps`
    /// takes in this state. The dispatch layer compares it against the
    /// cycle deadline to detect overruns; a handler that meets its deadline
    /// keeps the default transition, which reports no time spent.
    fn process_duration(&self, ps: &ProcessScope) -> (r: u64)
        ensures
            r == Self::process_duration_spec(self.model(), *ps),
    ;
}

/// The trivial notification handler: every callback is a no-op and every
/// verdict is [`JackControl::Continue`].
impl NotificationHandler for () {
    type Model = bool;

    open spec fn model(&self) -> bool {
        true
    }

    fn thread_init(&mut self, c: &Client) {
    }

    fn shutdown(&mut self, status: ClientStatus, reason: &str) {
    }

    fn freewheel(&mut self, c: &Client, starting: bool) {
    }

    fn buffer_size(&mut self, c: &Client, size: JackFrames) -> (r: JackControl) {
        JackControl::Continue
    }

    fn sample_rate(&mut self, c: &Client, rate: JackFrames) -> (r: JackControl) {
        JackControl::Continue
    }

    fn client_registration(&mut self, c: &Client, name: &str, is_registered: bool) {
    }

    fn port_registration(&mut self, c: &Client, port_id: JackPortId, is_registered: bool) {
    }

    fn port_rename(
        &mut self,
        c: &Client,
        port_id: JackPortId,
        old_name: &str,
        new_name: &str,
    ) -> (r: JackControl) {
        JackControl::Continue
    }

    fn ports_connected(
        &mut self,
        c: &Client,
        port_a: JackPortId,
        port_b: JackPortId,
        are_connected: bool,
    ) {
    }

    fn graph_reorder(&mut self, c: &Client) -> (r: JackControl) {
        JackControl::Continue
    }

    fn xrun(&mut self, c: &Client) -> (r: JackControl) {
        JackControl::Continue
    }

    fn latency(&mut self, c: &Client, mode: LatencyType) {
    }
}

/// The trivial process handler: does no work and always continues.
impl ProcessHandler for () {
    type Model = bool;

    open spec fn model(&self) -> bool {
        true
    }

    open spec fn process_spec(pre: bool, c: Client, ps: ProcessScope) -> (bool, JackControl) {
        (pre, JackControl::Continue)
    }

    fn process(&mut self, c: &Client, ps: &ProcessScope) -> (r: JackControl) {
        JackControl::Continue
    }

    fn process_duration(&self, ps: &ProcessScope) -> (r: u64) {
        0
    }
}

} // verus!
