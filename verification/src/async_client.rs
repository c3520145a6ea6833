//! The active-client state machine and the callback trampoline.
//!
//! Activation consumes a client handle and both handlers; the active client
//! owns all three until deactivation hands them back. While active, the
//! server runs cycles and fires notifications; the trampoline routes each
//! to exactly one handler method and translates the verdict back. The
//! whole session is specified by one spec-level fold,
//! [`session_spec`], and `deactivate`'s contract states that the handlers
//! come back in exactly the state that fold assigns them.

use vstd::prelude::*;
use crate::client::{Client, ProcessScope};
use crate::control::{JackControl, JackErr, JackFrames};
use crate::handler::{NotificationHandler, ProcessHandler};
use crate::port::Port;
use crate::server::{Event, EventModel, Server, ServerModel};

verus! {

/// How many callback kinds one activation registers with the server.
pub const CALLBACK_KINDS: usize = 13;

/// The model of a running session: both handler models, the current cycle
/// size, and whether processing is still live (no handler has asked to
/// quit).
pub ghost struct SessionState<NM, PM> {
    pub n: NM,
    pub p: PM,
    pub frames: JackFrames,
    pub live: bool,
}

/// The real-time budget of one cycle of `frames` frames at `rate` frames
/// per second, in microseconds.
pub open spec fn cycle_period_micros_spec(frames: JackFrames, rate: JackFrames) -> u64
    recommends
        rate >= 1,
{
    ((frames as int * 1_000_000) / rate as int) as u64
}

/// Computes the cycle budget; exact and strictly below `u64::MAX`.
pub fn cycle_period_micros(frames: JackFrames, rate: JackFrames) -> (r: u64)
    requires
        rate >= 1,
    ensures
        r == cycle_period_micros_spec(frames, rate),
        r < u64::MAX,
{
    let f = frames as u64;
    let rt = rate as u64;
    proof {
        assert(f as int * 1_000_000 <= 0xFFFF_FFFFint * 1_000_000) by (nonlinear_arith)
            requires
                f <= 0xFFFF_FFFFu64,
        ;
        assert(f as int * 1_000_000 / rt as int <= f as int * 1_000_000) by (nonlinear_arith)
            requires
                rt >= 1,
        ;
    }
    f * 1_000_000 / rt
}

/// One trampoline dispatch on the model: which transition the event causes
/// and which verdict comes back.
pub open spec fn deliver_spec<N: NotificationHandler>(pre: N::Model, c: Client, e: EventModel) -> (
    N::Model,
    JackControl,
) {
    match e {
        EventModel::Shutdown { status, reason } => (
            N::shutdown_spec(pre, status, reason),
            JackControl::Continue,
        ),
        EventModel::Freewheel { starting } => (
            N::freewheel_spec(pre, c, starting),
            JackControl::Continue,
        ),
        EventModel::BufferSize { frames } => N::buffer_size_spec(pre, c, frames),
        EventModel::SampleRate { rate } => N::sample_rate_spec(pre, c, rate),
        EventModel::ClientRegistration { name, registered } => (
            N::client_registration_spec(pre, c, name, registered),
            JackControl::Continue,
        ),
        EventModel::PortRegistration { port_id, registered } => (
            N::port_registration_spec(pre, c, port_id, registered),
            JackControl::Continue,
        ),
        EventModel::PortRename { port_id, old_name, new_name } => N::port_rename_spec(
            pre,
            c,
            port_id,
            old_name,
            new_name,
        ),
        EventModel::PortsConnected { port_a, port_b, connected } => (
            N::ports_connected_spec(pre, c, port_a, port_b, connected),
            JackControl::Continue,
        ),
        EventModel::GraphReorder => N::graph_reorder_spec(pre, c),
        EventModel::Latency { mode } => (N::latency_spec(pre, c, mode), JackControl::Continue),
    }
}

/// The cycle size after an event: a buffer-size notification announces the
/// size the following cycles use.
pub open spec fn event_frames_spec(e: EventModel, cur: JackFrames) -> JackFrames {
    match e {
        EventModel::BufferSize { frames } => frames,
        _ => cur,
    }
}

/// One process cycle on the model. Nothing runs when the session is no
/// longer live. Otherwise the handler reports its running time, processes
/// the cycle, and an overrun past the cycle budget is delivered to the
/// notification handler as an xrun; a quit verdict from either ends
/// liveness.
pub open spec fn cycle_spec<N: NotificationHandler, P: ProcessHandler>(
    st: SessionState<N::Model, P::Model>,
    c: Client,
    rate: JackFrames,
) -> SessionState<N::Model, P::Model> {
    if !st.live {
        st
    } else {
        let ps = ProcessScope {
            frames: st.frames,
            cycle_time_micros: cycle_period_micros_spec(st.frames, rate),
        };
        let d = P::process_duration_spec(st.p, ps);
        let pv = P::process_spec(st.p, c, ps);
        if d > ps.cycle_time_micros {
            let nv = N::xrun_spec(st.n, c);
            SessionState {
                n: nv.0,
                p: pv.0,
                frames: st.frames,
                live: pv.1 == JackControl::Continue && nv.1 == JackControl::Continue,
            }
        } else {
            SessionState {
                n: st.n,
                p: pv.0,
                frames: st.frames,
                live: pv.1 == JackControl::Continue,
            }
        }
    }
}

/// One step of the session fold: a cycle, then one event dispatched
/// through the trampoline. Notifications keep flowing after a quit; only
/// cycles stop.
pub open spec fn step_spec<N: NotificationHandler, P: ProcessHandler>(
    st: SessionState<N::Model, P::Model>,
    c: Client,
    rate: JackFrames,
    e: EventModel,
) -> SessionState<N::Model, P::Model> {
    let st1 = cycle_spec::<N, P>(st, c, rate);
    let dv = deliver_spec::<N>(st1.n, c, e);
    SessionState {
        n: dv.0,
        p: st1.p,
        frames: event_frames_spec(e, st1.frames),
        live: st1.live && dv.1 == JackControl::Continue,
    }
}

/// The session state after the first `i` logged events.
pub open spec fn session_at<N: NotificationHandler, P: ProcessHandler>(
    st0: SessionState<N::Model, P::Model>,
    c: Client,
    rate: JackFrames,
    events: Seq<EventModel>,
    i: int,
) -> SessionState<N::Model, P::Model>
    decreases i,
{
    if i <= 0 {
        st0
    } else {
        step_spec::<N, P>(
            session_at::<N, P>(st0, c, rate, events, i - 1),
            c,
            rate,
            events[i - 1],
        )
    }
}

/// The whole session on the model: thread-init, the announcement of the
/// buffer size negotiated at activation, one step per logged event, and a
/// final cycle.
pub open spec fn session_spec<N: NotificationHandler, P: ProcessHandler>(
    n0: N::Model,
    p0: P::Model,
    c: Client,
    rate: JackFrames,
    size0: JackFrames,
    events: Seq<EventModel>,
) -> SessionState<N::Model, P::Model> {
    let n1 = N::thread_init_spec(n0, c);
    let bs = N::buffer_size_spec(n1, c, size0);
    let st0 = SessionState {
        n: bs.0,
        p: p0,
        frames: size0,
        live: bs.1 == JackControl::Continue,
    };
    let st1 = session_at::<N, P>(st0, c, rate, events, events.len() as int);
    cycle_spec::<N, P>(st1, c, rate)
}

/// Runs one cycle, exactly as [`cycle_spec`] says.
fn run_cycle<N: NotificationHandler, P: ProcessHandler>(
    n: &mut N,
    p: &mut P,
    c: &Client,
    frames: JackFrames,
    rate: JackFrames,
    live: bool,
) -> (r: bool)
    requires
        rate >= 1,
    ensures
        ({
            let st = cycle_spec::<N, P>(
                SessionState { n: old(n).model(), p: old(p).model(), frames, live },
                *c,
                rate,
            );
            &&& final(n).model() == st.n
            &&& final(p).model() == st.p
            &&& r == st.live
        }),
{
    if !live {
        return false;
    }
    let budget = cycle_period_micros(frames, rate);
    let ps = ProcessScope::new(frames, budget);
    let d = p.process_duration(&ps);
    let v = p.process(c, &ps);
    if d > budget {
        let vx = n.xrun(c);
        v == JackControl::Continue && vx == JackControl::Continue
    } else {
        v == JackControl::Continue
    }
}

/// Dispatches one event through the trampoline, exactly as
/// [`deliver_spec`] says: one handler method per event kind, verdictless
/// notifications answered with the neutral verdict.
///
/// No failure can cross this boundary: every handler method is verified
/// free of panics, so there is nothing to unwind into the server.
fn deliver_event<N: NotificationHandler>(n: &mut N, c: &Client, e: &Event) -> (r: JackControl)
    ensures
        (final(n).model(), r) == deliver_spec::<N>(old(n).model(), *c, e@),
{
    match e {
        Event::Shutdown { status, reason } => {
            n.shutdown(*status, reason.as_str());
            JackControl::Continue
        },
        Event::Freewheel { starting } => {
            n.freewheel(c, *starting);
            JackControl::Continue
        },
        Event::BufferSize { frames } => n.buffer_size(c, *frames),
        Event::SampleRate { rate } => n.sample_rate(c, *rate),
        Event::ClientRegistration { name, registered } => {
            n.client_registration(c, name.as_str(), *registered);
            JackControl::Continue
        },
        Event::PortRegistration { port_id, registered } => {
            n.port_registration(c, *port_id, *registered);
            JackControl::Continue
        },
        Event::PortRename { port_id, old_name, new_name } => n.port_rename(
            c,
            *port_id,
            old_name.as_str(),
            new_name.as_str(),
        ),
        Event::PortsConnected { port_a, port_b, connected } => {
            n.ports_connected(c, *port_a, *port_b, *connected);
            JackControl::Continue
        },
        Event::GraphReorder => n.graph_reorder(c),
        Event::Latency { mode } => {
            n.latency(c, *mode);
            JackControl::Continue
        },
    }
}

/// The new size the following cycles use after `e`.
fn event_frames(e: &Event, cur: JackFrames) -> (r: JackFrames)
    ensures
        r == event_frames_spec(e@, cur),
{
    match e {
        Event::BufferSize { frames } => *frames,
        _ => cur,
    }
}

/// A client in the `Active` state: it owns the handle and exactly one
/// handler of each kind, for as long as the activation lasts.
///
/// Ownership is the lifecycle: activation consumes the three pieces,
/// deactivation consumes the active client and gives all three back, so
/// neither double deactivation nor use of a handle while active can be
/// written. Tear a session down with [`AsyncClient::deactivate`]; that is
/// where the server-side registrations are released.
pub struct AsyncClient<N, P> {
    /// The handle owned for the duration of the activation.
    pub client: Client,
    /// The notification handler owned for the duration of the activation.
    pub notification: N,
    /// The process handler owned for the duration of the activation.
    pub process: P,
    /// The log position from which this activation consumes events.
    pub activated_at: usize,
    /// The buffer size negotiated at activation.
    pub initial_buffer_size: JackFrames,
    /// The sample rate negotiated for this session.
    pub sample_rate: JackFrames,
}

impl<N: NotificationHandler, P: ProcessHandler> AsyncClient<N, P> {
    /// Activates the client: registers every callback kind with the
    /// server, binds the handlers, and enters the `Active` state.
    ///
    /// Atomic from the caller's perspective: either all registrations
    /// succeed, or the server is left unchanged (but for clearing the
    /// injected fault) and the handle and both handlers come back to the
    /// caller unchanged inside the error.
    pub fn new(server: &mut Server, client: Client, notification: N, process: P) -> (r: Result<
        AsyncClient<N, P>,
        (JackErr, Client, N, P),
    >)
        requires
            old(server).wf(),
        ensures
            old(server).refuse_next_activation ==> ({
                &&& r is Err
                &&& r->Err_0.0 == JackErr::ActivationError
                &&& r->Err_0.1 == client
                &&& r->Err_0.2 == notification
                &&& r->Err_0.3 == process
                &&& final(server)@ == (ServerModel {
                    refuse_next_activation: false,
                    ..old(server)@
                })
            }),
            !old(server).refuse_next_activation ==> ({
                &&& r is Ok
                &&& r->Ok_0.client == client
                &&& r->Ok_0.notification == notification
                &&& r->Ok_0.process == process
                &&& r->Ok_0.activated_at == old(server)@.events.len()
                &&& r->Ok_0.initial_buffer_size == old(server).buffer_size
                &&& r->Ok_0.sample_rate == old(server).sample_rate
                &&& final(server)@ == (ServerModel {
                    registered_callbacks: old(server).registered_callbacks.saturating_add(
                        CALLBACK_KINDS,
                    ),
                    ..old(server)@
                })
            }),
            final(server).wf(),
    {
        if server.refuse_next_activation {
            server.refuse_next_activation = false;
            return Err((JackErr::ActivationError, client, notification, process));
        }
        let activated_at = server.events.len();
        let initial_buffer_size = server.buffer_size;
        let sample_rate = server.sample_rate;
        server.registered_callbacks = server.registered_callbacks.saturating_add(CALLBACK_KINDS);
        Ok(
            AsyncClient {
                client,
                notification,
                process,
                activated_at,
                initial_buffer_size,
                sample_rate,
            },
        )
    }

    /// Current negotiated buffer size; a pure read.
    pub fn buffer_size(&self, server: &Server) -> (r: JackFrames)
        ensures
            r == server.buffer_size,
    {
        server.buffer_size
    }

    /// Current negotiated sample rate; a pure read.
    pub fn sample_rate(&self, server: &Server) -> (r: JackFrames)
        ensures
            r == server.sample_rate,
    {
        server.sample_rate
    }

    /// Requests a buffer-size renegotiation. Completion is observed later,
    /// through the buffer-size notification on the handler, never through
    /// this call's return value.
    pub fn set_buffer_size(&self, server: &mut Server, frames: JackFrames) -> (r: Result<
        (),
        JackErr,
    >)
        ensures
            frames == 0 ==> r == Result::<(), JackErr>::Err(JackErr::BufferSizeError)
                && final(server)@ == old(server)@,
            frames != 0 ==> r == Result::<(), JackErr>::Ok(()) && final(server)@ == (ServerModel {
                buffer_size: frames,
                events: old(server)@.events.push(EventModel::BufferSize { frames }),
                ..old(server)@
            }),
    {
        server.request_buffer_size(frames)
    }

    /// Registers a port of flavor `port_spec` under `name`; the
    /// registration is announced to every handler active while it
    /// happened.
    pub fn register_port<PS>(&self, server: &mut Server, name: &str, port_spec: PS) -> (r: Result<
        Port<PS>,
        JackErr,
    >)
        ensures
            name@.len() == 0 || old(server).next_port_id == u32::MAX ==> r is Err && r->Err_0
                == JackErr::PortRegistrationError && final(server)@ == old(server)@,
            name@.len() != 0 && old(server).next_port_id != u32::MAX ==> r is Ok && r->Ok_0.id
                == old(server).next_port_id && final(server)@ == (ServerModel {
                next_port_id: (old(server).next_port_id + 1) as u32,
                events: old(server)@.events.push(
                    EventModel::PortRegistration {
                        port_id: old(server).next_port_id,
                        registered: true,
                    },
                ),
                ..old(server)@
            }),
    {
        match server.register_port(name) {
            Ok(id) => Ok(Port { id, port_spec }),
            Err(e) => Err(e),
        }
    }

    /// Deactivates the client: unregisters every callback, waits out the
    /// session (every event logged while active is dispatched, with cycles
    /// in between), and returns the handle and both handlers — always all
    /// three, whatever state the handlers accumulated.
    ///
    /// The handlers come back exactly in the state [`session_spec`]
    /// assigns them. Deactivation consumes the client, so deactivating
    /// twice is ruled out by ownership rather than by a run-time check.
    pub fn deactivate(self, server: &mut Server) -> (r: Result<(Client, N, P), JackErr>)
        requires
            old(server).wf(),
            self.sample_rate >= 1,
            self.activated_at <= old(server)@.events.len(),
        ensures
            ({
                let stf = session_spec::<N, P>(
                    self.notification.model(),
                    self.process.model(),
                    self.client,
                    self.sample_rate,
                    self.initial_buffer_size,
                    old(server)@.events.skip(self.activated_at as int),
                );
                &&& r is Ok
                &&& r->Ok_0.0 == self.client
                &&& r->Ok_0.1.model() == stf.n
                &&& r->Ok_0.2.model() == stf.p
                &&& final(server)@ == (ServerModel {
                    registered_callbacks: old(server).registered_callbacks.saturating_sub(
                        CALLBACK_KINDS,
                    ),
                    ..old(server)@
                })
            }),
    {
        let AsyncClient {
            client,
            mut notification,
            mut process,
            activated_at,
            initial_buffer_size,
            sample_rate,
        } = self;
        notification.thread_init(&client);
        let v0 = notification.buffer_size(&client, initial_buffer_size);
        let mut live: bool = v0 == JackControl::Continue;
        let mut frames: JackFrames = initial_buffer_size;
        let ghost evs = server@.events.skip(activated_at as int);
        let ghost st0 = SessionState::<N::Model, P::Model> {
            n: notification.model(),
            p: process.model(),
            frames: initial_buffer_size,
            live,
        };
        let mut i: usize = activated_at;
        while i < server.events.len()
            invariant
                activated_at <= i <= server.events.len(),
                server@ == old(server)@,
                sample_rate >= 1,
                evs == server@.events.skip(activated_at as int),
                (SessionState::<N::Model, P::Model> {
                    n: notification.model(),
                    p: process.model(),
                    frames,
                    live,
                }) == session_at::<N, P>(st0, client, sample_rate, evs, i - activated_at),
            decreases server.events.len() - i,
        {
            live = run_cycle(&mut notification, &mut process, &client, frames, sample_rate, live);
            let e = &server.events[i];
            let v = deliver_event(&mut notification, &client, e);
            live = live && v == JackControl::Continue;
            frames = event_frames(e, frames);
            proof {
                assert(evs[i - activated_at] == server@.events[i as int]);
            }
            i = i + 1;
        }
        live = run_cycle(&mut notification, &mut process, &client, frames, sample_rate, live);
        proof {
            assert(evs.len() == server@.events.len() - activated_at);
        }
        server.registered_callbacks = server.registered_callbacks.saturating_sub(CALLBACK_KINDS);
        Ok((client, notification, process))
    }
}

} // verus!
