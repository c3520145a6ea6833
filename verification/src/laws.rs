//! Session-level laws: what a whole activation does to the handlers.
//!
//! Each public proof function here states one guarantee of the dispatch
//! core over [`crate::async_client::session_spec`], the same fold that
//! `deactivate`'s contract is written against.

use vstd::prelude::*;
use crate::async_client::{
    cycle_spec,
    session_at,
    session_spec,
    step_spec,
    SessionState,
};
use crate::client::Client;
use crate::control::{JackControl, JackFrames};
use crate::counter::{Counter, CounterModel};
use crate::handler::{NotificationHandler, ProcessHandler};
use crate::server::EventModel;

verus! {

/// Inductive core of [`lemma_default_handlers_neutral`].
proof fn lemma_default_session_at(
    st0: SessionState<bool, bool>,
    c: Client,
    rate: JackFrames,
    events: Seq<EventModel>,
    i: int,
)
    requires
        st0.live,
    ensures
        ({
            let st = session_at::<(), ()>(st0, c, rate, events, i);
            st.n == st0.n && st.p == st0.p && st.live
        }),
    decreases i,
{
    if i > 0 {
        lemma_default_session_at(st0, c, rate, events, i - 1);
    }
}

/// Default-callback neutrality: a session run with the trivial handlers
/// changes no handler state, answers every verdict with `Continue`, and
/// never stops the graph — activating with the default handlers is
/// observably the same as installing no behavior at all.
pub proof fn lemma_default_handlers_neutral(
    n0: bool,
    p0: bool,
    c: Client,
    rate: JackFrames,
    size0: JackFrames,
    events: Seq<EventModel>,
)
    ensures
        ({
            let st = session_spec::<(), ()>(n0, p0, c, rate, size0, events);
            st.n == n0 && st.p == p0 && st.live
        }),
{
    let st0 = SessionState::<bool, bool> { n: n0, p: p0, frames: size0, live: true };
    lemma_default_session_at(st0, c, rate, events, events.len() as int);
}

/// Inductive invariants of a session whose notification handler is a
/// [`Counter`]: the thread-init and xrun counts never decrease, and the
/// overrun-inducing switch of a `Counter` process handler is never
/// touched.
proof fn lemma_counter_monotone_at<P: ProcessHandler>(
    st0: SessionState<CounterModel, P::Model>,
    c: Client,
    rate: JackFrames,
    events: Seq<EventModel>,
    i: int,
)
    ensures
        ({
            let st = session_at::<Counter, P>(st0, c, rate, events, i);
            &&& st.n.thread_init_count >= st0.n.thread_init_count
            &&& st.n.xruns_count >= st0.n.xruns_count
        }),
    decreases i,
{
    if i > 0 {
        lemma_counter_monotone_at::<P>(st0, c, rate, events, i - 1);
    }
}

/// Thread-init counting: after any session, a `Counter` notification
/// handler's thread-init count is at least one, and at least what it was
/// before activation — the count is monotone and carries no exactly-once
/// guarantee, only a lower bound.
pub proof fn lemma_thread_init_counted<P: ProcessHandler>(
    n0: CounterModel,
    p0: P::Model,
    c: Client,
    rate: JackFrames,
    size0: JackFrames,
    events: Seq<EventModel>,
)
    ensures
        ({
            let st = session_spec::<Counter, P>(n0, p0, c, rate, size0, events);
            &&& st.n.thread_init_count >= 1
            &&& st.n.thread_init_count >= n0.thread_init_count
        }),
{
    let n1 = <Counter as NotificationHandler>::thread_init_spec(n0, c);
    let bs = <Counter as NotificationHandler>::buffer_size_spec(n1, c, size0);
    let st0 = SessionState::<CounterModel, P::Model> {
        n: bs.0,
        p: p0,
        frames: size0,
        live: bs.1 == JackControl::Continue,
    };
    lemma_counter_monotone_at::<P>(st0, c, rate, events, events.len() as int);
}

/// The names of the peer clients that registered, in event order.
pub open spec fn reg_names(events: Seq<EventModel>, registered: bool) -> Seq<Seq<char>>
    decreases events.len(),
{
    if events.len() == 0 {
        Seq::empty()
    } else {
        reg_names(events.drop_last(), registered) + (match events.last() {
            EventModel::ClientRegistration { name, registered: r } => if r == registered {
                seq![name]
            } else {
                Seq::empty()
            },
            _ => Seq::empty(),
        })
    }
}

/// The ports that registered (or, with `registered` false, unregistered),
/// in event order.
pub open spec fn reg_ports(events: Seq<EventModel>, registered: bool) -> Seq<u32>
    decreases events.len(),
{
    if events.len() == 0 {
        Seq::empty()
    } else {
        reg_ports(events.drop_last(), registered) + (match events.last() {
            EventModel::PortRegistration { port_id, registered: r } => if r == registered {
                seq![port_id]
            } else {
                Seq::empty()
            },
            _ => Seq::empty(),
        })
    }
}

/// The buffer sizes announced, in event order.
pub open spec fn announced_sizes(events: Seq<EventModel>) -> Seq<JackFrames>
    decreases events.len(),
{
    if events.len() == 0 {
        Seq::empty()
    } else {
        announced_sizes(events.drop_last()) + (match events.last() {
            EventModel::BufferSize { frames } => seq![frames],
            _ => Seq::empty(),
        })
    }
}

/// Inductive core of [`lemma_counter_histories`].
proof fn lemma_counter_histories_at<P: ProcessHandler>(
    st0: SessionState<CounterModel, P::Model>,
    c: Client,
    rate: JackFrames,
    events: Seq<EventModel>,
    i: int,
)
    requires
        0 <= i <= events.len(),
    ensures
        ({
            let st = session_at::<Counter, P>(st0, c, rate, events, i);
            &&& st.n.registered_client_history == st0.n.registered_client_history + reg_names(
                events.take(i),
                true,
            )
            &&& st.n.unregistered_client_history == st0.n.unregistered_client_history + reg_names(
                events.take(i),
                false,
            )
            &&& st.n.port_register_history == st0.n.port_register_history + reg_ports(
                events.take(i),
                true,
            )
            &&& st.n.port_unregister_history == st0.n.port_unregister_history + reg_ports(
                events.take(i),
                false,
            )
            &&& st.n.buffer_size_change_history == st0.n.buffer_size_change_history
                + announced_sizes(events.take(i))
        }),
    decreases i,
{
    if i == 0 {
        assert(events.take(0) =~= Seq::<EventModel>::empty());
        assert(st0.n.registered_client_history + reg_names(events.take(0), true)
            =~= st0.n.registered_client_history);
        assert(st0.n.unregistered_client_history + reg_names(events.take(0), false)
            =~= st0.n.unregistered_client_history);
        assert(st0.n.port_register_history + reg_ports(events.take(0), true)
            =~= st0.n.port_register_history);
        assert(st0.n.port_unregister_history + reg_ports(events.take(0), false)
            =~= st0.n.port_unregister_history);
        assert(st0.n.buffer_size_change_history + announced_sizes(events.take(0))
            =~= st0.n.buffer_size_change_history);
    } else {
        lemma_counter_histories_at::<P>(st0, c, rate, events, i - 1);
        let pre = session_at::<Counter, P>(st0, c, rate, events, i - 1);
        let st = session_at::<Counter, P>(st0, c, rate, events, i);
        let e = events[i - 1];
        assert(events.take(i).drop_last() =~= events.take(i - 1));
        assert(events.take(i).last() == e);
        assert(st == step_spec::<Counter, P>(pre, c, rate, e));
        match e {
            EventModel::ClientRegistration { name, registered } => {
                if registered {
                    assert(st.n.registered_client_history =~= st0.n.registered_client_history
                        + reg_names(events.take(i), true));
                    assert(st.n.unregistered_client_history =~= st0.n.unregistered_client_history
                        + reg_names(events.take(i), false));
                } else {
                    assert(st.n.registered_client_history =~= st0.n.registered_client_history
                        + reg_names(events.take(i), true));
                    assert(st.n.unregistered_client_history =~= st0.n.unregistered_client_history
                        + reg_names(events.take(i), false));
                }
                assert(st.n.port_register_history =~= st0.n.port_register_history + reg_ports(
                    events.take(i),
                    true,
                ));
                assert(st.n.port_unregister_history =~= st0.n.port_unregister_history + reg_ports(
                    events.take(i),
                    false,
                ));
                assert(st.n.buffer_size_change_history =~= st0.n.buffer_size_change_history
                    + announced_sizes(events.take(i)));
            },
            _ => {
                assert(st.n.registered_client_history =~= st0.n.registered_client_history
                    + reg_names(events.take(i), true));
                assert(st.n.unregistered_client_history =~= st0.n.unregistered_client_history
                    + reg_names(events.take(i), false));
                assert(st.n.port_register_history =~= st0.n.port_register_history + reg_ports(
                    events.take(i),
                    true,
                ));
                assert(st.n.port_unregister_history =~= st0.n.port_unregister_history + reg_ports(
                    events.take(i),
                    false,
                ));
                assert(st.n.buffer_size_change_history =~= st0.n.buffer_size_change_history
                    + announced_sizes(events.take(i)));
            },
        }
    }
}

/// History bookkeeping: after any session, a `Counter` notification
/// handler's histories are exactly what it held before, extended by the
/// session's events in delivery order — registered and unregistered peer
/// names, registered and unregistered ports, and the buffer sizes, the
/// latter led by the size announced at activation. In particular a peer
/// registered while the client is active appears in the registered
/// history before any later unregistration of it can appear in the
/// unregistered history.
pub proof fn lemma_counter_histories<P: ProcessHandler>(
    n0: CounterModel,
    p0: P::Model,
    c: Client,
    rate: JackFrames,
    size0: JackFrames,
    events: Seq<EventModel>,
)
    ensures
        ({
            let st = session_spec::<Counter, P>(n0, p0, c, rate, size0, events);
            &&& st.n.registered_client_history == n0.registered_client_history + reg_names(
                events,
                true,
            )
            &&& st.n.unregistered_client_history == n0.unregistered_client_history + reg_names(
                events,
                false,
            )
            &&& st.n.port_register_history == n0.port_register_history + reg_ports(events, true)
            &&& st.n.port_unregister_history == n0.port_unregister_history + reg_ports(
                events,
                false,
            )
            &&& st.n.buffer_size_change_history == n0.buffer_size_change_history + seq![size0]
                + announced_sizes(events)
        }),
{
    let n1 = <Counter as NotificationHandler>::thread_init_spec(n0, c);
    let bs = <Counter as NotificationHandler>::buffer_size_spec(n1, c, size0);
    let st0 = SessionState::<CounterModel, P::Model> {
        n: bs.0,
        p: p0,
        frames: size0,
        live: bs.1 == JackControl::Continue,
    };
    lemma_counter_histories_at::<P>(st0, c, rate, events, events.len() as int);
    assert(events.take(events.len() as int) =~= events);
    let st = session_spec::<Counter, P>(n0, p0, c, rate, size0, events);
    assert(st0.n.buffer_size_change_history =~= n0.buffer_size_change_history + seq![size0]);
    assert(st.n.buffer_size_change_history =~= n0.buffer_size_change_history + seq![size0]
        + announced_sizes(events));
}

/// A name appears among the collected registration names whenever some
/// event carries it.
proof fn lemma_reg_names_complete(
    events: Seq<EventModel>,
    registered: bool,
    name: Seq<char>,
    i: int,
)
    requires
        0 <= i < events.len(),
        events[i] == (EventModel::ClientRegistration { name, registered }),
    ensures
        reg_names(events, registered).contains(name),
    decreases events.len(),
{
    if i == events.len() - 1 {
        let tail = reg_names(events, registered);
        assert(tail.last() == name);
        assert(tail.contains(name));
    } else {
        lemma_reg_names_complete(events.drop_last(), registered, name, i);
        let pre = reg_names(events.drop_last(), registered);
        let k = choose|k: int| 0 <= k < pre.len() && pre[k] == name;
        assert(reg_names(events, registered)[k] == name);
    }
}

/// Every collected registration name comes from some event carrying it.
proof fn lemma_reg_names_sound(events: Seq<EventModel>, registered: bool, name: Seq<char>)
    requires
        reg_names(events, registered).contains(name),
    ensures
        exists|i: int|
            0 <= i < events.len() && events[i] == (EventModel::ClientRegistration {
                name,
                registered,
            }),
    decreases events.len(),
{
    let pre = reg_names(events.drop_last(), registered);
    let all = reg_names(events, registered);
    let k = choose|k: int| 0 <= k < all.len() && all[k] == name;
    if k < pre.len() {
        lemma_reg_names_sound(events.drop_last(), registered, name);
        let i = choose|i: int|
            0 <= i < events.drop_last().len() && events.drop_last()[i]
                == (EventModel::ClientRegistration { name, registered });
        assert(events[i] == (EventModel::ClientRegistration { name, registered }));
    } else {
        assert(events.last() == (EventModel::ClientRegistration { name, registered }));
        assert(events[events.len() - 1] == (EventModel::ClientRegistration { name, registered }));
    }
}

/// Peer-registration visibility: when a peer named `name` registers during
/// the session and never unregisters, and the `Counter` had not seen the
/// name before, the name stands in the registered-client history afterwards
/// and not in the unregistered-client history.
pub proof fn lemma_peer_registration_observed<P: ProcessHandler>(
    n0: CounterModel,
    p0: P::Model,
    c: Client,
    rate: JackFrames,
    size0: JackFrames,
    events: Seq<EventModel>,
    name: Seq<char>,
)
    requires
        !n0.registered_client_history.contains(name),
        !n0.unregistered_client_history.contains(name),
        exists|i: int|
            0 <= i < events.len() && events[i] == (EventModel::ClientRegistration {
                name,
                registered: true,
            }),
        forall|i: int|
            0 <= i < events.len() ==> events[i] != (EventModel::ClientRegistration {
                name,
                registered: false,
            }),
    ensures
        ({
            let st = session_spec::<Counter, P>(n0, p0, c, rate, size0, events);
            &&& st.n.registered_client_history.contains(name)
            &&& !st.n.unregistered_client_history.contains(name)
        }),
{
    lemma_counter_histories::<P>(n0, p0, c, rate, size0, events);
    let st = session_spec::<Counter, P>(n0, p0, c, rate, size0, events);
    let i = choose|i: int|
        0 <= i < events.len() && events[i] == (EventModel::ClientRegistration {
            name,
            registered: true,
        });
    lemma_reg_names_complete(events, true, name, i);
    let regs = reg_names(events, true);
    let k = choose|k: int| 0 <= k < regs.len() && regs[k] == name;
    assert(st.n.registered_client_history[n0.registered_client_history.len() + k] == name);
    assert(st.n.registered_client_history.contains(name));
    if st.n.unregistered_client_history.contains(name) {
        let j = choose|j: int|
            0 <= j < st.n.unregistered_client_history.len()
                && st.n.unregistered_client_history[j] == name;
        if j < n0.unregistered_client_history.len() {
            assert(n0.unregistered_client_history.contains(name));
        } else {
            let unregs = reg_names(events, false);
            assert(unregs[j - n0.unregistered_client_history.len()] == name);
            assert(unregs.contains(name));
            lemma_reg_names_sound(events, false, name);
        }
    }
}

/// Total frames requested from the process handler over the first `i`
/// steps of a `Counter`/`Counter` session: each step whose session is
/// still live runs one cycle of the then-current size.
pub open spec fn frames_requested(
    st0: SessionState<CounterModel, CounterModel>,
    c: Client,
    rate: JackFrames,
    events: Seq<EventModel>,
    i: int,
) -> int
    decreases i,
{
    if i <= 0 {
        0
    } else {
        frames_requested(st0, c, rate, events, i - 1) + ({
            let st = session_at::<Counter, Counter>(st0, c, rate, events, i - 1);
            if st.live {
                st.frames as int
            } else {
                0
            }
        })
    }
}

/// The state a `Counter`/`Counter` session starts from: thread-init, then
/// the announcement of the activation-time buffer size.
pub open spec fn counter_prologue(n0: CounterModel, p0: CounterModel, c: Client, size0: JackFrames)
    -> SessionState<CounterModel, CounterModel> {
    let n1 = <Counter as NotificationHandler>::thread_init_spec(n0, c);
    let bs = <Counter as NotificationHandler>::buffer_size_spec(n1, c, size0);
    SessionState { n: bs.0, p: p0, frames: size0, live: bs.1 == JackControl::Continue }
}

/// Total frames requested over a whole `Counter`/`Counter` session,
/// including the final cycle.
pub open spec fn session_frames_requested(
    n0: CounterModel,
    p0: CounterModel,
    c: Client,
    rate: JackFrames,
    size0: JackFrames,
    events: Seq<EventModel>,
) -> int {
    let st0 = counter_prologue(n0, p0, c, size0);
    let st1 = session_at::<Counter, Counter>(st0, c, rate, events, events.len() as int);
    frames_requested(st0, c, rate, events, events.len() as int) + (if st1.live {
        st1.frames as int
    } else {
        0
    })
}

/// Inductive core for `Counter`/`Counter` sessions: a `Counter` never
/// quits, so liveness is preserved; the overrun switch is never touched;
/// and the processed-frame count accumulates, saturating, exactly the
/// frames requested.
proof fn lemma_counter_counter_at(
    st0: SessionState<CounterModel, CounterModel>,
    c: Client,
    rate: JackFrames,
    events: Seq<EventModel>,
    i: int,
)
    ensures
        ({
            let st = session_at::<Counter, Counter>(st0, c, rate, events, i);
            let total = frames_requested(st0, c, rate, events, i);
            &&& st.live == st0.live
            &&& st.p.induce_xruns == st0.p.induce_xruns
            &&& st.n.xruns_count >= st0.n.xruns_count
            &&& total >= 0
            &&& st.p.frames_processed == (if st0.p.frames_processed + total > usize::MAX {
                usize::MAX as int
            } else {
                st0.p.frames_processed + total
            })
        }),
    decreases i,
{
    if i > 0 {
        lemma_counter_counter_at(st0, c, rate, events, i - 1);
    }
}

/// Processed-frame accounting: over any `Counter`/`Counter` session, the
/// process handler's frame counter grows by exactly the total frames
/// requested across the session's cycles, saturating at the counter's
/// limit; in particular it never decreases, and equals the total when it
/// started at zero and the total fits the counter.
pub proof fn lemma_frames_processed_accumulates(
    n0: CounterModel,
    p0: CounterModel,
    c: Client,
    rate: JackFrames,
    size0: JackFrames,
    events: Seq<EventModel>,
)
    ensures
        ({
            let st = session_spec::<Counter, Counter>(n0, p0, c, rate, size0, events);
            let total = session_frames_requested(n0, p0, c, rate, size0, events);
            &&& total >= 0
            &&& st.p.frames_processed == (if p0.frames_processed + total > usize::MAX {
                usize::MAX as int
            } else {
                p0.frames_processed + total
            })
            &&& st.p.frames_processed >= p0.frames_processed
        }),
{
    let st0 = counter_prologue(n0, p0, c, size0);
    lemma_counter_counter_at(st0, c, rate, events, events.len() as int);
}

/// The cycle budget always fits strictly below the largest reportable
/// running time.
proof fn lemma_cycle_budget_bounded(frames: JackFrames, rate: JackFrames)
    requires
        rate >= 1,
    ensures
        crate::async_client::cycle_period_micros_spec(frames, rate) < u64::MAX,
{
    assert(frames as int * 1_000_000 <= 0xFFFF_FFFFint * 1_000_000) by (nonlinear_arith)
        requires
            frames <= 0xFFFF_FFFFu32,
    ;
    assert(frames as int * 1_000_000 / rate as int <= frames as int * 1_000_000)
        by (nonlinear_arith)
        requires
            rate >= 1,
    ;
    assert(frames as int * 1_000_000 / rate as int >= 0) by (nonlinear_arith)
        requires
            rate >= 1,
    ;
}

/// Overrun reporting: a process handler that stalls past the cycle
/// deadline makes the xrun count positive. With the overrun switch set, a
/// `Counter` reports a running time beyond any budget, so after the
/// session the xrun counter observed through the notification handler is
/// at least one.
pub proof fn lemma_stalling_reports_xruns(
    n0: CounterModel,
    p0: CounterModel,
    c: Client,
    rate: JackFrames,
    size0: JackFrames,
    events: Seq<EventModel>,
)
    requires
        rate >= 1,
        p0.induce_xruns,
    ensures
        session_spec::<Counter, Counter>(n0, p0, c, rate, size0, events).n.xruns_count >= 1,
{
    let st0 = counter_prologue(n0, p0, c, size0);
    let st1 = session_at::<Counter, Counter>(st0, c, rate, events, events.len() as int);
    lemma_counter_counter_at(st0, c, rate, events, events.len() as int);
    lemma_cycle_budget_bounded(st1.frames, rate);
    assert(st1.live && st1.p.induce_xruns);
    let stf = cycle_spec::<Counter, Counter>(st1, c, rate);
    assert(stf.n.xruns_count >= 1);
}

} // verus!
