//! A bookkeeping handler that records every notification it receives.
//!
//! `Counter` implements both capability traits and accumulates counters and
//! histories, so that after deactivation the caller can inspect what the
//! session delivered. Its counters saturate rather than overflow: callbacks
//! such as thread-init carry no exactly-once guarantee, so the counts are
//! lower bounds, never equalities.

use vstd::prelude::*;
use crate::client::{Client, ProcessScope};
use crate::client_status::ClientStatus;
use crate::control::{JackControl, JackFrames, JackPortId, LatencyType};
use crate::handler::{NotificationHandler, ProcessHandler};

verus! {

/// The mathematical model of a [`Counter`]'s state.
pub ghost struct CounterModel {
    pub process_return_val: JackControl,
    pub induce_xruns: bool,
    pub thread_init_count: usize,
    pub frames_processed: usize,
    pub buffer_size_change_history: Seq<JackFrames>,
    pub registered_client_history: Seq<Seq<char>>,
    pub unregistered_client_history: Seq<Seq<char>>,
    pub port_register_history: Seq<JackPortId>,
    pub port_unregister_history: Seq<JackPortId>,
    pub xruns_count: usize,
}

impl CounterModel {
    /// The model of a freshly built counter: nothing recorded yet.
    pub open spec fn init() -> CounterModel {
        CounterModel {
            process_return_val: JackControl::Continue,
            induce_xruns: false,
            thread_init_count: 0,
            frames_processed: 0,
            buffer_size_change_history: Seq::empty(),
            registered_client_history: Seq::empty(),
            unregistered_client_history: Seq::empty(),
            port_register_history: Seq::empty(),
            port_unregister_history: Seq::empty(),
            xruns_count: 0,
        }
    }
}

/// A handler that counts callbacks and keeps their argument histories.
#[derive(Debug)]
pub struct Counter {
    /// A staged verdict; not consulted by this handler's `process`, which
    /// always continues.
    pub process_return_val: JackControl,
    /// When set, every cycle reports a running time past any deadline.
    pub induce_xruns: bool,
    /// How often thread-init fired; saturating.
    pub thread_init_count: usize,
    /// Total frames handed to `process`; saturating.
    pub frames_processed: usize,
    /// Every buffer size announced, in delivery order.
    pub buffer_size_change_history: Vec<JackFrames>,
    /// Names of peer clients as they registered, in delivery order.
    pub registered_client_history: Vec<String>,
    /// Names of peer clients as they unregistered, in delivery order.
    pub unregistered_client_history: Vec<String>,
    /// Ports as they registered, in delivery order.
    pub port_register_history: Vec<JackPortId>,
    /// Ports as they unregistered, in delivery order.
    pub port_unregister_history: Vec<JackPortId>,
    /// How many overruns were reported; saturating.
    pub xruns_count: usize,
}

impl View for Counter {
    type V = CounterModel;

    open spec fn view(&self) -> CounterModel {
        CounterModel {
            process_return_val: self.process_return_val,
            induce_xruns: self.induce_xruns,
            thread_init_count: self.thread_init_count,
            frames_processed: self.frames_processed,
            buffer_size_change_history: self.buffer_size_change_history@,
            registered_client_history: self.registered_client_history.deep_view(),
            unregistered_client_history: self.unregistered_client_history.deep_view(),
            port_register_history: self.port_register_history@,
            port_unregister_history: self.port_unregister_history@,
            xruns_count: self.xruns_count,
        }
    }
}

impl Default for Counter {
    /// A counter with nothing recorded yet.
    fn default() -> (r: Counter)
        ensures
            r@ == CounterModel::init(),
    {
        let r = Counter {
            process_return_val: JackControl::Continue,
            induce_xruns: false,
            thread_init_count: 0,
            frames_processed: 0,
            buffer_size_change_history: Vec::new(),
            registered_client_history: Vec::new(),
            unregistered_client_history: Vec::new(),
            port_register_history: Vec::new(),
            port_unregister_history: Vec::new(),
            xruns_count: 0,
        };
        proof {
            assert(r.registered_client_history.deep_view() =~= Seq::<Seq<char>>::empty());
            assert(r.unregistered_client_history.deep_view() =~= Seq::<Seq<char>>::empty());
        }
        r
    }
}

impl NotificationHandler for Counter {
    type Model = CounterModel;

    open spec fn model(&self) -> CounterModel {
        self@
    }

    open spec fn thread_init_spec(pre: CounterModel, c: Client) -> CounterModel {
        CounterModel { thread_init_count: pre.thread_init_count.saturating_add(1), ..pre }
    }

    fn thread_init(&mut self, c: &Client) {
        self.thread_init_count = self.thread_init_count.saturating_add(1);
    }

    fn shutdown(&mut self, status: ClientStatus, reason: &str) {
    }

    fn freewheel(&mut self, c: &Client, starting: bool) {
    }

    open spec fn buffer_size_spec(
        pre: CounterModel,
        c: Client,
        size: JackFrames,
    ) -> (CounterModel, JackControl) {
        (
            CounterModel {
                buffer_size_change_history: pre.buffer_size_change_history.push(size),
                ..pre
            },
            JackControl::Continue,
        )
    }

    fn buffer_size(&mut self, c: &Client, size: JackFrames) -> (r: JackControl) {
        self.buffer_size_change_history.push(size);
        JackControl::Continue
    }

    fn sample_rate(&mut self, c: &Client, rate: JackFrames) -> (r: JackControl) {
        JackControl::Continue
    }

    open spec fn client_registration_spec(
        pre: CounterModel,
        c: Client,
        name: Seq<char>,
        is_registered: bool,
    ) -> CounterModel {
        if is_registered {
            CounterModel {
                registered_client_history: pre.registered_client_history.push(name),
                ..pre
            }
        } else {
            CounterModel {
                unregistered_client_history: pre.unregistered_client_history.push(name),
                ..pre
            }
        }
    }

    fn client_registration(&mut self, c: &Client, name: &str, is_registered: bool) {
        let owned = name.to_owned();
        let ghost pushed = owned@;
        if is_registered {
            self.registered_client_history.push(owned);
            proof {
                assert(self.registered_client_history.deep_view() =~= old(
                    self,
                ).registered_client_history.deep_view().push(pushed));
            }
        } else {
            self.unregistered_client_history.push(owned);
            proof {
                assert(self.unregistered_client_history.deep_view() =~= old(
                    self,
                ).unregistered_client_history.deep_view().push(pushed));
            }
        }
    }

    open spec fn port_registration_spec(
        pre: CounterModel,
        c: Client,
        port_id: JackPortId,
        is_registered: bool,
    ) -> CounterModel {
        if is_registered {
            CounterModel { port_register_history: pre.port_register_history.push(port_id), ..pre }
        } else {
            CounterModel {
                port_unregister_history: pre.port_unregister_history.push(port_id),
                ..pre
            }
        }
    }

    fn port_registration(&mut self, c: &Client, port_id: JackPortId, is_registered: bool) {
        if is_registered {
            self.port_register_history.push(port_id);
        } else {
            self.port_unregister_history.push(port_id);
        }
    }

    fn port_rename(
        &mut self,
        c: &Client,
        port_id: JackPortId,
        old_name: &str,
        new_name: &str,
    ) -> (r: JackControl) {
        JackControl::Continue
    }

    fn ports_connected(
        &mut self,
        c: &Client,
        port_a: JackPortId,
        port_b: JackPortId,
        are_connected: bool,
    ) {
    }

    fn graph_reorder(&mut self, c: &Client) -> (r: JackControl) {
        JackControl::Continue
    }

    open spec fn xrun_spec(pre: CounterModel, c: Client) -> (CounterModel, JackControl) {
        (
            CounterModel { xruns_count: pre.xruns_count.saturating_add(1), ..pre },
            JackControl::Continue,
        )
    }

    fn xrun(&mut self, c: &Client) -> (r: JackControl) {
        self.xruns_count = self.xruns_count.saturating_add(1);
        JackControl::Continue
    }

    fn latency(&mut self, c: &Client, mode: LatencyType) {
    }
}

impl ProcessHandler for Counter {
    type Model = CounterModel;

    open spec fn model(&self) -> CounterModel {
        self@
    }

    open spec fn process_spec(
        pre: CounterModel,
        c: Client,
        ps: ProcessScope,
    ) -> (CounterModel, JackControl) {
        (
            CounterModel {
                frames_processed: pre.frames_processed.saturating_add(ps.frames as usize),
                ..pre
            },
            JackControl::Continue,
        )
    }

    fn process(&mut self, c: &Client, ps: &ProcessScope) -> (r: JackControl) {
        self.frames_processed = self.frames_processed.saturating_add(ps.frames as usize);
        JackControl::Continue
    }

    open spec fn process_duration_spec(pre: CounterModel, ps: ProcessScope) -> u64 {
        if pre.induce_xruns {
            u64::MAX
        } else {
            0
        }
    }

    fn process_duration(&self, ps: &ProcessScope) -> (r: u64) {
        if self.induce_xruns {
            u64::MAX
        } else {
            0
        }
    }
}

} // verus!
