//! A deterministic model of the audio server's control side.
//!
//! The framework is purely reactive: the real server drives every callback.
//! This model stands in for that collaborator. It keeps the negotiated
//! parameters and an append-only log of the notification events it has
//! fired; an activated client consumes the suffix of the log that was
//! appended while it was active, one trampoline dispatch per entry.

use vstd::prelude::*;
use crate::client_status::ClientStatus;
use crate::control::{JackErr, JackFrames, JackPortId, LatencyType};

verus! {

/// One notification fired by the server, as recorded in its log.
pub enum Event {
    /// The server forcibly disconnected its clients.
    Shutdown { status: ClientStatus, reason: String },
    /// Freewheel mode was entered or left.
    Freewheel { starting: bool },
    /// The cycle buffer size was renegotiated.
    BufferSize { frames: JackFrames },
    /// The sample rate changed.
    SampleRate { rate: JackFrames },
    /// A client connection was opened (`registered`) or closed.
    ClientRegistration { name: String, registered: bool },
    /// A port was added to (`registered`) or removed from the graph.
    PortRegistration { port_id: JackPortId, registered: bool },
    /// A port was renamed.
    PortRename { port_id: JackPortId, old_name: String, new_name: String },
    /// Two ports were connected or disconnected.
    PortsConnected { port_a: JackPortId, port_b: JackPortId, connected: bool },
    /// The processing graph was reordered.
    GraphReorder,
    /// Latencies in one direction must be recomputed.
    Latency { mode: LatencyType },
}

/// The mathematical model of an [`Event`].
pub ghost enum EventModel {
    Shutdown { status: ClientStatus, reason: Seq<char> },
    Freewheel { starting: bool },
    BufferSize { frames: JackFrames },
    SampleRate { rate: JackFrames },
    ClientRegistration { name: Seq<char>, registered: bool },
    PortRegistration { port_id: JackPortId, registered: bool },
    PortRename { port_id: JackPortId, old_name: Seq<char>, new_name: Seq<char> },
    PortsConnected { port_a: JackPortId, port_b: JackPortId, connected: bool },
    GraphReorder,
    Latency { mode: LatencyType },
}

impl View for Event {
    type V = EventModel;

    open spec fn view(&self) -> EventModel {
        match self {
            Event::Shutdown { status, reason } => EventModel::Shutdown {
                status: *status,
                reason: reason@,
            },
            Event::Freewheel { starting } => EventModel::Freewheel { starting: *starting },
            Event::BufferSize { frames } => EventModel::BufferSize { frames: *frames },
            Event::SampleRate { rate } => EventModel::SampleRate { rate: *rate },
            Event::ClientRegistration { name, registered } => EventModel::ClientRegistration {
                name: name@,
                registered: *registered,
            },
            Event::PortRegistration { port_id, registered } => EventModel::PortRegistration {
                port_id: *port_id,
                registered: *registered,
            },
            Event::PortRename { port_id, old_name, new_name } => EventModel::PortRename {
                port_id: *port_id,
                old_name: old_name@,
                new_name: new_name@,
            },
            Event::PortsConnected { port_a, port_b, connected } => EventModel::PortsConnected {
                port_a: *port_a,
                port_b: *port_b,
                connected: *connected,
            },
            Event::GraphReorder => EventModel::GraphReorder,
            Event::Latency { mode } => EventModel::Latency { mode: *mode },
        }
    }
}

impl DeepView for Event {
    type V = EventModel;

    open spec fn deep_view(&self) -> EventModel {
        self@
    }
}

/// The mathematical model of a [`Server`].
pub ghost struct ServerModel {
    pub sample_rate: JackFrames,
    pub buffer_size: JackFrames,
    pub client_names: Seq<Seq<char>>,
    pub next_port_id: JackPortId,
    pub events: Seq<EventModel>,
    pub registered_callbacks: usize,
    pub refuse_next_activation: bool,
}

/// The control side of the audio server, modeled deterministically.
pub struct Server {
    /// Frames per second; at least one.
    pub sample_rate: JackFrames,
    /// Current negotiated frames per cycle.
    pub buffer_size: JackFrames,
    /// Names of the connections open right now, in order of opening.
    pub client_names: Vec<String>,
    /// The next port identifier to hand out.
    pub next_port_id: JackPortId,
    /// Every notification fired so far, oldest first. Append-only.
    pub events: Vec<Event>,
    /// How many callbacks are installed over all activated clients.
    pub registered_callbacks: usize,
    /// Fault injection: when set, the next activation is rejected and the
    /// flag clears. Models the server refusing a callback registration.
    pub refuse_next_activation: bool,
}

impl View for Server {
    type V = ServerModel;

    open spec fn view(&self) -> ServerModel {
        ServerModel {
            sample_rate: self.sample_rate,
            buffer_size: self.buffer_size,
            client_names: self.client_names.deep_view(),
            next_port_id: self.next_port_id,
            events: self.events.deep_view(),
            registered_callbacks: self.registered_callbacks,
            refuse_next_activation: self.refuse_next_activation,
        }
    }
}

impl Server {
    /// A server is well formed when its sample rate is positive.
    pub open spec fn wf(&self) -> bool {
        self.sample_rate >= 1
    }

    /// Starts a server with the given negotiated parameters and an empty
    /// log.
    pub fn new(sample_rate: JackFrames, buffer_size: JackFrames) -> (r: Server)
        requires
            sample_rate >= 1,
            buffer_size >= 1,
        ensures
            r.wf(),
            r@ == (ServerModel {
                sample_rate,
                buffer_size,
                client_names: Seq::empty(),
                next_port_id: 0,
                events: Seq::empty(),
                registered_callbacks: 0,
                refuse_next_activation: false,
            }),
    {
        let r = Server {
            sample_rate,
            buffer_size,
            client_names: Vec::new(),
            next_port_id: 0,
            events: Vec::new(),
            registered_callbacks: 0,
            refuse_next_activation: false,
        };
        proof {
            assert(r.client_names.deep_view() =~= Seq::<Seq<char>>::empty());
            assert(r.events.deep_view() =~= Seq::<EventModel>::empty());
        }
        r
    }

    /// Makes the server reject the next activation, as if a callback
    /// registration failed on the server side.
    pub fn refuse_next_activation(&mut self)
        ensures
            final(self)@ == (ServerModel { refuse_next_activation: true, ..old(self)@ }),
    {
        self.refuse_next_activation = true;
    }

    /// Appends one event to the log.
    fn log(&mut self, e: Event)
        ensures
            final(self)@ == (ServerModel { events: old(self)@.events.push(e@), ..old(self)@ }),
    {
        let ghost ge = e@;
        self.events.push(e);
        proof {
            assert(self.events.deep_view() =~= old(self).events.deep_view().push(ge));
            assert(self.client_names.deep_view() =~= old(self).client_names.deep_view());
        }
    }

    /// Renegotiates the buffer size. The change is applied server-side and
    /// announced through a later buffer-size notification; callers must not
    /// assume any handler has observed it when this returns.
    pub fn request_buffer_size(&mut self, frames: JackFrames) -> (r: Result<(), JackErr>)
        ensures
            frames == 0 ==> r == Result::<(), JackErr>::Err(JackErr::BufferSizeError)
                && final(self)@ == old(self)@,
            frames != 0 ==> r == Result::<(), JackErr>::Ok(()) && final(self)@ == (ServerModel {
                buffer_size: frames,
                events: old(self)@.events.push(EventModel::BufferSize { frames }),
                ..old(self)@
            }),
    {
        if frames == 0 {
            Err(JackErr::BufferSizeError)
        } else {
            self.buffer_size = frames;
            self.log(Event::BufferSize { frames });
            Ok(())
        }
    }

    /// Adds a port to the graph and announces its registration.
    pub fn register_port(&mut self, name: &str) -> (r: Result<JackPortId, JackErr>)
        ensures
            name@.len() == 0 || old(self).next_port_id == JackPortId::MAX ==> r == Result::<
                JackPortId,
                JackErr,
            >::Err(JackErr::PortRegistrationError) && final(self)@ == old(self)@,
            name@.len() != 0 && old(self).next_port_id != JackPortId::MAX ==> r == Result::<
                JackPortId,
                JackErr,
            >::Ok(old(self).next_port_id) && final(self)@ == (ServerModel {
                next_port_id: (old(self).next_port_id + 1) as JackPortId,
                events: old(self)@.events.push(
                    EventModel::PortRegistration {
                        port_id: old(self).next_port_id,
                        registered: true,
                    },
                ),
                ..old(self)@
            }),
    {
        if name.is_empty() || self.next_port_id == JackPortId::MAX {
            Err(JackErr::PortRegistrationError)
        } else {
            let id = self.next_port_id;
            self.next_port_id = id + 1;
            self.log(Event::PortRegistration { port_id: id, registered: true });
            Ok(id)
        }
    }

    /// Removes a port from the graph and announces its unregistration.
    pub fn unregister_port(&mut self, port_id: JackPortId)
        ensures
            final(self)@ == (ServerModel {
                events: old(self)@.events.push(
                    EventModel::PortRegistration { port_id, registered: false },
                ),
                ..old(self)@
            }),
    {
        self.log(Event::PortRegistration { port_id, registered: false });
    }

    /// Announces that freewheel mode was entered or left.
    pub fn set_freewheel(&mut self, starting: bool)
        ensures
            final(self)@ == (ServerModel {
                events: old(self)@.events.push(EventModel::Freewheel { starting }),
                ..old(self)@
            }),
    {
        self.log(Event::Freewheel { starting });
    }

    /// Announces a sample-rate change and applies it server-side.
    pub fn announce_sample_rate(&mut self, rate: JackFrames)
        requires
            rate >= 1,
        ensures
            final(self)@ == (ServerModel {
                sample_rate: rate,
                events: old(self)@.events.push(EventModel::SampleRate { rate }),
                ..old(self)@
            }),
            final(self).wf(),
    {
        self.sample_rate = rate;
        self.log(Event::SampleRate { rate });
    }

    /// Announces that a port was renamed.
    pub fn rename_port(&mut self, port_id: JackPortId, old_name: &str, new_name: &str)
        ensures
            final(self)@ == (ServerModel {
                events: old(self)@.events.push(
                    EventModel::PortRename {
                        port_id,
                        old_name: old_name@,
                        new_name: new_name@,
                    },
                ),
                ..old(self)@
            }),
    {
        self.log(
            Event::PortRename {
                port_id,
                old_name: old_name.to_owned(),
                new_name: new_name.to_owned(),
            },
        );
    }

    /// Announces that two ports were connected or disconnected.
    pub fn connect_ports(&mut self, port_a: JackPortId, port_b: JackPortId, connected: bool)
        ensures
            final(self)@ == (ServerModel {
                events: old(self)@.events.push(
                    EventModel::PortsConnected { port_a, port_b, connected },
                ),
                ..old(self)@
            }),
    {
        self.log(Event::PortsConnected { port_a, port_b, connected });
    }

    /// Announces that latencies in direction `mode` must be recomputed.
    pub fn announce_latency(&mut self, mode: LatencyType)
        ensures
            final(self)@ == (ServerModel {
                events: old(self)@.events.push(EventModel::Latency { mode }),
                ..old(self)@
            }),
    {
        self.log(Event::Latency { mode });
    }

    /// Forcibly disconnects the clients: the shutdown is announced to
    /// every handler active while it happened, with the status and reason
    /// given.
    pub fn force_shutdown(&mut self, status: ClientStatus, reason: &str)
        ensures
            final(self)@ == (ServerModel {
                events: old(self)@.events.push(
                    EventModel::Shutdown { status, reason: reason@ },
                ),
                ..old(self)@
            }),
    {
        self.log(Event::Shutdown { status, reason: reason.to_owned() });
    }

    /// Announces that the graph was reordered.
    pub fn reorder_graph(&mut self)
        ensures
            final(self)@ == (ServerModel {
                events: old(self)@.events.push(EventModel::GraphReorder),
                ..old(self)@
            }),
    {
        self.log(Event::GraphReorder);
    }

    /// Opens a named connection. The name must not be empty; the new
    /// connection is announced to every handler active while it happened.
    pub fn open_connection(&mut self, name: &str) -> (r: Result<ClientStatus, JackErr>)
        ensures
            name@.len() == 0 ==> r == Result::<ClientStatus, JackErr>::Err(JackErr::ClientError)
                && final(self)@ == old(self)@,
            name@.len() != 0 ==> r == Result::<ClientStatus, JackErr>::Ok(
                ClientStatus { bits: 0 },
            ) && final(self)@ == (ServerModel {
                client_names: old(self)@.client_names.push(name@),
                events: old(self)@.events.push(
                    EventModel::ClientRegistration { name: name@, registered: true },
                ),
                ..old(self)@
            }),
    {
        if name.is_empty() {
            Err(JackErr::ClientError)
        } else {
            let owned = name.to_owned();
            let ghost gname = owned@;
            self.client_names.push(owned);
            proof {
                assert(self.client_names.deep_view() =~= old(
                    self,
                ).client_names.deep_view().push(gname));
                assert(self.events.deep_view() =~= old(self).events.deep_view());
            }
            self.log(Event::ClientRegistration { name: name.to_owned(), registered: true });
            Ok(ClientStatus::empty())
        }
    }

    /// Closes a named connection: removes its first occurrence from the
    /// open list and announces the unregistration.
    pub fn close_connection(&mut self, name: &str)
        ensures
            final(self)@ == (ServerModel {
                client_names: remove_first(old(self)@.client_names, name@),
                events: old(self)@.events.push(
                    EventModel::ClientRegistration { name: name@, registered: false },
                ),
                ..old(self)@
            }),
    {
        let mut i: usize = 0;
        let ghost names0 = self.client_names.deep_view();
        while i < self.client_names.len()
            invariant
                i <= self.client_names.len(),
                *self == *old(self),
                names0 == self.client_names.deep_view(),
                forall|j: int| 0 <= j < i ==> names0[j] != name@,
            decreases self.client_names.len() - i,
        {
            if string_eq_str(&self.client_names[i], name) {
                self.client_names.remove(i);
                proof {
                    assert(self.client_names.deep_view() =~= remove_first(names0, name@)) by {
                        lemma_remove_first_at(names0, name@, i as int);
                        assert(self.client_names.deep_view() =~= names0.remove(i as int));
                    }
                    assert(self.events.deep_view() =~= old(self).events.deep_view());
                }
                self.log(Event::ClientRegistration { name: name.to_owned(), registered: false });
                return ;
            }
            i = i + 1;
        }
        proof {
            assert(self.client_names.deep_view() =~= remove_first(names0, name@)) by {
                lemma_remove_first_absent(names0, name@);
            }
        }
        self.log(Event::ClientRegistration { name: name.to_owned(), registered: false });
    }
}

/// Compares a stored string with a borrowed one.
fn string_eq_str(a: &String, b: &str) -> (r: bool)
    ensures
        r == (a@ == b@),
{
    let owned = b.to_owned();
    a.eq(&owned)
}

/// The sequence with the first occurrence of `x` removed, if any.
pub open spec fn remove_first(s: Seq<Seq<char>>, x: Seq<char>) -> Seq<Seq<char>>
    decreases s.len(),
{
    if s.len() == 0 {
        s
    } else if s[0] == x {
        s.drop_first()
    } else {
        seq![s[0]].add(remove_first(s.drop_first(), x))
    }
}

/// When index `i` holds the first occurrence of `x`, removing the first
/// occurrence is removing index `i`.
proof fn lemma_remove_first_at(s: Seq<Seq<char>>, x: Seq<char>, i: int)
    requires
        0 <= i < s.len(),
        s[i] == x,
        forall|j: int| 0 <= j < i ==> s[j] != x,
    ensures
        remove_first(s, x) == s.remove(i),
    decreases i,
{
    if i == 0 {
        assert(remove_first(s, x) =~= s.remove(0));
    } else {
        lemma_remove_first_at(s.drop_first(), x, i - 1);
        assert(s.drop_first().remove(i - 1) =~= s.remove(i).drop_first());
        assert(remove_first(s, x) =~= s.remove(i));
    }
}

/// Removing an absent element changes nothing.
proof fn lemma_remove_first_absent(s: Seq<Seq<char>>, x: Seq<char>)
    requires
        forall|j: int| 0 <= j < s.len() ==> s[j] != x,
    ensures
        remove_first(s, x) == s,
    decreases s.len(),
{
    if s.len() > 0 {
        lemma_remove_first_absent(s.drop_first(), x);
        assert(remove_first(s, x) =~= s);
    }
}

} // verus!
