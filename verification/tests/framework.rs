use jack::async_client::AsyncClient;
use jack::client::Client;
use jack::client_options::{self, ClientOptions};
use jack::client_status::ClientStatus;
use jack::control::{JackControl, JackErr};
use jack::counter::Counter;
use jack::port::AudioInSpec;
use jack::server::Server;

fn test_server() -> Server {
    Server::new(48000, 256)
}

fn open(server: &mut Server, name: &str) -> Client {
    Client::new(server, name, client_options::no_start_server())
        .unwrap()
        .0
}

#[test]
fn open_empty_name_is_client_error() {
    let mut server = test_server();
    let r = Client::new(&mut server, "", client_options::no_start_server());
    assert_eq!(r.unwrap_err(), JackErr::ClientError);
}

#[test]
fn open_reports_empty_status() {
    let mut server = test_server();
    let (c, status) = Client::new(&mut server, "status_probe", ClientOptions::default()).unwrap();
    assert!(status.is_empty());
    assert_eq!(status, ClientStatus::empty());
    assert_eq!(c.name, "status_probe");
}

#[test]
fn refused_activation_returns_everything_unchanged() {
    let mut server = test_server();
    let c = open(&mut server, "atomic_activation");
    let events_before = server.events.len();
    let callbacks_before = server.registered_callbacks;
    server.refuse_next_activation();
    let (err, c, n, p) = AsyncClient::new(&mut server, c, Counter::default(), Counter::default())
        .err()
        .unwrap();
    assert_eq!(err, JackErr::ActivationError);
    assert_eq!(c.name, "atomic_activation");
    assert_eq!(n.thread_init_count, 0);
    assert_eq!(p.frames_processed, 0);
    // all-or-nothing: the server kept no registration from the failed attempt
    assert_eq!(server.events.len(), events_before);
    assert_eq!(server.registered_callbacks, callbacks_before);
    // the handed-back pieces activate cleanly afterwards
    let ac = AsyncClient::new(&mut server, c, n, p).unwrap();
    assert!(ac.deactivate(&mut server).is_ok());
}

#[test]
fn zero_buffer_size_is_rejected() {
    let mut server = test_server();
    let c = open(&mut server, "zero_buffer");
    let ac = AsyncClient::new(&mut server, c, Counter::default(), Counter::default()).unwrap();
    assert_eq!(
        ac.set_buffer_size(&mut server, 0).unwrap_err(),
        JackErr::BufferSizeError
    );
    let counter = ac.deactivate(&mut server).unwrap().1;
    // the rejected request never reaches the history; the activation-time
    // announcement is its only entry
    assert_eq!(counter.buffer_size_change_history, vec![256]);
}

#[test]
fn empty_port_name_is_rejected() {
    let mut server = test_server();
    let c = open(&mut server, "empty_port_name");
    let ac = AsyncClient::new(&mut server, c, Counter::default(), Counter::default()).unwrap();
    assert_eq!(
        ac.register_port(&mut server, "", AudioInSpec::default())
            .unwrap_err(),
        JackErr::PortRegistrationError
    );
    let counter = ac.deactivate(&mut server).unwrap().1;
    assert!(counter.port_register_history.is_empty());
}

#[test]
fn port_ids_count_up() {
    let mut server = test_server();
    let c = open(&mut server, "port_ids");
    let ac = AsyncClient::new(&mut server, c, Counter::default(), Counter::default()).unwrap();
    let pa = ac
        .register_port(&mut server, "in_a", AudioInSpec::default())
        .unwrap();
    let pb = ac
        .register_port(&mut server, "in_b", AudioInSpec::default())
        .unwrap();
    assert_eq!(pa.id, 0);
    assert_eq!(pb.id, 1);
    let counter = ac.deactivate(&mut server).unwrap().1;
    assert_eq!(counter.port_register_history, vec![0, 1]);
}

#[test]
fn deactivate_returns_original_handle_and_handlers() {
    let mut server = test_server();
    let c = open(&mut server, "ownership_roundtrip");
    let mut staller = Counter::default();
    staller.induce_xruns = true;
    let ac = AsyncClient::new(&mut server, c, Counter::default(), staller).unwrap();
    let (c, n, p) = ac.deactivate(&mut server).unwrap();
    // the handle comes back even though the handlers accumulated state
    assert_eq!(c.name, "ownership_roundtrip");
    assert!(n.xruns_count > 0);
    assert!(p.induce_xruns);
    assert!(p.frames_processed > 0);
    // and the returned pieces support a fresh activation
    let ac = AsyncClient::new(&mut server, c, n, p).unwrap();
    let (c, _, _) = ac.deactivate(&mut server).unwrap();
    assert_eq!(c.name, "ownership_roundtrip");
}

#[test]
fn default_handlers_are_neutral_scenario() {
    let mut server = test_server();
    let c = open(&mut server, "neutral_defaults");
    let ac = AsyncClient::new(&mut server, c, (), ()).unwrap();
    ac.set_buffer_size(&mut server, 128).unwrap();
    let other = open(&mut server, "neutral_peer");
    other.close(&mut server);
    let (c, n, p) = ac.deactivate(&mut server).unwrap();
    assert_eq!(c.name, "neutral_defaults");
    assert_eq!(n, ());
    assert_eq!(p, ());
    // the session left the server exactly as the operations alone would
    assert_eq!(server.buffer_size, 128);
    assert_eq!(server.registered_callbacks, 0);
}

#[test]
fn frames_processed_matches_requested_total() {
    let mut server = test_server();
    let c = open(&mut server, "frame_accounting");
    let ac = AsyncClient::new(&mut server, c, Counter::default(), Counter::default()).unwrap();
    ac.set_buffer_size(&mut server, 64).unwrap();
    ac.set_buffer_size(&mut server, 32).unwrap();
    let counter = ac.deactivate(&mut server).unwrap().2;
    // one cycle per event at the then-current size, one final cycle:
    // 256 + 64 + 32
    assert_eq!(counter.frames_processed, 352);
}

#[test]
fn thread_init_once_per_plain_session() {
    let mut server = test_server();
    let c = open(&mut server, "thread_init_exact");
    let ac = AsyncClient::new(&mut server, c, Counter::default(), Counter::default()).unwrap();
    let counter = ac.deactivate(&mut server).unwrap().1;
    assert_eq!(counter.thread_init_count, 1);
    assert_eq!(counter.xruns_count, 0);
}

#[test]
fn buffer_size_history_keeps_relative_order() {
    let mut server = test_server();
    let c = open(&mut server, "size_order");
    let ac = AsyncClient::new(&mut server, c, Counter::default(), Counter::default()).unwrap();
    ac.set_buffer_size(&mut server, 512).unwrap();
    ac.set_buffer_size(&mut server, 1024).unwrap();
    ac.set_buffer_size(&mut server, 512).unwrap();
    let counter = ac.deactivate(&mut server).unwrap().1;
    assert_eq!(counter.buffer_size_change_history, vec![256, 512, 1024, 512]);
}

#[test]
fn every_event_kind_reaches_the_handler() {
    let mut server = test_server();
    let c = open(&mut server, "full_trampoline");
    let ac = AsyncClient::new(&mut server, c, Counter::default(), Counter::default()).unwrap();
    server.set_freewheel(true);
    server.set_freewheel(false);
    ac.set_buffer_size(&mut server, 128).unwrap();
    server.announce_sample_rate(96000);
    let peer = open(&mut server, "full_trampoline_peer");
    let port = ac
        .register_port(&mut server, "in_a", AudioInSpec::default())
        .unwrap();
    let pid = port.id;
    server.rename_port(pid, "in_a", "in_a_renamed");
    server.connect_ports(pid, 7, true);
    server.connect_ports(pid, 7, false);
    server.reorder_graph();
    server.announce_latency(jack::control::LatencyType::Capture);
    peer.close(&mut server);
    port.unregister(&mut server).unwrap();
    server.force_shutdown(ClientStatus::empty(), "full_trampoline done");
    let counter = ac.deactivate(&mut server).unwrap().1;
    // the kinds the counter records
    assert_eq!(counter.buffer_size_change_history, vec![256, 128]);
    assert_eq!(counter.registered_client_history, vec!["full_trampoline_peer"]);
    assert_eq!(
        counter.unregistered_client_history,
        vec!["full_trampoline_peer"]
    );
    assert_eq!(counter.port_register_history, vec![pid]);
    assert_eq!(counter.port_unregister_history, vec![pid]);
    // the kinds it leaves to their no-op defaults changed nothing
    assert_eq!(counter.thread_init_count, 1);
    assert_eq!(counter.xruns_count, 0);
}

#[test]
fn verdicts_default_to_continue() {
    assert_eq!(JackControl::default(), JackControl::Continue);
}

#[test]
fn detached_client_is_inert() {
    let wc = Client::detached();
    assert_eq!(wc.name, "");
    assert!(wc.options.no_start_server);
}
