use jack::async_client::AsyncClient;
use jack::client::{Client, ProcessScope};
use jack::client_options;
use jack::client_status::ClientStatus;
use jack::control::JackControl;
use jack::counter::Counter;
use jack::handler::{NotificationHandler, ProcessHandler};
use jack::port::AudioInSpec;
use jack::server::Server;

fn test_server() -> Server {
    Server::new(44100, 1024)
}

fn open_test_client(server: &mut Server, name: &str) -> Client {
    Client::new(server, name, client_options::no_start_server())
        .unwrap()
        .0
}

fn active_test_client(server: &mut Server, name: &str) -> AsyncClient<Counter, Counter> {
    let c = open_test_client(server, name);
    AsyncClient::new(server, c, Counter::default(), Counter::default()).unwrap()
}

#[test]
fn client_cback_has_proper_default_callbacks() {
    // defaults shouldn't care about these params
    let wc = Client::detached();
    let ps = ProcessScope::new(0, 0);
    let mut h = ();

    // check each callbacks
    assert_eq!(h.thread_init(&wc), ());
    assert_eq!(h.shutdown(ClientStatus::empty(), "mock"), ());
    assert_eq!(h.process(&wc, &ps), JackControl::Continue);
    assert_eq!(h.freewheel(&wc, true), ());
    assert_eq!(h.freewheel(&wc, false), ());
    assert_eq!(h.buffer_size(&wc, 0), JackControl::Continue);
    assert_eq!(h.sample_rate(&wc, 0), JackControl::Continue);
    assert_eq!(h.client_registration(&wc, "mock", true), ());
    assert_eq!(h.client_registration(&wc, "mock", false), ());
    assert_eq!(h.port_registration(&wc, 0, true), ());
    assert_eq!(h.port_registration(&wc, 0, false), ());
    assert_eq!(
        h.port_rename(&wc, 0, "old_mock", "new_mock"),
        JackControl::Continue
    );
    assert_eq!(h.ports_connected(&wc, 0, 1, true), ());
    assert_eq!(h.ports_connected(&wc, 2, 3, false), ());
    assert_eq!(h.graph_reorder(&wc), JackControl::Continue);
    assert_eq!(h.xrun(&wc), JackControl::Continue);
    assert_eq!(h.latency(&wc, jack::control::LatencyType::Capture), ());
    assert_eq!(h.latency(&wc, jack::control::LatencyType::Playback), ());
}

#[test]
fn client_cback_calls_thread_init() {
    let mut server = test_server();
    let ac = active_test_client(&mut server, "client_cback_calls_thread_init");
    let counter = ac.deactivate(&mut server).unwrap().1;
    // a lower bound: thread-init carries no exactly-once guarantee
    assert!(counter.thread_init_count > 0);
}

#[test]
fn client_cback_calls_process() {
    let mut server = test_server();
    let ac = active_test_client(&mut server, "client_cback_calls_process");
    let counter = ac.deactivate(&mut server).unwrap().2;
    assert!(counter.frames_processed > 0);
}

#[test]
fn client_cback_calls_buffer_size() {
    let mut server = test_server();
    let ac = active_test_client(&mut server, "client_cback_calls_process");
    let initial = ac.buffer_size(&server);
    let second = initial / 2;
    let third = second / 2;
    ac.set_buffer_size(&mut server, second).unwrap();
    ac.set_buffer_size(&mut server, third).unwrap();
    ac.set_buffer_size(&mut server, initial).unwrap();
    let counter = ac.deactivate(&mut server).unwrap().1;
    let mut history_iter = counter.buffer_size_change_history.iter().cloned();
    assert_eq!(history_iter.find(|&s| s == initial), Some(initial));
    assert_eq!(history_iter.find(|&s| s == second), Some(second));
    assert_eq!(history_iter.find(|&s| s == third), Some(third));
    assert_eq!(history_iter.find(|&s| s == initial), Some(initial));
}

#[test]
fn client_cback_calls_after_client_registered() {
    let mut server = test_server();
    let ac = active_test_client(&mut server, "client_cback_cacr");
    let _other_client = open_test_client(&mut server, "client_cback_cacr_other");
    let counter = ac.deactivate(&mut server).unwrap().1;
    assert!(counter
        .registered_client_history
        .contains(&"client_cback_cacr_other".to_string()));
    assert!(!counter
        .unregistered_client_history
        .contains(&"client_cback_cacr_other".to_string()));
}

#[test]
fn client_cback_calls_after_client_unregistered() {
    let mut server = test_server();
    let ac = active_test_client(&mut server, "client_cback_cacu");
    let other_client = open_test_client(&mut server, "client_cback_cacu_other");
    other_client.close(&mut server);
    let counter = ac.deactivate(&mut server).unwrap().1;
    assert!(counter
        .registered_client_history
        .contains(&"client_cback_cacu_other".to_string()));
    assert!(counter
        .unregistered_client_history
        .contains(&"client_cback_cacu_other".to_string()));
}

#[test]
fn client_cback_reports_xruns() {
    let mut server = test_server();
    let c = open_test_client(&mut server, "client_cback_reports_xruns");
    let mut counter = Counter::default();
    counter.induce_xruns = true;
    let ac = AsyncClient::new(&mut server, c, Counter::default(), counter).unwrap();
    let counter = ac.deactivate(&mut server).unwrap().1;
    assert!(counter.xruns_count > 0, "No xruns encountered.");
}

#[test]
fn client_cback_calls_port_registered() {
    let mut server = test_server();
    let ac = active_test_client(&mut server, "client_cback_cpr");
    let _pa = ac
        .register_port(&mut server, "pa", AudioInSpec::default())
        .unwrap();
    let _pb = ac
        .register_port(&mut server, "pb", AudioInSpec::default())
        .unwrap();
    let counter = ac.deactivate(&mut server).unwrap().1;
    assert_eq!(
        counter.port_register_history.len(),
        2,
        "Did not detect port registrations."
    );
    assert!(
        counter.port_unregister_history.is_empty(),
        "Detected false port deregistrations."
    );
}

#[test]
fn client_cback_calls_port_unregistered() {
    let mut server = test_server();
    let ac = active_test_client(&mut server, "client_cback_cpr");
    let _pa = ac
        .register_port(&mut server, "pa", AudioInSpec::default())
        .unwrap();
    let _pb = ac
        .register_port(&mut server, "pb", AudioInSpec::default())
        .unwrap();
    _pa.unregister(&mut server).unwrap();
    _pb.unregister(&mut server).unwrap();
    let counter = ac.deactivate(&mut server).unwrap().1;
    assert!(
        counter.port_register_history.len() >= 2,
        "Did not detect port registrations."
    );
    assert!(
        counter.port_unregister_history.len() >= 2,
        "Did not detect port deregistrations."
    );
}
