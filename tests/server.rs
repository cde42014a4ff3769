use cookied::cli::{Cli, ResponseAlgorithm};
use cookied::server::{serve_step, ListenerAction, ListenerEvent};
use cookied::telemetry::{Protocol, RequestCounters};

fn config(alg: ResponseAlgorithm) -> Cli {
    Cli { alg, text: "Hello World".to_string() }
}

fn reply(action: ListenerAction) -> String {
    match action {
        ListenerAction::Reply(q) => q,
        other => panic!("expected a reply, got {:?}", other),
    }
}

#[test]
fn tcp_request_is_answered_then_counted() {
    let cli = config(ResponseAlgorithm::Text);
    let mut c = RequestCounters::new();
    let q = reply(serve_step(&cli, Protocol::Tcp, &mut c, ListenerEvent::Request("127.0.0.1:5000".to_string())));
    assert_eq!(q, "Hello World");
    assert_eq!(c.tcp(), 0);
    assert_eq!(serve_step(&cli, Protocol::Tcp, &mut c, ListenerEvent::Delivered), ListenerAction::Listen);
    assert_eq!(c.tcp(), 1);
    assert_eq!(c.udp(), 0);
}

#[test]
fn udp_datagram_gets_one_reply() {
    let cli = config(ResponseAlgorithm::Pattern);
    let mut c = RequestCounters::new();
    let q = reply(serve_step(&cli, Protocol::Udp, &mut c, ListenerEvent::Request("127.0.0.1:6000".to_string())));
    assert_eq!(q.as_bytes(), [0x55u8; 64].as_slice());
    assert_eq!(serve_step(&cli, Protocol::Udp, &mut c, ListenerEvent::Delivered), ListenerAction::Listen);
    assert_eq!(c.udp(), 1);
    assert_eq!(c.tcp(), 0);
}

#[test]
fn failures_follow_the_policy() {
    let cli = config(ResponseAlgorithm::Text);
    let mut c = RequestCounters::new();
    assert_eq!(serve_step(&cli, Protocol::Tcp, &mut c, ListenerEvent::WaitFailed), ListenerAction::Listen);
    assert_eq!(serve_step(&cli, Protocol::Udp, &mut c, ListenerEvent::WaitFailed), ListenerAction::Stop);
    assert_eq!(serve_step(&cli, Protocol::Tcp, &mut c, ListenerEvent::DeliveryFailed), ListenerAction::Listen);
    assert_eq!(serve_step(&cli, Protocol::Udp, &mut c, ListenerEvent::DeliveryFailed), ListenerAction::Listen);
    assert_eq!(c.tcp(), 0);
    assert_eq!(c.udp(), 0);
}

#[test]
fn many_clients_each_get_their_own_line() {
    let cli = config(ResponseAlgorithm::TimeAndPlace);
    let mut c = RequestCounters::new();
    for port in 40000..40050u32 {
        let peer = format!("10.0.0.9:{port}");
        let q = reply(serve_step(&cli, Protocol::Tcp, &mut c, ListenerEvent::Request(peer.clone())));
        assert!(q.starts_with(&format!("Hello, you are {peer} and it is now ")));
        assert!(q.ends_with(" in Hawaii\n"));
        serve_step(&cli, Protocol::Tcp, &mut c, ListenerEvent::Delivered);
    }
    assert_eq!(c.tcp(), 50);
}

#[test]
fn three_tcp_and_two_udp_requests_are_counted_apart() {
    let cli = config(ResponseAlgorithm::Pattern);
    let mut c = RequestCounters::new();
    for proto in [Protocol::Tcp, Protocol::Udp, Protocol::Tcp, Protocol::Udp, Protocol::Tcp] {
        reply(serve_step(&cli, proto, &mut c, ListenerEvent::Request("[::1]:1".to_string())));
        serve_step(&cli, proto, &mut c, ListenerEvent::Delivered);
    }
    assert_eq!(c.tcp(), 3);
    assert_eq!(c.udp(), 2);
}
