use cookied::telemetry::{
    init, record_request, record_tcp_request, record_udp_request, Exporter, Protocol,
    RequestCounters, TelemetryError,
};

#[test]
fn counters_are_kept_per_protocol() {
    let mut c = RequestCounters::new();
    for _ in 0..3 {
        record_tcp_request(&mut c);
    }
    for _ in 0..2 {
        record_udp_request(&mut c);
    }
    assert_eq!(c.tcp(), 3);
    assert_eq!(c.udp(), 2);
    record_request(&mut c, Protocol::Udp);
    assert_eq!(c.count(Protocol::Tcp), 3);
    assert_eq!(c.count(Protocol::Udp), 3);
}

#[test]
fn init_selects_exporter() {
    assert_eq!(init(None).unwrap().exporter, Exporter::Otlp);
    assert_eq!(init(Some("otlp")).unwrap().exporter, Exporter::Otlp);
    assert_eq!(init(Some("console")).unwrap().exporter, Exporter::Console);
    assert_eq!(init(Some("none")).unwrap().exporter, Exporter::Disabled);
    let t = init(Some("none")).unwrap();
    assert_eq!(t.counters.tcp(), 0);
    assert_eq!(t.counters.udp(), 0);
}

#[test]
fn init_refuses_unknown_exporter() {
    assert_eq!(
        init(Some("prometheus")),
        Err(TelemetryError::UnsupportedExporter("prometheus".to_string()))
    );
    assert!(init(Some("OTLP")).is_err());
    assert!(init(Some("")).is_err());
}
