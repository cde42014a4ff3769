use cookied::acquire::{AcquireStep, Acquisition, InheritedSocket, SocketKind};

#[test]
fn no_inherited_descriptors_gives_no_listeners() {
    let a = Acquisition::inherited(0);
    assert_eq!(a.next_step(), AcquireStep::Done);
    assert!(a.is_done());
    assert!(a.into_listeners().is_empty());
}

#[test]
fn descriptors_are_probed_tcp_first_then_udp() {
    // descriptor 0 is a TCP listener, 1 is neither, 2 is a UDP socket
    let mut a = Acquisition::inherited(3);
    let mut probes = Vec::new();
    loop {
        match a.next_step() {
            AcquireStep::Done => break,
            AcquireStep::Probe { index, kind } => {
                probes.push((index, kind));
                let taken = matches!((index, kind), (0, SocketKind::Tcp) | (2, SocketKind::Udp));
                a.record_probe(taken);
            }
        }
    }
    assert_eq!(
        probes,
        vec![
            (0, SocketKind::Tcp),
            (1, SocketKind::Tcp),
            (1, SocketKind::Udp),
            (2, SocketKind::Tcp),
            (2, SocketKind::Udp),
        ]
    );
    assert_eq!(
        a.into_listeners(),
        vec![
            InheritedSocket { index: 0, kind: SocketKind::Tcp },
            InheritedSocket { index: 2, kind: SocketKind::Udp },
        ]
    );
}

#[test]
fn unusable_descriptors_are_skipped() {
    let mut a = Acquisition::inherited(2);
    while let AcquireStep::Probe { .. } = a.next_step() {
        a.record_probe(false);
    }
    assert!(a.into_listeners().is_empty());
}
