use meril_cat::bus::{RecvError, SendError, SignalHub};

#[test]
fn fan_out_reaches_every_port_in_order() {
    let mut hub: SignalHub<u32> = SignalHub::new();
    let mut ports = vec![hub.get_port(), hub.get_port(), hub.get_port()];
    assert_eq!(hub.send(1), Ok(3));
    hub.send(2).unwrap();
    hub.send(3).unwrap();
    for port in ports.iter_mut() {
        assert_eq!(port.recv(&hub), Ok(&1));
        assert_eq!(port.recv(&hub), Ok(&2));
        assert_eq!(port.recv(&hub), Ok(&3));
        assert_eq!(port.recv(&hub), Err(RecvError::Empty));
    }
}

#[test]
fn port_made_after_publish_never_sees_it() {
    let mut hub: SignalHub<&str> = SignalHub::new();
    let _early = hub.get_port();
    hub.send("early").unwrap();
    let mut late = hub.get_port();
    assert_eq!(late.recv(&hub), Err(RecvError::Empty));
    hub.send("later").unwrap();
    assert_eq!(late.recv(&hub), Ok(&"later"));
    assert_eq!(late.recv(&hub), Err(RecvError::Empty));
}

#[test]
fn slow_port_is_told_it_lagged() {
    let mut hub: SignalHub<u8> = SignalHub::with_capacity(2);
    let mut port = hub.get_port();
    for m in 1..=5u8 {
        hub.send(m).unwrap();
    }
    assert_eq!(port.recv(&hub), Err(RecvError::Lagged(3)));
    assert_eq!(port.recv(&hub), Ok(&4));
    assert_eq!(port.recv(&hub), Ok(&5));
    assert_eq!(port.recv(&hub), Err(RecvError::Empty));
}

#[test]
fn closed_bus_drains_then_reports_closed() {
    let mut hub: SignalHub<u8> = SignalHub::new();
    let mut port = hub.get_port();
    hub.send(7).unwrap();
    hub.close();
    assert!(hub.is_closed());
    assert_eq!(hub.send(8), Err(SendError(8)));
    assert_eq!(port.send(&mut hub, 9), Err(SendError(9)));
    assert_eq!(port.recv(&hub), Ok(&7));
    assert_eq!(port.recv(&hub), Err(RecvError::Closed));
}

#[test]
fn ports_fan_in_to_the_owner_in_order() {
    let mut hub: SignalHub<u8> = SignalHub::new();
    let a = hub.get_port();
    let b = hub.get_port();
    a.send(&mut hub, 1).unwrap();
    b.send(&mut hub, 2).unwrap();
    a.send(&mut hub, 3).unwrap();
    assert_eq!(hub.inbox_len(), 3);
    assert_eq!(hub.recv(), Some(1));
    assert_eq!(hub.recv(), Some(2));
    assert_eq!(hub.recv(), Some(3));
    assert_eq!(hub.recv(), None);
}

#[test]
fn sequence_numbers_count_broadcasts() {
    let mut hub: SignalHub<u8> = SignalHub::with_capacity(1);
    let _first = hub.get_port();
    assert_eq!(hub.next_seq(), 0);
    hub.send(1).unwrap();
    hub.send(2).unwrap();
    assert_eq!(hub.next_seq(), 2);
    let mut port = hub.get_port();
    assert!(!port.has_pending(&hub));
    hub.send(3).unwrap();
    assert!(port.has_pending(&hub));
    assert_eq!(port.recv(&hub), Ok(&3));
}

#[test]
fn resubscribed_port_skips_the_backlog() {
    let mut hub: SignalHub<u8> = SignalHub::new();
    let mut first = hub.get_port();
    hub.send(1).unwrap();
    let mut second = first.resubscribe(&mut hub);
    assert_eq!(second.recv(&hub), Err(RecvError::Empty));
    hub.send(2).unwrap();
    assert_eq!(second.recv(&hub), Ok(&2));
    assert_eq!(first.recv(&hub), Ok(&1));
    assert_eq!(first.recv(&hub), Ok(&2));
    second.send(&mut hub, 5).unwrap();
    first.send(&mut hub, 6).unwrap();
    assert_eq!(hub.recv(), Some(5));
    assert_eq!(hub.recv(), Some(6));
}

#[test]
fn broadcast_without_ports_is_handed_back() {
    let mut hub: SignalHub<u8> = SignalHub::new();
    assert_eq!(hub.port_count(), 0);
    assert_eq!(hub.send(1), Err(SendError(1)));
    assert_eq!(hub.next_seq(), 0);
    let a = hub.get_port();
    let mut b = hub.get_port();
    assert_eq!(hub.port_count(), 2);
    assert_eq!(hub.send(2), Ok(2));
    a.unsubscribe(&mut hub);
    assert_eq!(hub.port_count(), 1);
    assert_eq!(hub.send(3), Ok(1));
    assert_eq!(b.recv(&hub), Ok(&2));
    assert_eq!(b.recv(&hub), Ok(&3));
    b.unsubscribe(&mut hub);
    assert_eq!(hub.send(4), Err(SendError(4)));
}
