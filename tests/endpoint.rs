use rain::endpoint::{NetworkEndpoint, WireEndpoint};

#[test]
fn wire_round_trip_ipv4() {
    let e = NetworkEndpoint::ipv4(192, 168, 1, 20, 9010);
    let w = e.to_wire();
    assert_eq!(w.address, vec![192u8, 168, 1, 20]);
    assert_eq!(w.port, 9010);
    let back = NetworkEndpoint::from_wire(&w).unwrap();
    assert!(back.same_as(&e));
}

#[test]
fn wire_round_trip_ipv6() {
    let bytes: Vec<u8> = (0u8..16).collect();
    let e = NetworkEndpoint::from_bytes(bytes.clone(), 1).unwrap();
    assert!(!e.is_ipv4());
    let back = NetworkEndpoint::from_wire(&e.to_wire()).unwrap();
    assert_eq!(back.address, bytes);
    assert_eq!(back.port(), 1);
}

#[test]
fn wire_with_bad_length_is_refused() {
    let w = WireEndpoint { address: vec![1, 2, 3], port: 80 };
    assert!(NetworkEndpoint::from_wire(&w).is_none());
    assert!(NetworkEndpoint::from_bytes(vec![], 80).is_none());
}

#[test]
fn empty_endpoint_and_set_port() {
    let e = NetworkEndpoint::empty();
    assert!(e.is_empty());
    let mut f = NetworkEndpoint::ipv4(127, 0, 0, 1, 0);
    assert!(!f.is_empty());
    f.set_port(4321);
    assert_eq!(f.port(), 4321);
    assert_eq!(f.address(), &vec![127u8, 0, 0, 1]);
    assert!(!f.same_as(&e));
}
