use rain::endpoint::NetworkEndpoint;
use rain::gate::{GateError, ServerBootstrapImpl, ServerState};
use rain::{CLIENT_PROTOCOL_VERSION, WORKER_PROTOCOL_VERSION};

fn peer() -> NetworkEndpoint {
    NetworkEndpoint::ipv4(10, 0, 0, 5, 40000)
}

#[test]
fn client_registers_once() {
    let mut gate = ServerBootstrapImpl::new(peer());
    assert!(!gate.is_registered());
    assert_eq!(gate.register_as_client(CLIENT_PROTOCOL_VERSION), Ok(()));
    assert!(gate.is_registered());
    assert_eq!(
        gate.register_as_client(CLIENT_PROTOCOL_VERSION),
        Err(GateError::AlreadyRegistered)
    );
}

#[test]
fn second_registration_as_other_role_is_refused() {
    let mut server = ServerState::new();
    let mut gate = ServerBootstrapImpl::new(peer());
    assert_eq!(gate.register_as_client(CLIENT_PROTOCOL_VERSION), Ok(()));
    let r = gate.register_as_worker(
        &mut server,
        WORKER_PROTOCOL_VERSION,
        NetworkEndpoint::ipv4(10, 0, 0, 5, 7000),
    );
    assert!(matches!(r, Err(GateError::AlreadyRegistered)));
    assert_eq!(server.n_workers(), 0);
}

#[test]
fn worker_version_mismatch_adds_no_worker() {
    let mut server = ServerState::new();
    let mut gate = ServerBootstrapImpl::new(peer());
    let r = gate.register_as_worker(
        &mut server,
        WORKER_PROTOCOL_VERSION - 1,
        NetworkEndpoint::ipv4(10, 0, 0, 5, 7000),
    );
    assert!(matches!(r, Err(GateError::VersionMismatch)));
    assert!(!gate.is_registered());
    assert_eq!(server.n_workers(), 0);
    assert_eq!(GateError::VersionMismatch.message(), "Protocol mismatch");
}

#[test]
fn client_version_mismatch_leaves_gate_open() {
    let mut gate = ServerBootstrapImpl::new(peer());
    assert_eq!(
        gate.register_as_client(CLIENT_PROTOCOL_VERSION + 1),
        Err(GateError::VersionMismatch)
    );
    assert!(!gate.is_registered());
    assert_eq!(gate.register_as_client(CLIENT_PROTOCOL_VERSION), Ok(()));
}

#[test]
fn worker_registration_records_listen_address() {
    let mut server = ServerState::new();
    let mut gate = ServerBootstrapImpl::new(peer());
    let listen = NetworkEndpoint::ipv4(10, 0, 0, 5, 7000);
    let id = gate
        .register_as_worker(&mut server, WORKER_PROTOCOL_VERSION, listen.duplicate())
        .unwrap();
    assert!(id.same_as(&listen));
    assert_eq!(server.n_workers(), 1);
    assert!(server.workers[0].same_as(&listen));
    assert!(gate.is_registered());
}

#[test]
fn worker_with_other_address_family_is_refused() {
    let mut server = ServerState::new();
    let mut gate = ServerBootstrapImpl::new(peer());
    let listen = NetworkEndpoint::from_bytes(vec![0u8; 16], 7000).unwrap();
    let r = gate.register_as_worker(&mut server, WORKER_PROTOCOL_VERSION, listen);
    assert!(matches!(r, Err(GateError::AddressFamilyMismatch)));
    assert!(!gate.is_registered());
    assert_eq!(server.n_workers(), 0);
}

#[test]
fn gate_messages() {
    assert_eq!(
        GateError::AlreadyRegistered.message(),
        "Connection already registered"
    );
    assert_eq!(
        GateError::AddressFamilyMismatch.message(),
        "Address family mismatch"
    );
}

#[test]
fn refusals_become_failed_rpc_errors() {
    let e = GateError::VersionMismatch.to_rpc_error();
    assert_eq!(e.kind, capnp::ErrorKind::Failed);
    assert_eq!(e.description, "Protocol mismatch");
    let e = GateError::AlreadyRegistered.to_rpc_error();
    assert_eq!(e.description, "Connection already registered");
}
