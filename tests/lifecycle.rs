use rain::endpoint::NetworkEndpoint;
use rain::lifecycle::{StartAction, StartError, StartEvent, StartPhase, WorkerStart};
use rain::state::State;
use rain::WORKER_PROTOCOL_VERSION;

fn dir_of(a: StartAction) -> String {
    match a {
        StartAction::CreateDir(d) => d,
        _ => panic!("expected a directory to create"),
    }
}

#[test]
fn start_sequence_creates_ready_file_after_registration() {
    let mut state = State::new("/tmp/w1".to_string(), 2);
    let server = NetworkEndpoint::ipv4(10, 0, 0, 1, 7210);
    let listen = NetworkEndpoint::ipv4(0, 0, 0, 0, 0);
    let mut start = WorkerStart::new(server, listen, Some("/tmp/w1.ready".to_string()));

    assert_eq!(dir_of(start.first_action(&state)), "/tmp/w1/data");
    assert_eq!(dir_of(start.step(&mut state, StartEvent::DirCreated)), "/tmp/w1/tasks");
    assert_eq!(dir_of(start.step(&mut state, StartEvent::DirCreated)), "/tmp/w1/subworkers");
    assert_eq!(
        dir_of(start.step(&mut state, StartEvent::DirCreated)),
        "/tmp/w1/subworkers/logs"
    );
    match start.step(&mut state, StartEvent::DirCreated) {
        StartAction::BindSubworkerSocket(p) => assert_eq!(p, "/tmp/w1/subworkers/listen"),
        _ => panic!("expected the subworker socket"),
    }
    match start.step(&mut state, StartEvent::SubworkerSocketBound) {
        StartAction::BindListener(a) => assert_eq!(a.port(), 0),
        _ => panic!("expected the listener"),
    }
    match start.step(&mut state, StartEvent::ListenerBound(41234)) {
        StartAction::Dial(a) => assert_eq!(a.port(), 7210),
        _ => panic!("expected a dial"),
    }
    assert_eq!(start.listen_address.port(), 41234);
    match start.step(&mut state, StartEvent::Connected) {
        StartAction::SendRegistration(req) => {
            assert_eq!(req.version, WORKER_PROTOCOL_VERSION);
            assert_eq!(req.address.port, 41234);
        }
        _ => panic!("expected the registration"),
    }
    assert!(!state.is_registered());
    let id = NetworkEndpoint::ipv4(10, 0, 0, 2, 41234);
    match start.step(&mut state, StartEvent::Registered(id.duplicate())) {
        StartAction::CreateReadyFile(f) => assert_eq!(f, "/tmp/w1.ready"),
        _ => panic!("expected the ready file"),
    }
    assert!(state.is_registered());
    assert!(state.worker_id().same_as(&id));
    assert_eq!(start.phase, StartPhase::Running);
    assert!(matches!(start.step(&mut state, StartEvent::Connected), StartAction::Nothing));
}

#[test]
fn start_without_ready_file() {
    let mut state = State::new("w".to_string(), 1);
    let mut start = WorkerStart::new(
        NetworkEndpoint::ipv4(127, 0, 0, 1, 1),
        NetworkEndpoint::ipv4(127, 0, 0, 1, 2),
        None,
    );
    start.phase = StartPhase::Registering;
    let r = start.step(&mut state, StartEvent::Registered(NetworkEndpoint::ipv4(1, 2, 3, 4, 5)));
    assert!(matches!(r, StartAction::Nothing));
    assert!(state.is_registered());
}

#[test]
fn start_failures_are_fatal() {
    let mut state = State::new("w".to_string(), 1);
    let cases = vec![
        (StartPhase::CreatingDirs, StartEvent::DirFailed, StartError::WorkdirCreateFailed),
        (
            StartPhase::BindingSubworkerSocket,
            StartEvent::SubworkerSocketFailed,
            StartError::StaleSubworkerSocket,
        ),
        (StartPhase::BindingListener, StartEvent::ListenerFailed, StartError::ListenFailed),
        (StartPhase::Connecting, StartEvent::ConnectFailed, StartError::ServerDialFailed),
        (
            StartPhase::Registering,
            StartEvent::RegistrationRefused,
            StartError::RegistrationFailed,
        ),
    ];
    for (phase, event, expected) in cases {
        let mut start = WorkerStart::new(
            NetworkEndpoint::ipv4(127, 0, 0, 1, 1),
            NetworkEndpoint::ipv4(127, 0, 0, 1, 2),
            Some("r".to_string()),
        );
        start.phase = phase;
        match start.step(&mut state, event) {
            StartAction::Fatal(e) => assert_eq!(e, expected),
            _ => panic!("expected a fatal error"),
        }
        assert_eq!(start.phase, StartPhase::Failed);
    }
    assert!(!state.is_registered());
}

#[test]
fn empty_assigned_id_is_a_refusal() {
    let mut state = State::new("w".to_string(), 1);
    let mut start = WorkerStart::new(
        NetworkEndpoint::ipv4(127, 0, 0, 1, 1),
        NetworkEndpoint::ipv4(127, 0, 0, 1, 2),
        Some("r".to_string()),
    );
    start.phase = StartPhase::Registering;
    match start.step(&mut state, StartEvent::Registered(NetworkEndpoint::empty())) {
        StartAction::Fatal(e) => assert_eq!(e, StartError::RegistrationFailed),
        _ => panic!("expected a fatal error"),
    }
    assert_eq!(start.phase, StartPhase::Failed);
    assert!(!state.is_registered());
}
