use rain::endpoint::NetworkEndpoint;
use rain::graph::{
    DataObjectState, DataObjectType, GraphError, KeepPolicy, Subworker, TaskInput, TaskStatus,
};
use rain::paths::{decimal_string, join};
use rain::state::State;
use rain::WORKER_PROTOCOL_VERSION;

fn object(s: &mut State, id: u64, state: DataObjectState) {
    let r = s.add_dataobject(
        id,
        state,
        DataObjectType::Blob,
        KeepPolicy::Never,
        None,
        format!("obj{}", id),
    );
    assert_eq!(r, Ok(id));
}

fn input(id: u64) -> TaskInput {
    TaskInput { object: id, label: String::new() }
}

fn status_of(s: &State, id: u64) -> TaskStatus {
    s.graph.tasks.iter().find(|t| t.id == id).unwrap().status
}

#[test]
fn task_waits_until_last_input_finishes() {
    let mut s = State::new("/tmp/w1".to_string(), 4);
    object(&mut s, 1, DataObjectState::Finished);
    object(&mut s, 2, DataObjectState::Unfinished);
    assert_eq!(s.add_task(10, vec![input(1), input(2)], "run".to_string(), vec![]), Ok(10));
    assert_eq!(status_of(&s, 10), TaskStatus::Waiting);
    assert!(!s.take_scheduling_request());
    let ready = s.finish_dataobject(2).unwrap();
    assert_eq!(ready, vec![10]);
    assert_eq!(status_of(&s, 10), TaskStatus::Ready);
    assert!(s.take_scheduling_request());
}

#[test]
fn task_with_finished_inputs_is_ready_at_once() {
    let mut s = State::new("/tmp/w1".to_string(), 1);
    object(&mut s, 1, DataObjectState::Finished);
    assert_eq!(s.add_task(5, vec![input(1)], "run".to_string(), vec![1, 2]), Ok(5));
    assert_eq!(status_of(&s, 5), TaskStatus::Ready);
    assert!(s.take_scheduling_request());
    assert!(!s.take_scheduling_request());
}

#[test]
fn task_without_inputs_is_ready() {
    let mut s = State::new("w".to_string(), 1);
    assert_eq!(s.add_task(1, vec![], "noop".to_string(), vec![]), Ok(1));
    assert_eq!(status_of(&s, 1), TaskStatus::Ready);
}

#[test]
fn task_errors() {
    let mut s = State::new("w".to_string(), 1);
    object(&mut s, 1, DataObjectState::Unfinished);
    assert_eq!(
        s.add_task(3, vec![input(1), input(9)], "k".to_string(), vec![]),
        Err(GraphError::UnknownObject)
    );
    assert_eq!(s.graph.tasks.len(), 0);
    assert_eq!(s.add_task(3, vec![input(1)], "k".to_string(), vec![]), Ok(3));
    assert_eq!(
        s.add_task(3, vec![], "k".to_string(), vec![]),
        Err(GraphError::DuplicateId)
    );
    assert_eq!(s.graph.tasks.len(), 1);
}

#[test]
fn shared_input_wakes_tasks_in_order() {
    let mut s = State::new("w".to_string(), 1);
    object(&mut s, 1, DataObjectState::Unfinished);
    object(&mut s, 2, DataObjectState::Unfinished);
    s.add_task(20, vec![input(1)], "a".to_string(), vec![]).unwrap();
    s.add_task(21, vec![input(1), input(2)], "b".to_string(), vec![]).unwrap();
    s.add_task(22, vec![input(1), input(1)], "c".to_string(), vec![]).unwrap();
    assert_eq!(s.finish_dataobject(1).unwrap(), vec![20, 22]);
    assert_eq!(status_of(&s, 21), TaskStatus::Waiting);
    assert_eq!(s.finish_dataobject(1).unwrap(), Vec::<u64>::new());
    assert_eq!(s.finish_dataobject(2).unwrap(), vec![21]);
    assert_eq!(s.finish_dataobject(7), Err(GraphError::UnknownObject));
}

#[test]
fn removed_object_cannot_finish() {
    let mut s = State::new("w".to_string(), 1);
    object(&mut s, 4, DataObjectState::Removed);
    assert_eq!(s.finish_dataobject(4), Err(GraphError::ObjectRemoved));
}

#[test]
fn dataobject_lookup_and_duplicate() {
    let mut s = State::new("w".to_string(), 1);
    let r = s.add_dataobject(
        3,
        DataObjectState::Unfinished,
        DataObjectType::Stream,
        KeepPolicy::Always,
        Some(100),
        "first".to_string(),
    );
    assert_eq!(r, Ok(3));
    let o = s.get_dataobject(3).unwrap();
    assert_eq!(o.id, 3);
    assert_eq!(o.label, "first");
    let r2 = s.add_dataobject(
        3,
        DataObjectState::Finished,
        DataObjectType::Blob,
        KeepPolicy::Never,
        None,
        "second".to_string(),
    );
    assert_eq!(r2, Err(GraphError::DuplicateId));
    let o = s.get_dataobject(3).unwrap();
    assert_eq!(o.label, "first");
    assert_eq!(o.size, Some(100));
    assert_eq!(o.state, DataObjectState::Unfinished);
    assert!(s.get_dataobject(4).is_none());
}

#[test]
fn subworker_ids_strictly_increase() {
    let mut s = State::new("w".to_string(), 1);
    let a = s.make_subworker_id();
    let b = s.make_subworker_id();
    let c = s.make_subworker_id();
    assert!(a < b && b < c);
    assert_eq!(s.next_subworker_id(), c + 1);
}

#[test]
fn subworker_registration_refuses_duplicate() {
    let mut s = State::new("w".to_string(), 1);
    assert_eq!(s.add_subworker(Subworker { id: 7 }), Ok(()));
    assert_eq!(s.add_subworker(Subworker { id: 8 }), Ok(()));
    let ids: Vec<u64> = s.graph.subworkers.iter().map(|w| w.id).collect();
    assert_eq!(ids, vec![7, 8]);
    assert_eq!(s.add_subworker(Subworker { id: 7 }), Err(GraphError::DuplicateId));
    assert_eq!(s.graph.subworkers.len(), 2);
}

#[test]
fn set_task_as_ready_needs_empty_wait_set() {
    let mut s = State::new("w".to_string(), 1);
    object(&mut s, 1, DataObjectState::Unfinished);
    s.add_task(2, vec![input(1)], "k".to_string(), vec![]).unwrap();
    assert!(!s.set_task_as_ready(2));
    assert!(!s.set_task_as_ready(99));
    assert_eq!(status_of(&s, 2), TaskStatus::Waiting);
    s.add_task(3, vec![], "k".to_string(), vec![]).unwrap();
    s.take_scheduling_request();
    assert!(s.set_task_as_ready(3));
    assert!(s.take_scheduling_request());
}

#[test]
fn work_dir_paths() {
    let s = State::new("/tmp/w1".to_string(), 2);
    assert_eq!(s.subworker_listen_path(), "/tmp/w1/subworkers/listen");
    let (out, err) = s.subworker_log_paths(42);
    assert_eq!(out, "/tmp/w1/subworkers/logs/subworker-42.out");
    assert_eq!(err, "/tmp/w1/subworkers/logs/subworker-42.err");
    assert_eq!(
        s.work_dir_layout(),
        vec!["data", "tasks", "subworkers", "subworkers/logs"]
    );
    assert_eq!(s.path_in_work_dir("/abs"), "/abs");
    assert_eq!(s.get_resources().n_cpus, 2);
    let t = State::new("/tmp/w2/".to_string(), 2);
    assert_eq!(t.path_in_work_dir("data"), "/tmp/w2/data");
}

#[test]
fn decimal_and_join() {
    assert_eq!(decimal_string(0), "0");
    assert_eq!(decimal_string(1907), "1907");
    assert_eq!(decimal_string(u64::MAX), u64::MAX.to_string());
    assert_eq!(join("", "x"), "x");
    assert_eq!(join("a", "b/c"), "a/b/c");
}

#[test]
fn registration_commits_before_ready_file() {
    let mut s = State::new("/tmp/w1".to_string(), 1);
    assert!(!s.is_registered());
    let listen = NetworkEndpoint::ipv4(10, 0, 0, 2, 7000);
    let req = s.registration_request(&listen);
    assert_eq!(req.version, WORKER_PROTOCOL_VERSION);
    assert_eq!(req.address.address, vec![10u8, 0, 0, 2]);
    assert_eq!(req.address.port, 7000);
    let ready = s.on_registered(listen.duplicate(), Some("/tmp/w1.ready".to_string()));
    assert_eq!(ready, Some("/tmp/w1.ready".to_string()));
    assert!(s.is_registered());
    assert!(s.worker_id().same_as(&listen));
    assert_eq!(s.on_registered(listen, None), None);
    s.turn();
}

#[test]
fn repeated_input_waits_once() {
    let mut s = State::new("w".to_string(), 1);
    object(&mut s, 1, DataObjectState::Unfinished);
    s.add_task(30, vec![input(1), input(1)], "k".to_string(), vec![]).unwrap();
    let t = s.graph.tasks.iter().find(|t| t.id == 30).unwrap();
    assert_eq!(t.wait_set, vec![1]);
    assert_eq!(t.inputs.len(), 2);
}
