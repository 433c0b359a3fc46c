//! The worker's start sequence as a state machine: each step takes what the
//! last action led to and names the next action. Carrying the actions out
//! (creating directories, binding sockets, dialling the server, sending the
//! registration) is left to the caller.
use vstd::prelude::*;
use crate::endpoint::{NetworkEndpoint, WorkerId, encode_wire};
use crate::state::{RegisterAsWorker, State, work_dir_layout_spec};
use crate::paths::join_path;
use crate::WORKER_PROTOCOL_VERSION;

verus! {

/// Why the start sequence gave up; each of these ends the worker.
#[derive(Clone, Copy, Debug, PartialEq, Eq, Structural)]
pub enum StartError {
    WorkdirCreateFailed,
    StaleSubworkerSocket,
    ListenFailed,
    ServerDialFailed,
    RegistrationFailed,
}

#[derive(Clone, Copy, Debug, PartialEq, Eq, Structural)]
pub enum StartPhase {
    CreatingDirs,
    BindingSubworkerSocket,
    BindingListener,
    Connecting,
    Registering,
    Running,
    Failed,
}

/// What the last action led to.
pub enum StartEvent {
    DirCreated,
    DirFailed,
    SubworkerSocketBound,
    SubworkerSocketFailed,
    /// The worker-to-worker listener is bound, on this port.
    ListenerBound(u16),
    ListenerFailed,
    Connected,
    ConnectFailed,
    /// The server accepted the registration and assigned this id; the empty
    /// id counts as a refusal.
    Registered(WorkerId),
    RegistrationRefused,
}

/// What to do next.
pub enum StartAction {
    CreateDir(String),
    BindSubworkerSocket(String),
    BindListener(NetworkEndpoint),
    Dial(NetworkEndpoint),
    SendRegistration(RegisterAsWorker),
    CreateReadyFile(String),
    Fatal(StartError),
    Nothing,
}

pub struct WorkerStart {
    pub phase: StartPhase,
    /// How many directories of the layout exist so far.
    pub dirs_created: usize,
    pub server_address: NetworkEndpoint,
    /// The address to listen on; its port is the bound one once known.
    pub listen_address: NetworkEndpoint,
    pub ready_file: Option<String>,
}

/// The phase after `event` in phase `p`, where `dirs` directories were
/// already created.
pub open spec fn next_phase(p: StartPhase, dirs: nat, event: StartEvent) -> StartPhase {
    match (p, event) {
        (StartPhase::CreatingDirs, StartEvent::DirCreated) => if dirs + 1 < 4 {
            StartPhase::CreatingDirs
        } else {
            StartPhase::BindingSubworkerSocket
        },
        (StartPhase::CreatingDirs, StartEvent::DirFailed) => StartPhase::Failed,
        (StartPhase::BindingSubworkerSocket, StartEvent::SubworkerSocketBound) => StartPhase::BindingListener,
        (StartPhase::BindingSubworkerSocket, StartEvent::SubworkerSocketFailed) => StartPhase::Failed,
        (StartPhase::BindingListener, StartEvent::ListenerBound(_)) => StartPhase::Connecting,
        (StartPhase::BindingListener, StartEvent::ListenerFailed) => StartPhase::Failed,
        (StartPhase::Connecting, StartEvent::Connected) => StartPhase::Registering,
        (StartPhase::Connecting, StartEvent::ConnectFailed) => StartPhase::Failed,
        (StartPhase::Registering, StartEvent::Registered(w)) => if w.is_empty_spec() {
            StartPhase::Failed
        } else {
            StartPhase::Running
        },
        (StartPhase::Registering, StartEvent::RegistrationRefused) => StartPhase::Failed,
        _ => p,
    }
}

/// The error that ends the sequence on `event` in phase `p`, if it does.
pub open spec fn failure_of(p: StartPhase, event: StartEvent) -> Option<StartError> {
    match (p, event) {
        (StartPhase::CreatingDirs, StartEvent::DirFailed) => Some(StartError::WorkdirCreateFailed),
        (StartPhase::BindingSubworkerSocket, StartEvent::SubworkerSocketFailed) => Some(
            StartError::StaleSubworkerSocket,
        ),
        (StartPhase::BindingListener, StartEvent::ListenerFailed) => Some(StartError::ListenFailed),
        (StartPhase::Connecting, StartEvent::ConnectFailed) => Some(StartError::ServerDialFailed),
        (StartPhase::Registering, StartEvent::RegistrationRefused) => Some(
            StartError::RegistrationFailed,
        ),
        (StartPhase::Registering, StartEvent::Registered(w)) => if w.is_empty_spec() {
            Some(StartError::RegistrationFailed)
        } else {
            None
        },
        _ => None,
    }
}

impl WorkerStart {
    pub open spec fn wf(&self) -> bool {
        &&& self.dirs_created <= 4
        &&& (self.phase == StartPhase::CreatingDirs ==> self.dirs_created < 4)
    }

    /// A start sequence that has done nothing yet.
    pub fn new(
        server_address: NetworkEndpoint,
        listen_address: NetworkEndpoint,
        ready_file: Option<String>,
    ) -> (r: WorkerStart)
        ensures
            r.wf(),
            r.phase == StartPhase::CreatingDirs,
            r.dirs_created == 0,
            r.server_address@ == server_address@,
            r.listen_address@ == listen_address@,
            r.ready_file == ready_file,
    {
        WorkerStart {
            phase: StartPhase::CreatingDirs,
            dirs_created: 0,
            server_address,
            listen_address,
            ready_file,
        }
    }

    /// The first action: create the first directory of the layout.
    pub fn first_action(&self, state: &State) -> (r: StartAction)
        ensures
            r matches StartAction::CreateDir(d) && d@ == join_path(
                state.work_dir@,
                work_dir_layout_spec()[0],
            ),
    {
        let layout = state.work_dir_layout();
        StartAction::CreateDir(state.path_in_work_dir(layout[0].as_str()))
    }

    /// Takes the outcome of the last action and names the next one.
    pub fn step(&mut self, state: &mut State, event: StartEvent) -> (r: StartAction)
        requires
            old(self).wf(),
            old(state).wf(),
        ensures
            final(self).wf(),
            final(state).wf(),
            final(self).phase == next_phase(old(self).phase, old(self).dirs_created as nat, event),
            failure_of(old(self).phase, event) matches Some(e) ==> r matches StartAction::Fatal(
                f,
            ) && f == e,
            final(self).phase == old(self).phase ==> r is Nothing || r is CreateDir,
            r is CreateDir ==> final(self).phase == StartPhase::CreatingDirs,
            r matches StartAction::CreateDir(d) ==> d@ == join_path(
                old(state).work_dir@,
                work_dir_layout_spec()[final(self).dirs_created as int],
            ),
            r matches StartAction::BindSubworkerSocket(p) ==> p@ == join_path(
                old(state).work_dir@,
                "subworkers/listen"@,
            ) && old(self).dirs_created + 1 == 4,
            r matches StartAction::BindListener(a) ==> a@ == old(self).listen_address@,
            r matches StartAction::Dial(a) ==> a@ == old(self).server_address@,
            old(self).phase == StartPhase::BindingListener ==> (event matches StartEvent::ListenerBound(
                port,
            ) ==> final(self).listen_address@ == (old(self).listen_address@.0, port)),
            r matches StartAction::SendRegistration(req) ==> req.version == WORKER_PROTOCOL_VERSION
                && req.address@ == encode_wire(old(self).listen_address@),
            old(self).phase == StartPhase::CreatingDirs && event is DirCreated ==> (
            final(self).dirs_created == old(self).dirs_created + 1 && (final(self).dirs_created < 4
                ==> r is CreateDir) && (final(self).dirs_created == 4 ==> r is BindSubworkerSocket)),
            old(self).phase == StartPhase::BindingSubworkerSocket && event is SubworkerSocketBound
                ==> r is BindListener,
            old(self).phase == StartPhase::BindingListener && event is ListenerBound ==> r is Dial,
            old(self).phase == StartPhase::Connecting && event is Connected ==> r is SendRegistration,
            r matches StartAction::CreateReadyFile(f) ==> (old(self).ready_file == Some(f)
                && final(state).registered_spec() && (event matches StartEvent::Registered(w)
                && final(state).worker_id@ == w@)),
            old(self).phase == StartPhase::Registering ==> (event matches StartEvent::Registered(w)
                ==> (!w.is_empty_spec() ==> final(state).registered_spec() && final(state).worker_id@
                == w@ && (r is CreateReadyFile <==> old(self).ready_file is Some))),
            !(old(self).phase == StartPhase::Registering && event is Registered && final(self).phase
                == StartPhase::Running) ==> *final(state) == *old(state),
            final(state).graph == old(state).graph,
            final(state).work_dir == old(state).work_dir,
            final(self).server_address == old(self).server_address,
    {
        match (self.phase, event) {
            (StartPhase::CreatingDirs, StartEvent::DirCreated) => {
                self.dirs_created = self.dirs_created + 1;
                if self.dirs_created < 4 {
                    let layout = state.work_dir_layout();
                    StartAction::CreateDir(
                        state.path_in_work_dir(layout[self.dirs_created].as_str()),
                    )
                } else {
                    self.phase = StartPhase::BindingSubworkerSocket;
                    StartAction::BindSubworkerSocket(state.subworker_listen_path())
                }
            },
            (StartPhase::CreatingDirs, StartEvent::DirFailed) => {
                self.phase = StartPhase::Failed;
                StartAction::Fatal(StartError::WorkdirCreateFailed)
            },
            (StartPhase::BindingSubworkerSocket, StartEvent::SubworkerSocketBound) => {
                self.phase = StartPhase::BindingListener;
                StartAction::BindListener(self.listen_address.duplicate())
            },
            (StartPhase::BindingSubworkerSocket, StartEvent::SubworkerSocketFailed) => {
                self.phase = StartPhase::Failed;
                StartAction::Fatal(StartError::StaleSubworkerSocket)
            },
            (StartPhase::BindingListener, StartEvent::ListenerBound(port)) => {
                self.listen_address.set_port(port);
                self.phase = StartPhase::Connecting;
                StartAction::Dial(self.server_address.duplicate())
            },
            (StartPhase::BindingListener, StartEvent::ListenerFailed) => {
                self.phase = StartPhase::Failed;
                StartAction::Fatal(StartError::ListenFailed)
            },
            (StartPhase::Connecting, StartEvent::Connected) => {
                self.phase = StartPhase::Registering;
                StartAction::SendRegistration(state.registration_request(&self.listen_address))
            },
            (StartPhase::Connecting, StartEvent::ConnectFailed) => {
                self.phase = StartPhase::Failed;
                StartAction::Fatal(StartError::ServerDialFailed)
            },
            (StartPhase::Registering, StartEvent::Registered(worker_id)) => {
                if worker_id.is_empty() {
                    self.phase = StartPhase::Failed;
                    return StartAction::Fatal(StartError::RegistrationFailed);
                }
                self.phase = StartPhase::Running;
                let ready_file = self.ready_file.take();
                match state.on_registered(worker_id, ready_file) {
                    Some(f) => StartAction::CreateReadyFile(f),
                    None => StartAction::Nothing,
                }
            },
            (StartPhase::Registering, StartEvent::RegistrationRefused) => {
                self.phase = StartPhase::Failed;
                StartAction::Fatal(StartError::RegistrationFailed)
            },
            _ => StartAction::Nothing,
        }
    }
}

} // verus!
