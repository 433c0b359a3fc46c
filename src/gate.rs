//! The server's bootstrap gate: the one capability offered on a fresh
//! connection, which admits a single registration as client or as worker.
use vstd::prelude::*;
use crate::endpoint::{NetworkEndpoint, WorkerId};
use crate::{CLIENT_PROTOCOL_VERSION, WORKER_PROTOCOL_VERSION};

verus! {

/// Why a registration was refused.
#[derive(Clone, Copy, Debug, PartialEq, Eq, Structural)]
pub enum GateError {
    /// The connection has already registered once.
    AlreadyRegistered,
    /// The peer presented another protocol version than the server's.
    VersionMismatch,
    /// The advertised listen address is of another family than the
    /// connection's peer address.
    AddressFamilyMismatch,
}

pub open spec fn gate_message(e: GateError) -> Seq<char> {
    match e {
        GateError::AlreadyRegistered => "Connection already registered"@,
        GateError::VersionMismatch => "Protocol mismatch"@,
        GateError::AddressFamilyMismatch => "Address family mismatch"@,
    }
}

impl GateError {
    /// The text sent to the peer with the failure.
    pub fn message(&self) -> (r: &'static str)
        ensures
            r@ == gate_message(*self),
    {
        match self {
            GateError::AlreadyRegistered => "Connection already registered",
            GateError::VersionMismatch => "Protocol mismatch",
            GateError::AddressFamilyMismatch => "Address family mismatch",
        }
    }
}

/// What the server knows of its peers: the workers registered so far.
pub struct ServerState {
    pub workers: Vec<WorkerId>,
}

impl ServerState {
    pub open spec fn workers_view(&self) -> Seq<(Seq<u8>, u16)> {
        self.workers@.map_values(|w: WorkerId| w@)
    }

    pub fn new() -> (r: ServerState)
        ensures
            r.workers@.len() == 0,
    {
        ServerState { workers: Vec::new() }
    }

    pub fn n_workers(&self) -> (r: usize)
        ensures
            r == self.workers@.len(),
    {
        self.workers.len()
    }
}

/// The outcome of a client registration, given whether the connection had
/// registered before and the version presented.
pub open spec fn client_outcome(registered: bool, version: u32) -> Result<(), GateError> {
    if registered {
        Err(GateError::AlreadyRegistered)
    } else if version != CLIENT_PROTOCOL_VERSION {
        Err(GateError::VersionMismatch)
    } else {
        Ok(())
    }
}

/// The outcome of a worker registration: refused as for a client, and also
/// where the advertised address is of another family than the peer's.
pub open spec fn worker_outcome(registered: bool, version: u32, same_family: bool) -> Result<
    (),
    GateError,
> {
    if registered {
        Err(GateError::AlreadyRegistered)
    } else if version != WORKER_PROTOCOL_VERSION {
        Err(GateError::VersionMismatch)
    } else if !same_family {
        Err(GateError::AddressFamilyMismatch)
    } else {
        Ok(())
    }
}

/// Bootstrap object offered on a fresh connection; it admits one registration.
pub struct ServerBootstrapImpl {
    pub registered: bool,
    pub address: NetworkEndpoint,
}

impl ServerBootstrapImpl {
    /// A gate for a connection from `address`, not yet registered.
    pub fn new(address: NetworkEndpoint) -> (r: ServerBootstrapImpl)
        ensures
            !r.registered,
            r.address@ == address@,
    {
        ServerBootstrapImpl { registered: false, address }
    }

    pub fn is_registered(&self) -> (r: bool)
        ensures
            r == self.registered,
    {
        self.registered
    }

    /// Registers the connection as a client. On success the caller hands the
    /// peer its client-service capability.
    pub fn register_as_client(&mut self, version: u32) -> (r: Result<(), GateError>)
        ensures
            r == client_outcome(old(self).registered, version),
            final(self).registered == (old(self).registered || r is Ok),
            final(self).address == old(self).address,
    {
        if self.registered {
            return Err(GateError::AlreadyRegistered);
        }
        if version != CLIENT_PROTOCOL_VERSION {
            return Err(GateError::VersionMismatch);
        }
        self.registered = true;
        Ok(())
    }

    /// Registers the connection as a worker that listens on
    /// `listen_address`. On success the worker is recorded in `server` under
    /// the id returned, which is the advertised listen address; the caller
    /// hands the peer its upstream capability with that id.
    pub fn register_as_worker(
        &mut self,
        server: &mut ServerState,
        version: u32,
        listen_address: NetworkEndpoint,
    ) -> (r: Result<WorkerId, GateError>)
        ensures
            r is Ok <==> worker_outcome(
                old(self).registered,
                version,
                old(self).address@.0.len() == listen_address@.0.len(),
            ) is Ok,
            r matches Err(e) ==> Err::<(), GateError>(e) == worker_outcome(
                old(self).registered,
                version,
                old(self).address@.0.len() == listen_address@.0.len(),
            ),
            r matches Ok(id) ==> id@ == listen_address@,
            final(self).registered == (old(self).registered || r is Ok),
            final(self).address == old(self).address,
            r is Ok ==> final(server).workers_view() == old(server).workers_view().push(
                listen_address@,
            ),
            r is Err ==> final(server).workers_view() == old(server).workers_view(),
    {
        if self.registered {
            return Err(GateError::AlreadyRegistered);
        }
        if version != WORKER_PROTOCOL_VERSION {
            return Err(GateError::VersionMismatch);
        }
        if !self.address.same_family(&listen_address) {
            return Err(GateError::AddressFamilyMismatch);
        }
        self.registered = true;
        let id = listen_address.duplicate();
        server.workers.push(listen_address);
        proof {
            assert(server.workers_view() =~= old(server).workers_view().push(id@));
        }
        Ok(id)
    }
}

/// Once a connection has registered, any further registration, as client or
/// as worker and with any version or address, is refused with
/// `AlreadyRegistered`.
pub proof fn lemma_single_registration(version: u32, same_family: bool)
    ensures
        client_outcome(true, version) == Err::<(), GateError>(GateError::AlreadyRegistered),
        worker_outcome(true, version, same_family) == Err::<(), GateError>(
            GateError::AlreadyRegistered,
        ),
{
}

/// On a connection that has not registered, a version other than the one
/// expected for the role is refused with `VersionMismatch`.
pub proof fn lemma_version_mismatch(version: u32, same_family: bool)
    ensures
        version != CLIENT_PROTOCOL_VERSION ==> client_outcome(false, version) == Err::<
            (),
            GateError,
        >(GateError::VersionMismatch),
        version != WORKER_PROTOCOL_VERSION ==> worker_outcome(false, version, same_family)
            == Err::<(), GateError>(GateError::VersionMismatch),
{
}

/// One registration attempt on a gate: as client with a version, or as
/// worker with a version and whether its listen address is of the peer's
/// address family.
pub enum Registration {
    AsClient(u32),
    AsWorker(u32, bool),
}

pub open spec fn registration_outcome(registered: bool, c: Registration) -> Result<(), GateError> {
    match c {
        Registration::AsClient(v) => client_outcome(registered, v),
        Registration::AsWorker(v, f) => worker_outcome(registered, v, f),
    }
}

/// The outcomes of a run of registration attempts on one connection, each
/// made in the state that the attempts before it left behind.
pub open spec fn run_outcomes(registered: bool, calls: Seq<Registration>) -> Seq<
    Result<(), GateError>,
>
    decreases calls.len(),
{
    if calls.len() == 0 {
        seq![]
    } else {
        let r = registration_outcome(registered, calls[0]);
        seq![r] + run_outcomes(registered || r is Ok, calls.drop_first())
    }
}

/// In any run of registration attempts on a fresh gate, of either role and
/// with any arguments, at most one succeeds, and every attempt after it is
/// refused with `AlreadyRegistered`.
pub proof fn lemma_at_most_one_registration(registered: bool, calls: Seq<Registration>)
    ensures
        run_outcomes(registered, calls).len() == calls.len(),
        registered ==> forall|i: int|
            0 <= i < calls.len() ==> #[trigger] run_outcomes(registered, calls)[i] == Err::<
                (),
                GateError,
            >(GateError::AlreadyRegistered),
        forall|i: int, j: int|
            0 <= i < j < calls.len() && (#[trigger] run_outcomes(registered, calls)[i]) is Ok
                ==> #[trigger] run_outcomes(registered, calls)[j] == Err::<(), GateError>(
                GateError::AlreadyRegistered,
            ),
    decreases calls.len(),
{
    if calls.len() > 0 {
        let r = registration_outcome(registered, calls[0]);
        let rest = calls.drop_first();
        lemma_at_most_one_registration(registered || r is Ok, rest);
        let outs = run_outcomes(registered, calls);
        let tail = run_outcomes(registered || r is Ok, rest);
        assert(outs == seq![r] + tail);
        assert forall|i: int| 0 <= i < calls.len() && registered implies #[trigger] outs[i] == Err::<
            (),
            GateError,
        >(GateError::AlreadyRegistered) by {
            if i > 0 {
                assert(outs[i] == tail[i - 1]);
            }
        }
        assert forall|i: int, j: int|
            0 <= i < j < calls.len() && (#[trigger] outs[i]) is Ok implies #[trigger] outs[j]
                == Err::<(), GateError>(GateError::AlreadyRegistered) by {
            assert(outs[j] == tail[j - 1]);
            if i > 0 {
                assert(outs[i] == tail[i - 1]);
            }
        }
    }
}

} // verus!
