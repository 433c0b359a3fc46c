//! Control plane of a distributed task-execution cluster: the server's
//! registration gate and the worker-side state (task graph, subworkers,
//! working directory, registration lifecycle).
use vstd::prelude::*;

pub mod endpoint;
pub mod gate;
pub mod graph;
pub mod lifecycle;
pub mod paths;
pub mod rpc;
pub mod state;

verus! {

/// Protocol version that a client must present when it registers.
pub const CLIENT_PROTOCOL_VERSION: u32 = 1;

/// Protocol version that a worker must present when it registers.
pub const WORKER_PROTOCOL_VERSION: u32 = 1;

} // verus!
