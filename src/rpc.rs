//! The RPC error that a refused registration is answered with.
use vstd::prelude::*;
use crate::gate::{GateError, gate_message};

verus! {

#[verifier::external_type_specification]
pub struct ExRpcErrorKind(capnp::ErrorKind);

#[verifier::external_type_specification]
pub struct ExRpcError(capnp::Error);

/// Relies on `capnp::Error::failed`: an error of kind `Failed` that carries
/// the given description.
#[verifier::external_body]
fn failed(description: String) -> (r: capnp::Error)
    ensures
        r.kind == capnp::ErrorKind::Failed,
        r.description@ == description@,
{
    capnp::Error::failed(description)
}

impl GateError {
    /// The RPC error sent back for this refusal: a plain failure carrying
    /// the refusal's message.
    pub fn to_rpc_error(&self) -> (r: capnp::Error)
        ensures
            r.kind == capnp::ErrorKind::Failed,
            r.description@ == gate_message(*self),
    {
        failed(self.message().to_owned())
    }
}

} // verus!
