//! Network endpoints (address and port) and their wire form.
use vstd::prelude::*;

verus! {

/// An IP address with a port. The address is held as its raw bytes: four for
/// IPv4, sixteen for IPv6.
#[derive(Debug)]
pub struct NetworkEndpoint {
    pub address: Vec<u8>,
    pub port: u16,
}

/// The wire form of an endpoint: the address bytes and the port.
#[derive(Debug)]
pub struct WireEndpoint {
    pub address: Vec<u8>,
    pub port: u16,
}

/// A worker is identified by the endpoint on which it listens.
pub type WorkerId = NetworkEndpoint;

/// A valid address holds four or sixteen bytes.
pub open spec fn valid_address(a: Seq<u8>) -> bool {
    a.len() == 4 || a.len() == 16
}

impl View for WireEndpoint {
    type V = (Seq<u8>, u16);

    open spec fn view(&self) -> (Seq<u8>, u16) {
        (self.address@, self.port)
    }
}

impl View for NetworkEndpoint {
    type V = (Seq<u8>, u16);

    open spec fn view(&self) -> (Seq<u8>, u16) {
        (self.address@, self.port)
    }
}

impl NetworkEndpoint {
    pub open spec fn wf(&self) -> bool {
        valid_address(self.address@)
    }

    pub open spec fn port_spec(&self) -> u16 {
        self.port
    }

    pub open spec fn address_spec(&self) -> Seq<u8> {
        self.address@
    }

    pub open spec fn is_ipv4_spec(&self) -> bool {
        self.address@.len() == 4
    }

    /// The sentinel endpoint 0.0.0.0:0 stands for "no worker id yet".
    pub open spec fn is_empty_spec(&self) -> bool {
        self.port == 0 && self.address@ == seq![0u8, 0u8, 0u8, 0u8]
    }

    /// An IPv4 endpoint.
    pub fn ipv4(a: u8, b: u8, c: u8, d: u8, port: u16) -> (r: NetworkEndpoint)
        ensures
            r.wf(),
            r@ == (seq![a, b, c, d], port),
    {
        NetworkEndpoint { address: vec![a, b, c, d], port }
    }

    /// An endpoint from raw address bytes; `None` unless there are four or
    /// sixteen of them.
    pub fn from_bytes(address: Vec<u8>, port: u16) -> (r: Option<NetworkEndpoint>)
        ensures
            r is Some <==> valid_address(address@),
            r matches Some(e) ==> e.wf() && e@ == (address@, port),
    {
        if address.len() == 4 || address.len() == 16 {
            Some(NetworkEndpoint { address, port })
        } else {
            None
        }
    }

    pub fn port(&self) -> (r: u16)
        ensures
            r == self.port_spec(),
    {
        self.port
    }

    pub fn address(&self) -> (r: &Vec<u8>)
        ensures
            r@ == self.address_spec(),
    {
        &self.address
    }

    pub fn is_ipv4(&self) -> (r: bool)
        ensures
            r == self.is_ipv4_spec(),
    {
        self.address.len() == 4
    }

    /// Whether both endpoints are of the same address family.
    pub fn same_family(&self, other: &NetworkEndpoint) -> (r: bool)
        ensures
            r == (self.address@.len() == other.address@.len()),
    {
        self.address.len() == other.address.len()
    }

    /// Replaces the port, keeping the address.
    pub fn set_port(&mut self, port: u16)
        ensures
            final(self)@ == (old(self)@.0, port),
            old(self).wf() ==> final(self).wf(),
    {
        self.port = port;
    }

    /// The sentinel worker id, 0.0.0.0:0.
    pub fn empty() -> (r: NetworkEndpoint)
        ensures
            r.wf(),
            r.is_empty_spec(),
    {
        NetworkEndpoint { address: vec![0u8, 0u8, 0u8, 0u8], port: 0 }
    }

    pub fn is_empty(&self) -> (r: bool)
        ensures
            r == self.is_empty_spec(),
    {
        let r = self.port == 0 && self.address.len() == 4 && self.address[0] == 0
            && self.address[1] == 0 && self.address[2] == 0 && self.address[3] == 0;
        proof {
            if r {
                assert(self.address@ =~= seq![0u8, 0u8, 0u8, 0u8]);
            }
        }
        r
    }

    /// Field-wise equality.
    pub fn same_as(&self, other: &NetworkEndpoint) -> (r: bool)
        ensures
            r == (self@ == other@),
    {
        if self.port != other.port || self.address.len() != other.address.len() {
            return false;
        }
        let mut i: usize = 0;
        while i < self.address.len()
            invariant
                self.address@.len() == other.address@.len(),
                i <= self.address@.len(),
                forall|j: int| 0 <= j < i ==> self.address@[j] == other.address@[j],
            decreases self.address@.len() - i,
        {
            if self.address[i] != other.address[i] {
                return false;
            }
            i = i + 1;
        }
        assert(self.address@ =~= other.address@);
        true
    }

    /// A copy of this endpoint.
    pub fn duplicate(&self) -> (r: NetworkEndpoint)
        ensures
            r@ == self@,
    {
        NetworkEndpoint { address: self.address.clone(), port: self.port }
    }

    /// The wire form of this endpoint.
    pub fn to_wire(&self) -> (r: WireEndpoint)
        ensures
            r@ == encode_wire(self@),
    {
        WireEndpoint { address: self.address.clone(), port: self.port }
    }

    /// Reads an endpoint from its wire form; `None` where the address holds
    /// neither four nor sixteen bytes.
    pub fn from_wire(w: &WireEndpoint) -> (r: Option<NetworkEndpoint>)
        ensures
            r is Some <==> decode_wire(w@) is Some,
            r matches Some(e) ==> e.wf() && decode_wire(w@) == Some(e@),
    {
        NetworkEndpoint::from_bytes(w.address.clone(), w.port)
    }
}

/// The wire form of an endpoint: its address bytes and port, unchanged.
pub open spec fn encode_wire(e: (Seq<u8>, u16)) -> (Seq<u8>, u16) {
    e
}

/// Reading the wire form: accepted only with four or sixteen address bytes.
pub open spec fn decode_wire(w: (Seq<u8>, u16)) -> Option<(Seq<u8>, u16)> {
    if valid_address(w.0) {
        Some(w)
    } else {
        None
    }
}

/// Writing a valid endpoint to the wire and reading it back gives the same
/// endpoint.
pub proof fn lemma_wire_round_trip(e: NetworkEndpoint)
    requires
        e.wf(),
    ensures
        decode_wire(encode_wire(e@)) == Some(e@),
{
}

} // verus!
