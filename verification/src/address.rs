//! Socket addresses as plain values.

use vstd::prelude::*;

verus! {

/// What identifies a destination in the cache: the address family (4 or 6),
/// the bits of the IP address, and the port.
pub type Key = (u8, u128, u16);

/// An IP socket address. The IP address is held as the integer whose big-endian
/// bytes are the address, so `127.0.0.1` is `0x7f00_0001`. An IPv6 address
/// carries its flow information and scope along.
#[derive(Clone, Copy, Debug, PartialEq, Eq, Structural)]
#[allow(inconsistent_fields)]
pub enum SocketAddress {
    V4 { ip: u32, port: u16 },
    V6 { ip: u128, port: u16, flowinfo: u32, scope_id: u32 },
}

impl SocketAddress {
    /// The address's port.
    pub open spec fn spec_port(&self) -> u16 {
        match *self {
            SocketAddress::V4 { port, .. } => port,
            SocketAddress::V6 { port, .. } => port,
        }
    }

    /// The key under which the cache knows this address: its family, its IP
    /// address and its port, and nothing else.
    pub open spec fn spec_key(&self) -> Key {
        match *self {
            SocketAddress::V4 { ip, port } => (4u8, ip as u128, port),
            SocketAddress::V6 { ip, port, .. } => (6u8, ip, port),
        }
    }

    /// Whether two addresses name the same endpoint: the same family, the same
    /// IP address and the same port.
    pub open spec fn same_endpoint(self, other: SocketAddress) -> bool {
        match (self, other) {
            (SocketAddress::V4 { ip: a, port: p }, SocketAddress::V4 { ip: b, port: q }) => a == b
                && p == q,
            (
                SocketAddress::V6 { ip: a, port: p, .. },
                SocketAddress::V6 { ip: b, port: q, .. },
            ) => a == b && p == q,
            _ => false,
        }
    }

    /// The address's port.
    #[verifier::when_used_as_spec(spec_port)]
    pub fn port(&self) -> (port: u16)
        ensures
            port == self.spec_port(),
    {
        match self {
            SocketAddress::V4 { port, .. } => *port,
            SocketAddress::V6 { port, .. } => *port,
        }
    }

    /// The key under which the cache knows this address.
    #[verifier::when_used_as_spec(spec_key)]
    pub fn key(&self) -> (key: Key)
        ensures
            key == self.spec_key(),
        no_unwind
    {
        match self {
            SocketAddress::V4 { ip, port } => (4u8, *ip as u128, *port),
            SocketAddress::V6 { ip, port, .. } => (6u8, *ip, *port),
        }
    }
}

/// Two addresses have the same key exactly when they name the same endpoint.
pub proof fn lemma_key_is_exact(a: SocketAddress, b: SocketAddress)
    ensures
        a.key() == b.key() <==> a.same_endpoint(b),
{
}

} // verus!
