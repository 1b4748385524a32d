//! The SOCKS5 exchange that opens a tunnel through the proxy: a greeting that
//! offers to go without authentication, and a request to connect to the target.
//!
//! The exchange decides and the transport acts: it writes the bytes it is
//! given, reads as many as it is asked for, and hands them back.

use crate::address::SocketAddress;
use crate::wire::{
    four_bytes, from_four_bytes, from_network, from_two_bytes, lemma_short_forms_write,
    lemma_to_network_len, lemma_written_reads_back, span, to_network, two_bytes, write_network,
};
use vstd::prelude::*;

verus! {

/// The protocol version.
pub const VERSION: u8 = 5;

/// The method "no authentication".
pub const NO_AUTHENTICATION: u8 = 0;

/// The command "connect".
pub const CONNECT: u8 = 1;

/// The address type "IPv4 address".
pub const IPV4: u8 = 1;

/// The address type "domain name".
pub const DOMAIN_NAME: u8 = 3;

/// The address type "IPv6 address".
pub const IPV6: u8 = 4;

/// The reply code "succeeded".
pub const SUCCEEDED: u8 = 0;

/// Why the proxy did not open the tunnel.
#[derive(Clone, Copy, Debug, PartialEq, Eq, Structural)]
pub enum HandshakeError {
    /// The number of bytes handed in is not the number that was asked for.
    Length,
    /// The proxy answered in another version of the protocol.
    Version,
    /// The proxy does not serve clients without authentication.
    Method,
    /// The proxy refused the request, with this reply code.
    Refused { code: u8 },
    /// The reply names its bound address in a type that does not exist.
    AddressType,
}

/// How far the exchange has come.
#[derive(Clone, Copy, Debug, PartialEq, Eq, Structural)]
pub enum Phase {
    /// The greeting is sent; the proxy's choice of method is awaited.
    Greeting,
    /// The request is sent; the first four bytes of the reply are awaited.
    Request,
    /// The reply binds a domain name; the byte with its length is awaited.
    NameLength,
    /// The rest of the reply is awaited: the bound address and port.
    BoundAddress { len: usize },
    /// The tunnel is open.
    Established,
    /// The tunnel was not opened.
    Failed { error: HandshakeError },
}

/// What the transport is to do once it has written what it was given.
#[derive(Clone, Copy, Debug, PartialEq, Eq, Structural)]
pub enum Next {
    /// Read exactly this many bytes from the proxy and hand them in.
    Receive { expect: usize },
    /// Nothing: the tunnel is open, and what follows on the connection belongs
    /// to the target.
    Established,
    /// Nothing: the tunnel was not opened.
    Failed { error: HandshakeError },
}

/// The greeting: version 5, and one method on offer, "no authentication".
pub open spec fn greeting() -> Seq<u8> {
    seq![VERSION, 1u8, NO_AUTHENTICATION]
}

/// The request to connect to the target: version 5, the command, a reserved
/// zero, the type of the address, the address and the port, both in network
/// order.
pub open spec fn request(target: SocketAddress) -> Seq<u8> {
    match target {
        SocketAddress::V4 { ip, port } => seq![VERSION, CONNECT, 0u8, IPV4] + four_bytes(ip)
            + two_bytes(port),
        SocketAddress::V6 { ip, port, .. } => seq![VERSION, CONNECT, 0u8, IPV6] + to_network(
            ip as nat,
            16,
        ) + two_bytes(port),
    }
}

/// The request names its target: behind the four leading bytes stands the IP
/// address, in four bytes or sixteen as the address type says, and behind it
/// the port.
pub proof fn lemma_request_names_target(target: SocketAddress)
    ensures
        match target {
            SocketAddress::V4 { ip, port } => {
                &&& request(target).len() == 10
                &&& request(target).take(4) == seq![VERSION, CONNECT, 0u8, IPV4]
                &&& from_four_bytes(request(target).subrange(4, 8)) == ip
                &&& from_two_bytes(request(target).subrange(8, 10)) == port
            },
            SocketAddress::V6 { ip, port, .. } => {
                &&& request(target).len() == 22
                &&& request(target).take(4) == seq![VERSION, CONNECT, 0u8, IPV6]
                &&& from_network(request(target).subrange(4, 20)) == ip
                &&& from_two_bytes(request(target).subrange(20, 22)) == port
            },
        },
{
    match target {
        SocketAddress::V4 { ip, port } => {
            assert(request(target).take(4) == seq![VERSION, CONNECT, 0u8, IPV4]);
            assert(request(target).subrange(4, 8) == four_bytes(ip));
            assert(request(target).subrange(8, 10) == two_bytes(port));
        },
        SocketAddress::V6 { ip, port, .. } => {
            reveal_with_fuel(span, 17);
            lemma_to_network_len(ip as nat, 16);
            lemma_written_reads_back(ip as nat, 16);
            assert(request(target).take(4) == seq![VERSION, CONNECT, 0u8, IPV6]);
            assert(request(target).subrange(4, 20) == to_network(ip as nat, 16));
            assert(request(target).subrange(20, 22) == two_bytes(port));
        },
    }
}

impl Phase {
    /// The number of bytes that the phase waits for.
    pub open spec fn expects(self) -> nat {
        match self {
            Phase::Greeting => 2,
            Phase::Request => 4,
            Phase::NameLength => 1,
            Phase::BoundAddress { len } => len as nat,
            Phase::Established | Phase::Failed { .. } => 0,
        }
    }

    /// The phase that follows when the awaited bytes have come.
    ///
    /// The choice of method must be in version 5 and must be "no
    /// authentication". The reply must be in version 5 and must say
    /// "succeeded"; its address type says how much of it is left to read: four
    /// or sixteen bytes of address, or a name behind its length byte, and two
    /// bytes of port in each case. What the bound address is plays no part.
    pub open spec fn after(self, received: Seq<u8>) -> Phase {
        match self {
            Phase::Established | Phase::Failed { .. } => self,
            _ => if received.len() != self.expects() {
                Phase::Failed { error: HandshakeError::Length }
            } else {
                match self {
                    Phase::Greeting => if received[0] != VERSION {
                        Phase::Failed { error: HandshakeError::Version }
                    } else if received[1] != NO_AUTHENTICATION {
                        Phase::Failed { error: HandshakeError::Method }
                    } else {
                        Phase::Request
                    },
                    Phase::Request => if received[0] != VERSION {
                        Phase::Failed { error: HandshakeError::Version }
                    } else if received[1] != SUCCEEDED {
                        Phase::Failed { error: HandshakeError::Refused { code: received[1] } }
                    } else if received[3] == IPV4 {
                        Phase::BoundAddress { len: 6 }
                    } else if received[3] == IPV6 {
                        Phase::BoundAddress { len: 18 }
                    } else if received[3] == DOMAIN_NAME {
                        Phase::NameLength
                    } else {
                        Phase::Failed { error: HandshakeError::AddressType }
                    },
                    Phase::NameLength => Phase::BoundAddress { len: (received[0] + 2) as usize },
                    _ => Phase::Established,
                }
            },
        }
    }

    /// What the transport is to do in this phase.
    pub open spec fn next(self) -> Next {
        match self {
            Phase::Established => Next::Established,
            Phase::Failed { error } => Next::Failed { error },
            _ => Next::Receive { expect: self.expects() as usize },
        }
    }
}

/// The bytes to write when `before` has turned into `after`: the request, once
/// the proxy has agreed to the method, and nothing at any other moment.
pub open spec fn message(before: Phase, after: Phase, target: SocketAddress) -> Seq<u8> {
    if before is Greeting && after is Request {
        request(target)
    } else {
        Seq::empty()
    }
}

/// The exchange with the proxy for one tunnel.
pub struct SocksConnectHandshake {
    phase: Phase,
    target: SocketAddress,
}

impl SocksConnectHandshake {
    /// The phase of the exchange.
    pub closed spec fn phase(&self) -> Phase {
        self.phase
    }

    /// The address that the tunnel is to lead to.
    pub closed spec fn target(&self) -> SocketAddress {
        self.target
    }

    /// Takes in the bytes that were asked for. Returns the bytes to write to the
    /// proxy, if any, and what to do after that.
    pub fn step(&mut self, received: &[u8]) -> (turn: (Vec<u8>, Next))
        ensures
            final(self).phase() == old(self).phase().after(received@),
            final(self).target() == old(self).target(),
            turn.0@ == message(old(self).phase(), final(self).phase(), old(self).target()),
            turn.1 == final(self).phase().next(),
    {
        let before = self.phase;
        self.phase = match before {
            Phase::Established | Phase::Failed { .. } => before,
            Phase::Greeting => if received.len() != 2 {
                Phase::Failed { error: HandshakeError::Length }
            } else if received[0] != VERSION {
                Phase::Failed { error: HandshakeError::Version }
            } else if received[1] != NO_AUTHENTICATION {
                Phase::Failed { error: HandshakeError::Method }
            } else {
                Phase::Request
            },
            Phase::Request => if received.len() != 4 {
                Phase::Failed { error: HandshakeError::Length }
            } else if received[0] != VERSION {
                Phase::Failed { error: HandshakeError::Version }
            } else if received[1] != SUCCEEDED {
                Phase::Failed { error: HandshakeError::Refused { code: received[1] } }
            } else if received[3] == IPV4 {
                Phase::BoundAddress { len: 6 }
            } else if received[3] == IPV6 {
                Phase::BoundAddress { len: 18 }
            } else if received[3] == DOMAIN_NAME {
                Phase::NameLength
            } else {
                Phase::Failed { error: HandshakeError::AddressType }
            },
            Phase::NameLength => if received.len() != 1 {
                Phase::Failed { error: HandshakeError::Length }
            } else {
                Phase::BoundAddress { len: received[0] as usize + 2 }
            },
            Phase::BoundAddress { len } => if received.len() != len {
                Phase::Failed { error: HandshakeError::Length }
            } else {
                Phase::Established
            },
        };
        let send = match (before, self.phase) {
            (Phase::Greeting, Phase::Request) => connect_request(&self.target),
            _ => Vec::new(),
        };
        let next = match self.phase {
            Phase::Greeting => Next::Receive { expect: 2 },
            Phase::Request => Next::Receive { expect: 4 },
            Phase::NameLength => Next::Receive { expect: 1 },
            Phase::BoundAddress { len } => Next::Receive { expect: len },
            Phase::Established => Next::Established,
            Phase::Failed { error } => Next::Failed { error },
        };
        (send, next)
    }
}

/// The request to connect to the target, as it goes over the wire.
pub fn connect_request(target: &SocketAddress) -> (bytes: Vec<u8>)
    ensures
        bytes@ == request(*target),
{
    let mut bytes: Vec<u8> = Vec::new();
    bytes.push(VERSION);
    bytes.push(CONNECT);
    bytes.push(0);
    match *target {
        SocketAddress::V4 { ip, port } => {
            bytes.push(IPV4);
            assert(bytes@ == seq![VERSION, CONNECT, 0u8, IPV4]);
            write_network(&mut bytes, ip as u128, 4);
            write_network(&mut bytes, port as u128, 2);
            proof {
                lemma_short_forms_write(port, ip);
            }
        },
        SocketAddress::V6 { ip, port, .. } => {
            bytes.push(IPV6);
            assert(bytes@ == seq![VERSION, CONNECT, 0u8, IPV6]);
            write_network(&mut bytes, ip, 16);
            write_network(&mut bytes, port as u128, 2);
            proof {
                lemma_short_forms_write(port, 0);
            }
        },
    }
    bytes
}

/// Starts the exchange for a tunnel to the target. Returns the exchange, the
/// greeting to write to the proxy, and what to do after that, which is to read
/// the proxy's choice of method.
pub fn socks_connect_handshake(target: SocketAddress) -> (started: (
    SocksConnectHandshake,
    Vec<u8>,
    Next,
))
    ensures
        started.0.phase() == Phase::Greeting,
        started.0.target() == target,
        started.1@ == greeting(),
        started.2 == Phase::Greeting.next(),
{
    let mut hello: Vec<u8> = Vec::new();
    hello.push(VERSION);
    hello.push(1);
    hello.push(NO_AUTHENTICATION);
    assert(hello@ == greeting());
    (SocksConnectHandshake { phase: Phase::Greeting, target }, hello, Next::Receive { expect: 2 })
}

} // verus!
