//! Reading the answer of the kernel's original-destination lookup.

use crate::address::SocketAddress;
use crate::wire::{from_four_bytes, from_two_bytes};
use vstd::prelude::*;

verus! {

/// What the lookup of a redirected connection's original destination says:
/// nothing where it reported a failure, and otherwise the IPv4 address and port
/// that it wrote, both in network order.
pub open spec fn original_destination(status: i32, sin_addr: Seq<u8>, sin_port: Seq<u8>) -> Option<
    SocketAddress,
>
    recommends
        sin_addr.len() == 4,
        sin_port.len() == 2,
{
    if status != 0 {
        None
    } else {
        Some(
            SocketAddress::V4 {
                ip: from_four_bytes(sin_addr) as u32,
                port: from_two_bytes(sin_port) as u16,
            },
        )
    }
}

/// Reads the answer of the `SO_ORIGINAL_DST` lookup on an intercepted
/// connection. `status` is what the lookup returned, and `sin_addr` and
/// `sin_port` are the bytes of the address and of the port as it left them in
/// memory. A status other than zero means that the destination could not be
/// recovered.
pub fn getdestaddr_iptables(status: i32, sin_addr: [u8; 4], sin_port: [u8; 2]) -> (dst: Option<
    SocketAddress,
>)
    ensures
        dst == original_destination(status, sin_addr@, sin_port@),
{
    if status != 0 {
        return None;
    }
    let ip: u32 = sin_addr[0] as u32 * 0x100_0000 + sin_addr[1] as u32 * 0x1_0000
        + sin_addr[2] as u32 * 0x100 + sin_addr[3] as u32;
    let port: u16 = sin_port[0] as u16 * 0x100 + sin_port[1] as u16;
    Some(SocketAddress::V4 { ip, port })
}

} // verus!
