//! The settings that the redirector is started with.

use crate::address::SocketAddress;
use vstd::prelude::*;

verus! {

/// The protocol that the upstream proxy speaks.
#[derive(Clone, Copy, Debug, PartialEq, Eq, Structural)]
pub enum Type {
    Socks5,
}

/// The routing settings. They do not change once loaded.
///
/// `timeout` bounds a direct connection attempt, in milliseconds; it means
/// something only where `autoproxy` is set.
#[derive(Clone, Copy, Debug)]
pub struct Config {
    /// The address to listen on.
    pub local: SocketAddress,
    /// The address of the upstream proxy.
    pub proxy: SocketAddress,
    pub proxytype: Type,
    /// Whether a destination is first tried directly, with the proxy as the
    /// fallback. Without it every connection goes through the proxy.
    pub autoproxy: bool,
    pub timeout: Option<u64>,
}

} // verus!
