//! Routing core of a transparent TCP redirector.
//!
//! Connections diverted to the redirector are sent either straight to their
//! original destination or through an upstream proxy. This crate holds the
//! decisions of that process as verified state machines; sockets, timers and
//! the event loop belong to the program that drives them.
//!
//! - [`address`]: socket addresses as plain values, and the key under which the
//!   cache knows them.
//! - [`wire`]: numbers in network byte order.
//! - [`util`]: the answer of the kernel's original-destination lookup.
//! - [`config`]: the settings.
//! - [`cache`]: the bounded cache of destinations that need the proxy.
//! - [`context`]: settings and cache together, and the route they give.
//! - [`tcp`]: the router of one connection.
//! - [`socks5`]: the exchange that opens a tunnel through the proxy.
//! - [`relay`]: the relay between a client and its upstream.

pub mod address;
pub mod cache;
pub mod config;
pub mod context;
pub mod relay;
pub mod socks5;
pub mod tcp;
pub mod util;
pub mod wire;
