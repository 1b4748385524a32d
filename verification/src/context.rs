//! The routing context: the settings together with the destination cache, and
//! the decision that the two give for a destination.

use crate::address::{Key, SocketAddress};
use crate::cache::{inserted, refreshed, DestinationCache};
use crate::config::Config;
use vstd::prelude::*;

verus! {

/// The number of destinations that a context remembers at most.
pub const CACHE_CAPACITY: usize = 99999;

/// How a connection is to reach its destination.
#[derive(Clone, Copy, Debug, PartialEq, Eq)]
pub enum RouteDecision {
    /// Connect to the destination itself. With a deadline, in milliseconds, the
    /// attempt is given up when it passes; without one it may take as long as
    /// it takes.
    DirectWithDeadline(Option<u64>),
    /// Go through the upstream proxy, without trying the destination first.
    ProxyOnly,
}

/// What a context is, to the contracts: its settings, the keys of the
/// destinations it remembers, from the least recently used to the most recently
/// used, and how many it remembers at most.
pub struct ContextView {
    pub config: Config,
    pub cached: Seq<Key>,
    pub capacity: nat,
}

impl ContextView {
    /// Whether the destination is remembered as one that needs the proxy.
    pub open spec fn remembers(self, dst: SocketAddress) -> bool {
        self.cached.contains(dst.key())
    }

    /// The route for a destination. Without `autoproxy` everything goes through
    /// the proxy. With it, a remembered destination goes through the proxy, and
    /// any other is tried directly, within the configured timeout if there is
    /// one.
    pub open spec fn route(self, dst: SocketAddress) -> RouteDecision {
        if !self.config.autoproxy || self.remembers(dst) {
            RouteDecision::ProxyOnly
        } else {
            RouteDecision::DirectWithDeadline(self.config.timeout)
        }
    }

    /// The context after a route was decided for a destination. Without
    /// `autoproxy` the cache is not looked at, and stays as it is. With it the
    /// look-up counts as a use of the destination.
    pub open spec fn consulted(self, dst: SocketAddress) -> ContextView {
        if self.config.autoproxy {
            self.looked_up(dst)
        } else {
            self
        }
    }

    /// The context after a look-up of a destination in its cache.
    pub open spec fn looked_up(self, dst: SocketAddress) -> ContextView {
        ContextView { cached: refreshed(self.cached, dst.key()), ..self }
    }

    /// The context after a destination was marked as one that needs the proxy.
    pub open spec fn marked(self, dst: SocketAddress) -> ContextView {
        ContextView { cached: inserted(self.cached, dst.key(), self.capacity), ..self }
    }

    /// No destination is remembered twice, and no more than the capacity, which
    /// leaves room for one at least.
    pub open spec fn well_formed(self) -> bool {
        self.cached.no_duplicates() && self.cached.len() <= self.capacity && self.capacity > 0
    }
}

/// The timeout means something only with `autoproxy`: without it the route is
/// the same whatever the timeout is.
pub proof fn lemma_timeout_needs_autoproxy(
    context: ContextView,
    timeout: Option<u64>,
    dst: SocketAddress,
)
    requires
        !context.config.autoproxy,
    ensures
        (ContextView { config: Config { timeout, ..context.config }, ..context }).route(dst)
            == context.route(dst),
        context.route(dst) == RouteDecision::ProxyOnly,
{
}

/// The settings and the destination cache that all connections share.
pub struct Context {
    config: Config,
    cache: DestinationCache,
}

impl View for Context {
    type V = ContextView;

    closed spec fn view(&self) -> ContextView {
        ContextView {
            config: self.config,
            cached: self.cache@,
            capacity: self.cache.spec_capacity(),
        }
    }
}

impl Context {
    /// Every context is well formed.
    #[verifier::type_invariant]
    pub open spec fn well_formed(&self) -> bool {
        self@.well_formed()
    }

    /// A context with the given settings that remembers no destination yet.
    pub fn new(config: Config) -> (context: Self)
        ensures
            context@.config == config,
            context@.cached == Seq::<Key>::empty(),
            context@.capacity == CACHE_CAPACITY,
            context@.well_formed(),
    {
        Context { config, cache: DestinationCache::new(CACHE_CAPACITY) }
    }

    /// The address to listen on.
    pub fn local(&self) -> (addr: &SocketAddress)
        ensures
            *addr == self@.config.local,
    {
        &self.config.local
    }

    /// The address of the upstream proxy.
    pub fn proxy(&self) -> (addr: &SocketAddress)
        ensures
            *addr == self@.config.proxy,
    {
        &self.config.proxy
    }

    /// Decides the route for a destination. The cache is looked at only where
    /// `autoproxy` is set.
    pub fn decide(&mut self, dst: &SocketAddress) -> (decision: RouteDecision)
        ensures
            decision == old(self)@.route(*dst),
            final(self)@ == old(self)@.consulted(*dst),
            final(self)@.well_formed(),
    {
        proof {
            use_type_invariant(&*self);
        }
        if !self.config.autoproxy {
            RouteDecision::ProxyOnly
        } else if self.contains(dst) {
            RouteDecision::ProxyOnly
        } else {
            RouteDecision::DirectWithDeadline(self.config.timeout)
        }
    }

    /// The time, in milliseconds, that bounds a direct connection attempt to the
    /// destination: the configured timeout where `decide` says to try the
    /// destination directly, and none where it says to go through the proxy.
    pub fn connect_timeout(&mut self, addr: &SocketAddress) -> (timeout: Option<u64>)
        ensures
            timeout == match old(self)@.route(*addr) {
                RouteDecision::DirectWithDeadline(deadline) => deadline,
                RouteDecision::ProxyOnly => None,
            },
            final(self)@ == old(self)@.consulted(*addr),
            final(self)@.well_formed(),
    {
        match self.decide(addr) {
            RouteDecision::DirectWithDeadline(deadline) => deadline,
            RouteDecision::ProxyOnly => None,
        }
    }

    /// Tells whether the destination is remembered as one that needs the proxy.
    /// Being asked for counts as a use of the destination.
    pub fn contains(&mut self, addr: &SocketAddress) -> (present: bool)
        ensures
            present == old(self)@.remembers(*addr),
            final(self)@ == old(self)@.looked_up(*addr),
            final(self)@.well_formed(),
    {
        proof {
            use_type_invariant(&*self);
        }
        self.cache.contains(addr)
    }

    /// Remembers the destination as one that needs the proxy. Doing so twice is
    /// no error.
    pub fn put_addr(&mut self, addr: &SocketAddress)
        ensures
            final(self)@ == old(self)@.marked(*addr),
            final(self)@.well_formed(),
            final(self)@.remembers(*addr),
    {
        proof {
            use_type_invariant(&*self);
        }
        self.cache.mark(addr)
    }
}

} // verus!
