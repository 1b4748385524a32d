//! The routing of one accepted connection: direct or through the proxy, with
//! the fallback after a deadline, the handshake, and the hand-over to the relay.
//!
//! The router decides and the program around it acts: each step takes the event
//! that ended the last piece of outside work and answers with the next piece to
//! do.

use crate::address::SocketAddress;
use crate::cache::{lemma_inserted, lemma_inserted_is_held, lemma_refreshed};
use crate::context::{Context, ContextView, RouteDecision};
use crate::relay::Outcome;
use vstd::prelude::*;

verus! {

/// Which connection stands on the upstream side of the relay.
#[derive(Clone, Copy, Debug, PartialEq, Eq, Structural)]
pub enum Upstream {
    /// The connection to the destination itself.
    Direct,
    /// The tunnel to the destination that the proxy has opened.
    Tunnel,
}

/// Why a connection could not be served. Each cause ends that connection and
/// no other.
#[derive(Clone, Copy, Debug, PartialEq, Eq, Structural)]
pub enum Failure {
    /// The original destination could not be recovered.
    Resolve,
    /// The direct connection failed for another reason than the deadline.
    DirectConnect,
    /// The connection to the proxy failed.
    ProxyConnect,
    /// The proxy refused the tunnel or broke the protocol.
    Handshake,
    /// The relay broke off, after carrying this much in each direction.
    Relay { client_to_upstream: u64, upstream_to_client: u64 },
}

/// Where a connection stands.
#[derive(Clone, Copy, Debug, PartialEq, Eq)]
pub enum Stage {
    /// Accepted; the destination is being recovered, and the route is decided
    /// as soon as it is known.
    Routing,
    /// Connecting to the destination itself, within the deadline if there is
    /// one.
    ConnectingDirect { dst: SocketAddress, deadline: Option<u64> },
    /// Connecting to the proxy.
    ConnectingProxy { dst: SocketAddress },
    /// Asking the proxy for a tunnel to the destination.
    Handshaking { dst: SocketAddress },
    /// The relay is running between the client and this upstream.
    Relaying { upstream: Upstream },
    /// Served, with this many bytes carried in each direction.
    Done { client_to_upstream: u64, upstream_to_client: u64 },
    /// Not served.
    Failed { cause: Failure },
}

/// What ended a piece of outside work.
#[derive(Clone, Copy, Debug, PartialEq, Eq)]
pub enum Event {
    /// The look-up of the original destination has ended, with or without one.
    Resolved { dst: Option<SocketAddress> },
    /// The connection that was being made stands.
    Connected,
    /// The deadline of the direct connection has passed.
    DeadlineElapsed,
    /// The connection that was being made failed with a transport error.
    ConnectFailed,
    /// The proxy has opened the tunnel.
    HandshakeDone,
    /// The proxy refused the tunnel or broke the protocol.
    HandshakeFailed,
    /// The relay ended well.
    RelayDone { client_to_upstream: u64, upstream_to_client: u64 },
    /// The relay broke off.
    RelayFailed { client_to_upstream: u64, upstream_to_client: u64 },
}

/// The next piece of outside work.
#[derive(Clone, Copy, Debug, PartialEq, Eq)]
pub enum Action {
    /// Connect to the destination, and report `DeadlineElapsed` if a deadline
    /// is given, in milliseconds, and passes first.
    ConnectDirect { dst: SocketAddress, deadline: Option<u64> },
    /// Open a new connection to the proxy.
    ConnectProxy { proxy: SocketAddress },
    /// Ask the proxy for a tunnel to the target.
    Handshake { target: SocketAddress },
    /// Hand the client and the upstream connection to the relay.
    Relay { upstream: Upstream },
    /// Close, and report the bytes carried.
    Finish { client_to_upstream: u64, upstream_to_client: u64 },
    /// Close, and report the failure.
    Fail { cause: Failure },
}

/// What a step comes to: the stage and the context after it, and the action
/// that is owed, if the event was one that the stage waits for.
pub struct Step {
    pub stage: Stage,
    pub context: ContextView,
    pub action: Option<Action>,
}

impl Event {
    /// The event that a relay's result is to the router: the counts are handed
    /// on, and which direction failed first is not.
    pub open spec fn relay_ended(outcome: Outcome) -> Event {
        match outcome {
            Outcome::Done { client_to_upstream, upstream_to_client } => Event::RelayDone {
                client_to_upstream,
                upstream_to_client,
            },
            Outcome::Failed { client_to_upstream, upstream_to_client, .. } => Event::RelayFailed {
                client_to_upstream,
                upstream_to_client,
            },
        }
    }

    /// The event with which the result of a relay is reported to the router.
    pub fn from_outcome(outcome: Outcome) -> (event: Event)
        ensures
            event == Event::relay_ended(outcome),
    {
        match outcome {
            Outcome::Done { client_to_upstream, upstream_to_client } => Event::RelayDone {
                client_to_upstream,
                upstream_to_client,
            },
            Outcome::Failed { client_to_upstream, upstream_to_client, .. } => Event::RelayFailed {
                client_to_upstream,
                upstream_to_client,
            },
        }
    }
}

impl Stage {
    /// The stage that a connection enters for a destination once its route is
    /// decided.
    pub open spec fn routed(decision: RouteDecision, dst: SocketAddress) -> Stage {
        match decision {
            RouteDecision::DirectWithDeadline(deadline) => Stage::ConnectingDirect {
                dst,
                deadline,
            },
            RouteDecision::ProxyOnly => Stage::ConnectingProxy { dst },
        }
    }

    /// The action with which a stage is entered: the piece of outside work that
    /// it waits for, or the end of the connection. The first stage is entered
    /// with none.
    pub open spec fn entry(self, context: ContextView) -> Option<Action> {
        match self {
            Stage::Routing => None,
            Stage::Relaying { upstream } => Some(Action::Relay { upstream }),
            Stage::ConnectingDirect { dst, deadline } => Some(
                Action::ConnectDirect { dst, deadline },
            ),
            Stage::ConnectingProxy { .. } => Some(
                Action::ConnectProxy { proxy: context.config.proxy },
            ),
            Stage::Handshaking { dst } => Some(Action::Handshake { target: dst }),
            Stage::Done { client_to_upstream, upstream_to_client } => Some(
                Action::Finish { client_to_upstream, upstream_to_client },
            ),
            Stage::Failed { cause } => Some(Action::Fail { cause }),
        }
    }

    /// Whether the connection has ended.
    pub open spec fn terminal(self) -> bool {
        self is Done || self is Failed
    }

    /// Whether the event is one that the stage waits for.
    pub open spec fn awaits(self, event: Event) -> bool {
        match self {
            Stage::Routing => event is Resolved,
            Stage::ConnectingDirect { deadline, .. } => event is Connected || event is ConnectFailed
                || (event is DeadlineElapsed && deadline is Some),
            Stage::ConnectingProxy { .. } => event is Connected || event is ConnectFailed,
            Stage::Handshaking { .. } => event is HandshakeDone || event is HandshakeFailed,
            Stage::Relaying { .. } => event is RelayDone || event is RelayFailed,
            Stage::Done { .. } | Stage::Failed { .. } => false,
        }
    }

    /// The stage that follows when an awaited event comes, given the context at
    /// that moment.
    pub open spec fn successor(self, event: Event, context: ContextView) -> Stage {
        match (self, event) {
            (Stage::Routing, Event::Resolved { dst: Some(dst) }) => Stage::routed(
                context.route(dst),
                dst,
            ),
            (Stage::Routing, Event::Resolved { dst: None }) => Stage::Failed {
                cause: Failure::Resolve,
            },
            (Stage::ConnectingDirect { .. }, Event::Connected) => Stage::Relaying {
                upstream: Upstream::Direct,
            },
            (
                Stage::ConnectingDirect { dst, .. },
                Event::DeadlineElapsed,
            ) => Stage::ConnectingProxy { dst },
            (Stage::ConnectingDirect { .. }, Event::ConnectFailed) => Stage::Failed {
                cause: Failure::DirectConnect,
            },
            (Stage::ConnectingProxy { dst }, Event::Connected) => Stage::Handshaking { dst },
            (Stage::ConnectingProxy { .. }, Event::ConnectFailed) => Stage::Failed {
                cause: Failure::ProxyConnect,
            },
            (Stage::Handshaking { .. }, Event::HandshakeDone) => Stage::Relaying {
                upstream: Upstream::Tunnel,
            },
            (Stage::Handshaking { .. }, Event::HandshakeFailed) => Stage::Failed {
                cause: Failure::Handshake,
            },
            (
                Stage::Relaying { .. },
                Event::RelayDone { client_to_upstream, upstream_to_client },
            ) => Stage::Done { client_to_upstream, upstream_to_client },
            (
                Stage::Relaying { .. },
                Event::RelayFailed { client_to_upstream, upstream_to_client },
            ) => Stage::Failed {
                cause: Failure::Relay { client_to_upstream, upstream_to_client },
            },
            _ => self,
        }
    }

    /// The context after an awaited event. Two events touch the cache: the
    /// decision of the route, which looks the destination up where `autoproxy`
    /// is set, and the passing of the deadline, which marks the destination.
    pub open spec fn effect(self, event: Event, context: ContextView) -> ContextView {
        match (self, event) {
            (Stage::Routing, Event::Resolved { dst: Some(dst) }) => context.consulted(dst),
            (Stage::ConnectingDirect { dst, .. }, Event::DeadlineElapsed) => context.marked(dst),
            _ => context,
        }
    }

    /// One step of the router. An awaited event moves the connection to the
    /// successor stage, and the action owed is the one with which that stage is
    /// entered. An event that the stage does not wait for changes nothing and is
    /// owed no action.
    pub open spec fn step(self, event: Event, context: ContextView) -> Step {
        if self.awaits(event) {
            Step {
                stage: self.successor(event, context),
                context: self.effect(event, context),
                action: self.successor(event, context).entry(context),
            }
        } else {
            Step { stage: self, context, action: None }
        }
    }
}

/// What a run of events comes to: the stage and the context after the last of
/// them, and the actions that were owed on the way, in their order.
pub struct Run {
    pub stage: Stage,
    pub context: ContextView,
    pub actions: Seq<Action>,
}

impl Stage {
    /// How far a connection has come. Every awaited event takes it further, so
    /// that no stage is entered twice.
    pub open spec fn rank(self) -> nat {
        match self {
            Stage::Routing => 0,
            Stage::ConnectingDirect { .. } => 1,
            Stage::ConnectingProxy { .. } => 2,
            Stage::Handshaking { .. } => 3,
            Stage::Relaying { .. } => 4,
            Stage::Done { .. } | Stage::Failed { .. } => 5,
        }
    }

    /// The router run over a sequence of events, taken in order.
    pub open spec fn run(self, events: Seq<Event>, context: ContextView) -> Run
        decreases events.len(),
    {
        if events.len() == 0 {
            Run { stage: self, context, actions: Seq::empty() }
        } else {
            let before = self.run(events.drop_last(), context);
            let step = before.stage.step(events.last(), before.context);
            Run {
                stage: step.stage,
                context: step.context,
                actions: match step.action {
                    Some(action) => before.actions.push(action),
                    None => before.actions,
                },
            }
        }
    }
}

/// Whether a direct connection is among the actions.
pub open spec fn connects_directly(actions: Seq<Action>) -> bool {
    exists|i: int| 0 <= i < actions.len() && #[trigger] actions[i] is ConnectDirect
}

/// An awaited event is always owed an action, and takes the connection
/// further: nothing is tried twice, and a connection that is on its way
/// through the proxy never goes back to the direct path.
pub proof fn lemma_step_goes_on(stage: Stage, event: Event, context: ContextView)
    requires
        stage.awaits(event),
    ensures
        stage.step(event, context).action is Some,
        stage.step(event, context).stage.rank() > stage.rank(),
{
}

/// An event that is not awaited is owed nothing.
proof fn lemma_step_goes_on_or_stays(stage: Stage, event: Event, context: ContextView)
    ensures
        stage.step(event, context).action is Some <==> stage.awaits(event),
{
    if stage.awaits(event) {
        lemma_step_goes_on(stage, event, context);
    }
}

/// A connection that has ended stays as it is, whatever comes.
pub proof fn lemma_terminal_is_final(stage: Stage, event: Event, context: ContextView)
    requires
        stage.terminal(),
    ensures
        stage.step(event, context) == (Step { stage, context, action: None }),
{
}

/// A step keeps the settings and the capacity, and keeps the cache well formed.
pub proof fn lemma_step_keeps_context(stage: Stage, event: Event, context: ContextView)
    requires
        context.well_formed(),
    ensures
        stage.step(event, context).context.well_formed(),
        stage.step(event, context).context.config == context.config,
        stage.step(event, context).context.capacity == context.capacity,
{
    match (stage, event) {
        (Stage::Routing, Event::Resolved { dst: Some(dst) }) => {
            lemma_refreshed(context.cached, dst.key());
        },
        (Stage::ConnectingDirect { dst, .. }, Event::DeadlineElapsed) => {
            lemma_inserted(context.cached, dst.key(), context.capacity);
        },
        _ => {},
    }
}

/// The cache is touched at two moments only: when the route is decided with
/// `autoproxy` set, and when the deadline of a direct connection passes.
pub proof fn lemma_what_touches_the_cache(stage: Stage, event: Event, context: ContextView)
    ensures
        stage.step(event, context).context != context ==> (stage is Routing && event is Resolved
            && context.config.autoproxy) || (stage is ConnectingDirect && event is DeadlineElapsed),
{
}

/// The direct path. A destination that is not remembered, with `autoproxy`
/// set, is tried directly within the configured timeout; when that connection
/// stands it is handed to the relay, and the relay's counts are the result. The
/// cache is the same at the end as at the start.
pub proof fn lemma_direct_path(
    context: ContextView,
    dst: SocketAddress,
    client_to_upstream: u64,
    upstream_to_client: u64,
)
    requires
        context.config.autoproxy,
        !context.remembers(dst),
    ensures
        ({
            let routed = Stage::Routing.step(Event::Resolved { dst: Some(dst) }, context);
            let connected = routed.stage.step(Event::Connected, routed.context);
            let relayed = connected.stage.step(
                Event::RelayDone { client_to_upstream, upstream_to_client },
                connected.context,
            );
            &&& routed.action == Some(
                Action::ConnectDirect { dst, deadline: context.config.timeout },
            )
            &&& connected.action == Some(Action::Relay { upstream: Upstream::Direct })
            &&& relayed.action == Some(Action::Finish { client_to_upstream, upstream_to_client })
            &&& relayed.stage == Stage::Done { client_to_upstream, upstream_to_client }
            &&& relayed.context == context
        }),
{
}

/// The fallback. When the deadline of a direct connection passes, the
/// destination is marked in the cache and a new connection to the proxy is
/// asked for; when that one stands, the proxy is asked for a tunnel to the same
/// destination. The destination is remembered from the moment the deadline
/// passes.
pub proof fn lemma_deadline_falls_back(context: ContextView, dst: SocketAddress)
    requires
        context.well_formed(),
        context.config.autoproxy,
        context.config.timeout is Some,
        !context.remembers(dst),
    ensures
        ({
            let routed = Stage::Routing.step(Event::Resolved { dst: Some(dst) }, context);
            let elapsed = routed.stage.step(Event::DeadlineElapsed, routed.context);
            let connected = elapsed.stage.step(Event::Connected, elapsed.context);
            &&& routed.action == Some(
                Action::ConnectDirect { dst, deadline: context.config.timeout },
            )
            &&& elapsed.context == context.marked(dst)
            &&& elapsed.context.remembers(dst)
            &&& elapsed.action == Some(Action::ConnectProxy { proxy: context.config.proxy })
            &&& connected.action == Some(Action::Handshake { target: dst })
            &&& connected.context == elapsed.context
        }),
{
    lemma_inserted_is_held(context.cached, dst.key(), context.capacity);
}

/// Once a connection is past the direct attempt, no event makes it connect
/// directly, and none touches the cache.
pub proof fn lemma_no_way_back(stage: Stage, events: Seq<Event>, context: ContextView)
    requires
        stage.rank() >= 2,
    ensures
        stage.run(events, context).stage.rank() >= 2,
        stage.run(events, context).context == context,
        !connects_directly(stage.run(events, context).actions),
    decreases events.len(),
{
    if events.len() > 0 {
        lemma_no_way_back(stage, events.drop_last(), context);
    }
}

/// A remembered destination is not tried directly. With `autoproxy` set, the
/// connection to the proxy is asked for at once, and whatever happens
/// afterwards, no direct connection is.
pub proof fn lemma_remembered_skips_direct(
    context: ContextView,
    dst: SocketAddress,
    events: Seq<Event>,
)
    requires
        context.config.autoproxy,
        context.remembers(dst),
    ensures
        ({
            let routed = Stage::Routing.step(Event::Resolved { dst: Some(dst) }, context);
            &&& routed.stage == Stage::ConnectingProxy { dst }
            &&& routed.action == Some(Action::ConnectProxy { proxy: context.config.proxy })
            &&& !connects_directly(routed.stage.run(events, routed.context).actions)
        }),
{
    let routed = Stage::Routing.step(Event::Resolved { dst: Some(dst) }, context);
    lemma_no_way_back(routed.stage, events, routed.context);
}

/// Without `autoproxy`, a connection that is not on the direct path never gets
/// there, and leaves the cache as it is.
proof fn lemma_never_direct(stage: Stage, events: Seq<Event>, context: ContextView)
    requires
        !context.config.autoproxy,
        !(stage is ConnectingDirect),
    ensures
        !(stage.run(events, context).stage is ConnectingDirect),
        stage.run(events, context).context == context,
        !connects_directly(stage.run(events, context).actions),
    decreases events.len(),
{
    if events.len() > 0 {
        lemma_never_direct(stage, events.drop_last(), context);
    }
}

/// Without `autoproxy` the cache plays no part. Whatever it holds, a
/// connection whose destination is known goes to the proxy at once; and
/// whatever the events are, no connection is tried directly and the cache stays
/// exactly as it was.
pub proof fn lemma_proxy_only(context: ContextView, dst: SocketAddress, events: Seq<Event>)
    requires
        !context.config.autoproxy,
    ensures
        ({
            let routed = Stage::Routing.step(Event::Resolved { dst: Some(dst) }, context);
            &&& routed.stage == Stage::ConnectingProxy { dst }
            &&& routed.action == Some(Action::ConnectProxy { proxy: context.config.proxy })
            &&& routed.context == context
        }),
        Stage::Routing.run(events, context).context == context,
        !connects_directly(Stage::Routing.run(events, context).actions),
{
    lemma_never_direct(Stage::Routing, events, context);
}

/// What one connection has learnt serves the next. After the deadline of a
/// direct connection to a destination has passed, a later connection to the
/// same endpoint goes to the proxy at once, as long as the destination has not
/// been forgotten in between.
pub proof fn lemma_fallback_is_remembered(
    context: ContextView,
    dst: SocketAddress,
    deadline: u64,
    again: SocketAddress,
)
    requires
        context.well_formed(),
        context.config.autoproxy,
        again.same_endpoint(dst),
    ensures
        ({
            let elapsed = (Stage::ConnectingDirect { dst, deadline: Some(deadline) }).step(
                Event::DeadlineElapsed,
                context,
            );
            let routed = Stage::Routing.step(Event::Resolved { dst: Some(again) }, elapsed.context);
            &&& routed.stage == Stage::ConnectingProxy { dst: again }
            &&& routed.action == Some(Action::ConnectProxy { proxy: context.config.proxy })
        }),
{
    lemma_inserted_is_held(context.cached, dst.key(), context.capacity);
}

/// The routing of one accepted connection.
pub struct TcpConnect {
    stage: Stage,
}

impl View for TcpConnect {
    type V = Stage;

    closed spec fn view(&self) -> Stage {
        self.stage
    }
}

impl TcpConnect {
    /// A connection that has just been accepted.
    pub fn new() -> (attempt: Self)
        ensures
            attempt@ == Stage::Routing,
    {
        TcpConnect { stage: Stage::Routing }
    }

    /// Starts the routing of an accepted connection whose original destination
    /// was looked up, with `resolved` as the answer. Where there is none the
    /// connection fails at once. Otherwise the route is decided, and the action
    /// is the connection to make: to the destination, or to the proxy.
    pub fn connect(resolved: Option<SocketAddress>, context: &mut Context) -> (started: (
        Self,
        Action,
    ))
        ensures
            started.0@ == Stage::Routing.step(
                Event::Resolved { dst: resolved },
                old(context)@,
            ).stage,
            Some(started.1) == Stage::Routing.step(
                Event::Resolved { dst: resolved },
                old(context)@,
            ).action,
            final(context)@ == Stage::Routing.step(
                Event::Resolved { dst: resolved },
                old(context)@,
            ).context,
            final(context)@.well_formed(),
    {
        let mut attempt = TcpConnect::new();
        let action = attempt.step(Event::Resolved { dst: resolved }, context);
        (attempt, action.unwrap())
    }

    /// The stage at which the connection stands.
    pub fn stage(&self) -> (stage: Stage)
        ensures
            stage == self@,
    {
        self.stage
    }

    /// Takes in the event that ended the last piece of outside work, moves to
    /// the next stage and answers with the next piece of work. An event that
    /// the stage does not wait for changes nothing and is answered with `None`.
    pub fn step(&mut self, event: Event, context: &mut Context) -> (action: Option<Action>)
        ensures
            final(self)@ == old(self)@.step(event, old(context)@).stage,
            final(context)@ == old(self)@.step(event, old(context)@).context,
            action == old(self)@.step(event, old(context)@).action,
            final(context)@.well_formed(),
            action is Some <==> old(self)@.awaits(event),
            old(self)@ matches Stage::ConnectingDirect { dst, deadline: Some(_) } ==> (event
                is DeadlineElapsed ==> final(context)@.remembers(dst)),
    {
        proof {
            use_type_invariant(&*context);
            lemma_step_goes_on_or_stays(self@, event, context@);
        }
        let (next, action) = match (self.stage, event) {
            (Stage::Routing, Event::Resolved { dst: Some(dst) }) => match context.decide(&dst) {
                RouteDecision::DirectWithDeadline(deadline) => (
                    Stage::ConnectingDirect { dst, deadline },
                    Action::ConnectDirect { dst, deadline },
                ),
                RouteDecision::ProxyOnly => (
                    Stage::ConnectingProxy { dst },
                    Action::ConnectProxy { proxy: *context.proxy() },
                ),
            },
            (Stage::Routing, Event::Resolved { dst: None }) => (
                Stage::Failed { cause: Failure::Resolve },
                Action::Fail { cause: Failure::Resolve },
            ),
            (Stage::ConnectingDirect { .. }, Event::Connected) => (
                Stage::Relaying { upstream: Upstream::Direct },
                Action::Relay { upstream: Upstream::Direct },
            ),
            (Stage::ConnectingDirect { dst, deadline: Some(_) }, Event::DeadlineElapsed) => {
                context.put_addr(&dst);
                (Stage::ConnectingProxy { dst }, Action::ConnectProxy { proxy: *context.proxy() })
            },
            (Stage::ConnectingDirect { .. }, Event::ConnectFailed) => (
                Stage::Failed { cause: Failure::DirectConnect },
                Action::Fail { cause: Failure::DirectConnect },
            ),
            (Stage::ConnectingProxy { dst }, Event::Connected) => (
                Stage::Handshaking { dst },
                Action::Handshake { target: dst },
            ),
            (Stage::ConnectingProxy { .. }, Event::ConnectFailed) => (
                Stage::Failed { cause: Failure::ProxyConnect },
                Action::Fail { cause: Failure::ProxyConnect },
            ),
            (Stage::Handshaking { .. }, Event::HandshakeDone) => (
                Stage::Relaying { upstream: Upstream::Tunnel },
                Action::Relay { upstream: Upstream::Tunnel },
            ),
            (Stage::Handshaking { .. }, Event::HandshakeFailed) => (
                Stage::Failed { cause: Failure::Handshake },
                Action::Fail { cause: Failure::Handshake },
            ),
            (
                Stage::Relaying { .. },
                Event::RelayDone { client_to_upstream, upstream_to_client },
            ) => (
                Stage::Done { client_to_upstream, upstream_to_client },
                Action::Finish { client_to_upstream, upstream_to_client },
            ),
            (
                Stage::Relaying { .. },
                Event::RelayFailed { client_to_upstream, upstream_to_client },
            ) => (
                Stage::Failed {
                    cause: Failure::Relay { client_to_upstream, upstream_to_client },
                },
                Action::Fail { cause: Failure::Relay { client_to_upstream, upstream_to_client } },
            ),
            _ => {
                return None;
            },
        };
        self.stage = next;
        Some(action)
    }
}

} // verus!
