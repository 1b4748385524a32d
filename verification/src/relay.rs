//! The relay between a client and its upstream: two independent directions,
//! each copying until its source ends and then closing the write side of its
//! sink, and a result once both are over.
//!
//! The relay decides and the transport acts: it reads, writes and shuts down as
//! it is told, and reports how each of these went.

use vstd::prelude::*;

verus! {

/// One of the two directions in which a relay carries bytes.
#[derive(Clone, Copy, Debug, PartialEq, Eq, Structural)]
pub enum Direction {
    ClientToUpstream,
    UpstreamToClient,
}

/// How far one direction has come.
#[derive(Clone, Copy, Debug, PartialEq, Eq, Structural)]
pub enum Phase {
    /// A read from the source is awaited.
    Reading,
    /// A chunk of `len` bytes was read, and its writing to the sink is awaited.
    Writing { len: u64 },
    /// The source has ended, and the shutdown of the sink's write side is
    /// awaited.
    Closing,
    /// The write side of the sink is shut down. The direction is over.
    Closed,
    /// A transport error has ended the direction.
    Failed,
}

/// One direction of a relay: its phase, and the bytes it has carried so far,
/// which are those that were read from the source and written to the sink.
#[derive(Clone, Copy, Debug, PartialEq, Eq, Structural)]
pub struct Half {
    pub phase: Phase,
    pub bytes: u64,
}

/// What the transport reports of one direction.
#[derive(Clone, Copy, Debug, PartialEq, Eq, Structural)]
pub enum Signal {
    /// A read from the source gave this many bytes. None means that the source
    /// has reached its end.
    Read(u64),
    /// The chunk that was read last is written to the sink, all of it.
    Written,
    /// The write side of the sink is shut down.
    HalfClosed,
    /// Reading, writing or shutting down has failed.
    Error,
}

/// A signal together with the direction it is about.
#[derive(Clone, Copy, Debug, PartialEq, Eq, Structural)]
pub struct RelayEvent {
    pub direction: Direction,
    pub signal: Signal,
}

/// How a relay ended.
#[derive(Clone, Copy, Debug, PartialEq, Eq, Structural)]
pub enum Outcome {
    /// Both directions ran to their end. The counts are the bytes carried.
    Done { client_to_upstream: u64, upstream_to_client: u64 },
    /// A direction failed; `first` is the one that failed first. The counts are
    /// the bytes carried up to the end of each direction.
    Failed { first: Direction, client_to_upstream: u64, upstream_to_client: u64 },
}

/// What the transport is to do next for the direction that an event was about.
#[derive(Clone, Copy, Debug, PartialEq, Eq, Structural)]
pub enum RelayAction {
    /// Read a chunk from the source.
    Read,
    /// Write the chunk that was read last, of this many bytes, to the sink.
    Write { len: u64 },
    /// Shut down the write side of the sink, and only that.
    HalfClose,
    /// Nothing: this direction is over, and the other one is not.
    Wait,
    /// Nothing: both directions are over, with this result.
    Complete(Outcome),
}

impl Half {
    /// A direction that has not carried anything yet.
    pub open spec fn fresh() -> Half {
        Half { phase: Phase::Reading, bytes: 0 }
    }

    /// Whether the direction has ended, cleanly or not.
    pub open spec fn over(self) -> bool {
        self.phase is Closed || self.phase is Failed
    }

    /// Whether the signal is one that can come in the direction's phase: the
    /// result of what is awaited, or an error. A direction that is over takes
    /// none.
    pub open spec fn accepts(self, signal: Signal) -> bool {
        match self.phase {
            Phase::Reading => signal is Read || signal is Error,
            Phase::Writing { .. } => signal is Written || signal is Error,
            Phase::Closing => signal is HalfClosed || signal is Error,
            Phase::Closed | Phase::Failed => false,
        }
    }

    /// The direction after a signal. A chunk that was read is to be written; a
    /// chunk that was written is counted, and the next is to be read; the end
    /// of the source is answered by closing; an error ends the direction. A
    /// signal that the direction does not accept changes nothing.
    pub open spec fn after(self, signal: Signal) -> Half {
        if !self.accepts(signal) {
            self
        } else {
            match (self.phase, signal) {
                (_, Signal::Read(len)) => if len == 0 {
                    Half { phase: Phase::Closing, ..self }
                } else {
                    Half { phase: Phase::Writing { len }, ..self }
                },
                (Phase::Writing { len }, Signal::Written) => Half {
                    phase: Phase::Reading,
                    bytes: (self.bytes + len) as u64,
                },
                (_, Signal::HalfClosed) => Half { phase: Phase::Closed, ..self },
                _ => Half { phase: Phase::Failed, ..self },
            }
        }
    }

    /// The direction after a run of signals, taken in order.
    pub open spec fn after_all(self, signals: Seq<Signal>) -> Half
        decreases signals.len(),
    {
        if signals.len() == 0 {
            self
        } else {
            self.after_all(signals.drop_last()).after(signals.last())
        }
    }

    /// What the transport is to do for a direction in this phase.
    pub open spec fn spec_task(&self) -> Option<RelayAction> {
        match self.phase {
            Phase::Reading => Some(RelayAction::Read),
            Phase::Writing { len } => Some(RelayAction::Write { len }),
            Phase::Closing => Some(RelayAction::HalfClose),
            Phase::Closed | Phase::Failed => None,
        }
    }

    /// Whether the signal would make the byte count too large for its type.
    pub open spec fn overflows(self, signal: Signal) -> bool {
        signal is Written && (self.phase matches Phase::Writing { len } && self.bytes + len
            > u64::MAX)
    }

    /// Tells whether the signal would make the byte count too large for its
    /// type.
    pub fn would_overflow(&self, signal: Signal) -> (overflow: bool)
        ensures
            overflow == self.overflows(signal),
    {
        match (self.phase, signal) {
            (Phase::Writing { len }, Signal::Written) => len > u64::MAX - self.bytes,
            _ => false,
        }
    }

    /// What the transport is to do for a direction in this phase: nothing once
    /// it is over.
    #[verifier::when_used_as_spec(spec_task)]
    pub fn task(&self) -> (task: Option<RelayAction>)
        ensures
            task == self.spec_task(),
    {
        match self.phase {
            Phase::Reading => Some(RelayAction::Read),
            Phase::Writing { len } => Some(RelayAction::Write { len }),
            Phase::Closing => Some(RelayAction::HalfClose),
            Phase::Closed | Phase::Failed => None,
        }
    }

    /// Tells whether the direction has ended, cleanly or not.
    pub fn is_over(&self) -> (over: bool)
        ensures
            over == self.over(),
    {
        match self.phase {
            Phase::Closed | Phase::Failed => true,
            Phase::Reading | Phase::Writing { .. } | Phase::Closing => false,
        }
    }
}

/// The state of a relay: its two directions, and which of them failed first,
/// if one has failed.
#[derive(Clone, Copy, Debug, PartialEq, Eq)]
pub struct RelayState {
    pub client_to_upstream: Half,
    pub upstream_to_client: Half,
    pub first_failure: Option<Direction>,
}

impl RelayState {
    /// The state of a relay that has just been started.
    pub open spec fn fresh() -> RelayState {
        RelayState {
            client_to_upstream: Half::fresh(),
            upstream_to_client: Half::fresh(),
            first_failure: None,
        }
    }

    /// The given direction.
    pub open spec fn half(self, direction: Direction) -> Half {
        match direction {
            Direction::ClientToUpstream => self.client_to_upstream,
            Direction::UpstreamToClient => self.upstream_to_client,
        }
    }

    /// A failure is on record exactly when a direction has failed, and the
    /// direction on record is one that has.
    pub open spec fn well_formed(self) -> bool {
        match self.first_failure {
            Some(first) => self.half(first).phase is Failed,
            None => !(self.client_to_upstream.phase is Failed) && !(
            self.upstream_to_client.phase is Failed),
        }
    }

    /// The relay after an event: the direction that the event is about moves as
    /// `Half::after` says, the other direction stays as it is, and the first
    /// failure goes on record.
    pub open spec fn after(self, event: RelayEvent) -> RelayState {
        let half = self.half(event.direction).after(event.signal);
        let first_failure = if self.first_failure is None && half.phase is Failed {
            Some(event.direction)
        } else {
            self.first_failure
        };
        match event.direction {
            Direction::ClientToUpstream => RelayState {
                client_to_upstream: half,
                first_failure,
                ..self
            },
            Direction::UpstreamToClient => RelayState {
                upstream_to_client: half,
                first_failure,
                ..self
            },
        }
    }

    /// The relay after a run of events, taken in order.
    pub open spec fn after_all(self, events: Seq<RelayEvent>) -> RelayState
        decreases events.len(),
    {
        if events.len() == 0 {
            self
        } else {
            self.after_all(events.drop_last()).after(events.last())
        }
    }

    /// The result of the relay: none until both directions are over. Then it is
    /// a failure if a direction has failed, and the counts of both directions
    /// come with it either way.
    pub open spec fn outcome(self) -> Option<Outcome> {
        if self.client_to_upstream.over() && self.upstream_to_client.over() {
            Some(
                match self.first_failure {
                    Some(first) => Outcome::Failed {
                        first,
                        client_to_upstream: self.client_to_upstream.bytes,
                        upstream_to_client: self.upstream_to_client.bytes,
                    },
                    None => Outcome::Done {
                        client_to_upstream: self.client_to_upstream.bytes,
                        upstream_to_client: self.upstream_to_client.bytes,
                    },
                },
            )
        } else {
            None
        }
    }

    /// What the transport is to do after an event. Nothing is owed for an event
    /// that its direction does not accept. Otherwise it is the task of the
    /// direction's new phase, and once the direction is over, the result of the
    /// relay or the wait for the other direction.
    pub open spec fn reaction(self, event: RelayEvent) -> Option<RelayAction> {
        if !self.half(event.direction).accepts(event.signal) {
            None
        } else {
            let next = self.after(event);
            Some(
                match (next.half(event.direction).task(), next.outcome()) {
                    (Some(task), _) => task,
                    (None, Some(outcome)) => RelayAction::Complete(outcome),
                    (None, None) => RelayAction::Wait,
                },
            )
        }
    }
}

/// A relay between a client and its upstream.
pub struct Relay {
    state: RelayState,
}

impl View for Relay {
    type V = RelayState;

    closed spec fn view(&self) -> RelayState {
        self.state
    }
}

/// Starts a relay: both directions are to read, and nothing has been carried.
pub fn transport() -> (relay: Relay)
    ensures
        relay@ == RelayState::fresh(),
{
    Relay {
        state: RelayState {
            client_to_upstream: Half { phase: Phase::Reading, bytes: 0 },
            upstream_to_client: Half { phase: Phase::Reading, bytes: 0 },
            first_failure: None,
        },
    }
}

impl Relay {
    #[verifier::type_invariant]
    spec fn inv(&self) -> bool {
        self.state.well_formed()
    }

    /// The state of the relay.
    pub fn state(&self) -> (state: RelayState)
        ensures
            state == self@,
            state.well_formed(),
    {
        proof {
            use_type_invariant(self);
        }
        self.state
    }

    /// The given direction.
    pub fn half(&self, direction: Direction) -> (half: Half)
        ensures
            half == self@.half(direction),
    {
        match direction {
            Direction::ClientToUpstream => self.state.client_to_upstream,
            Direction::UpstreamToClient => self.state.upstream_to_client,
        }
    }

    /// The result of the relay, once both directions are over.
    pub fn outcome(&self) -> (outcome: Option<Outcome>)
        ensures
            outcome == self@.outcome(),
    {
        let state = self.state;
        if state.client_to_upstream.is_over() && state.upstream_to_client.is_over() {
            Some(
                match state.first_failure {
                    Some(first) => Outcome::Failed {
                        first,
                        client_to_upstream: state.client_to_upstream.bytes,
                        upstream_to_client: state.upstream_to_client.bytes,
                    },
                    None => Outcome::Done {
                        client_to_upstream: state.client_to_upstream.bytes,
                        upstream_to_client: state.upstream_to_client.bytes,
                    },
                },
            )
        } else {
            None
        }
    }

    /// Takes in an event and says what the transport is to do next for the
    /// direction that the event is about. An event that the direction does not
    /// accept changes nothing and is answered with `None`.
    pub fn step(&mut self, event: RelayEvent) -> (action: Option<RelayAction>)
        requires
            !old(self)@.half(event.direction).overflows(event.signal),
        ensures
            final(self)@ == old(self)@.after(event),
            action == old(self)@.reaction(event),
            final(self)@.well_formed(),
    {
        proof {
            use_type_invariant(&*self);
        }
        let half = self.half(event.direction);
        let next = match (half.phase, event.signal) {
            (Phase::Reading, Signal::Read(len)) => if len == 0 {
                Half { phase: Phase::Closing, bytes: half.bytes }
            } else {
                Half { phase: Phase::Writing { len }, bytes: half.bytes }
            },
            (Phase::Writing { len }, Signal::Written) => Half {
                phase: Phase::Reading,
                bytes: half.bytes + len,
            },
            (Phase::Closing, Signal::HalfClosed) => Half {
                phase: Phase::Closed,
                bytes: half.bytes,
            },
            (Phase::Reading, Signal::Error)
            | (Phase::Writing { .. }, Signal::Error)
            | (Phase::Closing, Signal::Error) => Half { phase: Phase::Failed, bytes: half.bytes },
            _ => {
                return None;
            },
        };
        let first_failure = match (self.state.first_failure, next.phase) {
            (None, Phase::Failed) => Some(event.direction),
            (first_failure, _) => first_failure,
        };
        self.state = match event.direction {
            Direction::ClientToUpstream => RelayState {
                client_to_upstream: next,
                upstream_to_client: self.state.upstream_to_client,
                first_failure,
            },
            Direction::UpstreamToClient => RelayState {
                client_to_upstream: self.state.client_to_upstream,
                upstream_to_client: next,
                first_failure,
            },
        };
        Some(
            match (next.task(), self.outcome()) {
                (Some(task), _) => task,
                (None, Some(outcome)) => RelayAction::Complete(outcome),
                (None, None) => RelayAction::Wait,
            },
        )
    }
}

/// The signals about one direction among a run of events, in their order.
pub open spec fn signals_of(events: Seq<RelayEvent>, direction: Direction) -> Seq<Signal>
    decreases events.len(),
{
    if events.len() == 0 {
        Seq::empty()
    } else if events.last().direction == direction {
        signals_of(events.drop_last(), direction).push(events.last().signal)
    } else {
        signals_of(events.drop_last(), direction)
    }
}

/// The signals of a direction that carries the given chunks, none of them
/// empty: each is read and then written.
pub open spec fn carried(chunks: Seq<u64>) -> Seq<Signal>
    decreases chunks.len(),
{
    if chunks.len() == 0 {
        Seq::empty()
    } else {
        carried(chunks.drop_last()).push(Signal::Read(chunks.last())).push(Signal::Written)
    }
}

/// The signals of a direction whose source sends the given chunks and then
/// ends, and whose sink is then half-closed.
pub open spec fn stream(chunks: Seq<u64>) -> Seq<Signal> {
    carried(chunks).push(Signal::Read(0)).push(Signal::HalfClosed)
}

/// The number of bytes in the given chunks.
pub open spec fn total(chunks: Seq<u64>) -> nat
    decreases chunks.len(),
{
    if chunks.len() == 0 {
        0
    } else {
        total(chunks.drop_last()) + chunks.last() as nat
    }
}

/// An event keeps a relay well formed.
pub proof fn lemma_after_is_well_formed(state: RelayState, event: RelayEvent)
    requires
        state.well_formed(),
    ensures
        state.after(event).well_formed(),
{
}

/// A relay stays well formed over any run of events.
pub proof fn lemma_run_is_well_formed(state: RelayState, events: Seq<RelayEvent>)
    requires
        state.well_formed(),
    ensures
        state.after_all(events).well_formed(),
    decreases events.len(),
{
    if events.len() > 0 {
        lemma_run_is_well_formed(state, events.drop_last());
    }
}

/// A direction that is over stays as it is, and the failure that is on record
/// stays on record: a later failure of the other direction does not replace it.
/// A relay that has its result takes no event.
pub proof fn lemma_over_is_final(state: RelayState, event: RelayEvent)
    requires
        state.well_formed(),
    ensures
        state.half(event.direction).over() ==> state.after(event) == state,
        state.first_failure is Some ==> state.after(event).first_failure == state.first_failure,
        state.outcome() is Some ==> state.after(event) == state && state.reaction(event) is None,
{
}

/// The relay has its result only when both directions are over, and as soon as
/// they are.
pub proof fn lemma_complete_when_both_are_over(state: RelayState, event: RelayEvent)
    ensures
        state.reaction(event) matches Some(RelayAction::Complete(outcome)) ==> {
            &&& state.after(event).client_to_upstream.over()
            &&& state.after(event).upstream_to_client.over()
            &&& state.after(event).outcome() == Some(outcome)
        },
        state.reaction(event) is Some && state.after(event).client_to_upstream.over()
            && state.after(event).upstream_to_client.over() ==> state.reaction(event) matches Some(
            RelayAction::Complete(_),
        ),
{
}

/// The two directions do not touch each other: whatever the events and however
/// they interleave, a direction ends up where its own signals alone take it.
pub proof fn lemma_directions_are_independent(
    state: RelayState,
    events: Seq<RelayEvent>,
    direction: Direction,
)
    ensures
        state.after_all(events).half(direction) == state.half(direction).after_all(
            signals_of(events, direction),
        ),
    decreases events.len(),
{
    if events.len() > 0 {
        lemma_directions_are_independent(state, events.drop_last(), direction);
        let signals = signals_of(events, direction);
        if events.last().direction == direction {
            assert(signals.drop_last() == signals_of(events.drop_last(), direction));
        }
    }
}

/// Every byte is counted: a direction that has carried the given chunks is
/// ready to read the next and has counted their total.
pub proof fn lemma_chunks_are_counted(chunks: Seq<u64>)
    requires
        total(chunks) <= u64::MAX,
        forall|i: int| 0 <= i < chunks.len() ==> chunks[i] > 0,
    ensures
        Half::fresh().after_all(carried(chunks)) == (Half {
            phase: Phase::Reading,
            bytes: total(chunks) as u64,
        }),
    decreases chunks.len(),
{
    if chunks.len() > 0 {
        let earlier = carried(chunks.drop_last());
        let read = earlier.push(Signal::Read(chunks.last()));
        lemma_chunks_are_counted(chunks.drop_last());
        assert(read.drop_last() == earlier);
        assert(Half::fresh().after_all(read) == Half::fresh().after_all(earlier).after(
            Signal::Read(chunks.last()),
        ));
        assert(carried(chunks).drop_last() == read);
        assert(Half::fresh().after_all(carried(chunks)) == Half::fresh().after_all(read).after(
            Signal::Written,
        ));
    }
}

/// A direction whose source sends the given chunks and ends, and whose sink is
/// then half-closed, is closed and has counted the chunks' total.
pub proof fn lemma_stream_is_counted(chunks: Seq<u64>)
    requires
        total(chunks) <= u64::MAX,
        forall|i: int| 0 <= i < chunks.len() ==> chunks[i] > 0,
    ensures
        Half::fresh().after_all(stream(chunks)) == (Half {
            phase: Phase::Closed,
            bytes: total(chunks) as u64,
        }),
{
    let ended = carried(chunks).push(Signal::Read(0));
    lemma_chunks_are_counted(chunks);
    assert(ended.drop_last() == carried(chunks));
    assert(Half::fresh().after_all(ended) == Half::fresh().after_all(carried(chunks)).after(
        Signal::Read(0),
    ));
    assert(stream(chunks).drop_last() == ended);
    assert(Half::fresh().after_all(stream(chunks)) == Half::fresh().after_all(ended).after(
        Signal::HalfClosed,
    ));
}

/// A direction goes on while the other is closing, closed or failed: what it
/// is told to do after a signal depends on nothing but its own phase and the
/// signal, as long as it is not over.
pub proof fn lemma_direction_goes_on(state: RelayState, other: RelayState, event: RelayEvent)
    requires
        state.half(event.direction) == other.half(event.direction),
        !state.after(event).half(event.direction).over(),
    ensures
        state.reaction(event) == other.reaction(event),
        state.reaction(event) == if state.half(event.direction).accepts(event.signal) {
            state.half(event.direction).after(event.signal).task()
        } else {
            None
        },
{
}

/// Half-close: where the client sends its chunks and ends, and the upstream
/// sends its chunks and ends, in whatever order the events of the two
/// directions come, the relay ends well and reports for each direction the
/// total of what its source sent.
pub proof fn lemma_half_close(
    events: Seq<RelayEvent>,
    from_client: Seq<u64>,
    from_upstream: Seq<u64>,
)
    requires
        signals_of(events, Direction::ClientToUpstream) == stream(from_client),
        signals_of(events, Direction::UpstreamToClient) == stream(from_upstream),
        forall|i: int| 0 <= i < from_client.len() ==> from_client[i] > 0,
        forall|i: int| 0 <= i < from_upstream.len() ==> from_upstream[i] > 0,
        total(from_client) <= u64::MAX,
        total(from_upstream) <= u64::MAX,
    ensures
        RelayState::fresh().after_all(events).outcome() == Some(
            Outcome::Done {
                client_to_upstream: total(from_client) as u64,
                upstream_to_client: total(from_upstream) as u64,
            },
        ),
{
    lemma_directions_are_independent(RelayState::fresh(), events, Direction::ClientToUpstream);
    lemma_directions_are_independent(RelayState::fresh(), events, Direction::UpstreamToClient);
    lemma_stream_is_counted(from_client);
    lemma_stream_is_counted(from_upstream);
    lemma_run_is_well_formed(RelayState::fresh(), events);
}

} // verus!
