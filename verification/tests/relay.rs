use redirector::relay::{
    transport, Direction, Half, Outcome, Phase, Relay, RelayAction, RelayEvent, Signal,
};
use redirector::tcp::Event;

fn up(signal: Signal) -> RelayEvent {
    RelayEvent { direction: Direction::ClientToUpstream, signal }
}

fn down(signal: Signal) -> RelayEvent {
    RelayEvent { direction: Direction::UpstreamToClient, signal }
}

fn feed(relay: &mut Relay, events: &[RelayEvent]) -> Vec<Option<RelayAction>> {
    events.iter().map(|event| relay.step(*event)).collect()
}

#[test]
fn fresh_relay_reads_both_ways() {
    let relay = transport();
    let state = relay.state();
    assert_eq!(state.client_to_upstream, Half { phase: Phase::Reading, bytes: 0 });
    assert_eq!(state.upstream_to_client, Half { phase: Phase::Reading, bytes: 0 });
    assert_eq!(state.first_failure, None);
    assert_eq!(relay.outcome(), None);
    assert!(!state.client_to_upstream.is_over());
    assert_eq!(relay.half(Direction::ClientToUpstream), state.client_to_upstream);
    assert_eq!(relay.half(Direction::UpstreamToClient), state.upstream_to_client);
    assert_eq!(relay.half(Direction::ClientToUpstream).task(), Some(RelayAction::Read));
    assert_eq!(relay.half(Direction::UpstreamToClient).task(), Some(RelayAction::Read));
}

#[test]
fn each_phase_has_its_task() {
    let at = |phase: Phase| Half { phase, bytes: 7 }.task();
    assert_eq!(at(Phase::Reading), Some(RelayAction::Read));
    assert_eq!(at(Phase::Writing { len: 3 }), Some(RelayAction::Write { len: 3 }));
    assert_eq!(at(Phase::Closing), Some(RelayAction::HalfClose));
    assert_eq!(at(Phase::Closed), None);
    assert_eq!(at(Phase::Failed), None);
    assert!(Half { phase: Phase::Closed, bytes: 0 }.is_over());
    assert!(Half { phase: Phase::Failed, bytes: 0 }.is_over());
    assert!(!Half { phase: Phase::Closing, bytes: 0 }.is_over());
    assert!(!Half { phase: Phase::Writing { len: 1 }, bytes: 0 }.is_over());
}

#[test]
fn chunk_is_written_before_the_next_is_read() {
    let mut relay = transport();
    assert_eq!(relay.step(up(Signal::Read(100))), Some(RelayAction::Write { len: 100 }));
    assert_eq!(
        relay.half(Direction::ClientToUpstream),
        Half { phase: Phase::Writing { len: 100 }, bytes: 0 }
    );
    assert_eq!(relay.step(up(Signal::Read(5))), None);
    assert_eq!(relay.step(up(Signal::Written)), Some(RelayAction::Read));
    assert_eq!(
        relay.half(Direction::ClientToUpstream),
        Half { phase: Phase::Reading, bytes: 100 }
    );
    assert_eq!(relay.step(up(Signal::Written)), None);
    assert_eq!(relay.half(Direction::UpstreamToClient), Half { phase: Phase::Reading, bytes: 0 });
}

#[test]
fn half_close_leaves_the_other_direction_running() {
    let mut relay = transport();
    let actions = feed(
        &mut relay,
        &[
            up(Signal::Read(100)),
            down(Signal::Read(10)),
            up(Signal::Written),
            down(Signal::Written),
            up(Signal::Read(23)),
            up(Signal::Written),
            up(Signal::Read(0)),
            up(Signal::HalfClosed),
            down(Signal::Read(1000)),
            down(Signal::Written),
            down(Signal::Read(2000)),
            down(Signal::Written),
            down(Signal::Read(0)),
        ],
    );
    assert_eq!(
        actions,
        vec![
            Some(RelayAction::Write { len: 100 }),
            Some(RelayAction::Write { len: 10 }),
            Some(RelayAction::Read),
            Some(RelayAction::Read),
            Some(RelayAction::Write { len: 23 }),
            Some(RelayAction::Read),
            Some(RelayAction::HalfClose),
            Some(RelayAction::Wait),
            Some(RelayAction::Write { len: 1000 }),
            Some(RelayAction::Read),
            Some(RelayAction::Write { len: 2000 }),
            Some(RelayAction::Read),
            Some(RelayAction::HalfClose),
        ]
    );
    assert_eq!(relay.outcome(), None);
    assert_eq!(relay.state().client_to_upstream, Half { phase: Phase::Closed, bytes: 123 });
    let done = Outcome::Done { client_to_upstream: 123, upstream_to_client: 3010 };
    assert_eq!(relay.step(down(Signal::HalfClosed)), Some(RelayAction::Complete(done)));
    assert_eq!(relay.outcome(), Some(done));
    assert_eq!(relay.step(down(Signal::Read(1))), None);
    assert_eq!(relay.outcome(), Some(done));
}

#[test]
fn empty_streams_carry_nothing() {
    let mut relay = transport();
    feed(&mut relay, &[down(Signal::Read(0)), up(Signal::Read(0)), up(Signal::HalfClosed)]);
    assert_eq!(
        relay.step(down(Signal::HalfClosed)),
        Some(RelayAction::Complete(Outcome::Done { client_to_upstream: 0, upstream_to_client: 0 }))
    );
}

#[test]
fn signals_out_of_turn_change_nothing() {
    let mut relay = transport();
    assert_eq!(relay.step(up(Signal::HalfClosed)), None);
    assert_eq!(relay.step(up(Signal::Written)), None);
    relay.step(up(Signal::Read(5)));
    relay.step(up(Signal::Written));
    relay.step(up(Signal::Read(0)));
    let before = relay.state();
    assert_eq!(relay.step(up(Signal::Read(7))), None);
    assert_eq!(relay.step(up(Signal::Written)), None);
    assert_eq!(relay.state(), before);
    relay.step(up(Signal::HalfClosed));
    let before = relay.state();
    assert_eq!(relay.step(up(Signal::Error)), None);
    assert_eq!(relay.step(up(Signal::HalfClosed)), None);
    assert_eq!(relay.state(), before);
    assert_eq!(before.client_to_upstream.bytes, 5);
    assert!(before.client_to_upstream.is_over());
}

#[test]
fn failure_lets_the_other_direction_finish() {
    let mut relay = transport();
    relay.step(up(Signal::Read(40)));
    relay.step(up(Signal::Written));
    assert_eq!(relay.step(up(Signal::Error)), Some(RelayAction::Wait));
    assert_eq!(relay.state().first_failure, Some(Direction::ClientToUpstream));
    assert_eq!(relay.outcome(), None);
    assert_eq!(relay.step(down(Signal::Read(9))), Some(RelayAction::Write { len: 9 }));
    assert_eq!(relay.step(down(Signal::Written)), Some(RelayAction::Read));
    assert_eq!(relay.step(down(Signal::Read(0))), Some(RelayAction::HalfClose));
    let failed = Outcome::Failed {
        first: Direction::ClientToUpstream,
        client_to_upstream: 40,
        upstream_to_client: 9,
    };
    assert_eq!(relay.step(down(Signal::HalfClosed)), Some(RelayAction::Complete(failed)));
    assert_eq!(relay.outcome(), Some(failed));
}

#[test]
fn chunk_that_could_not_be_written_is_not_counted() {
    let mut relay = transport();
    relay.step(up(Signal::Read(40)));
    relay.step(up(Signal::Written));
    relay.step(up(Signal::Read(60)));
    assert_eq!(relay.step(up(Signal::Error)), Some(RelayAction::Wait));
    assert_eq!(relay.half(Direction::ClientToUpstream), Half { phase: Phase::Failed, bytes: 40 });
}

#[test]
fn first_failure_is_the_one_reported() {
    let mut relay = transport();
    relay.step(up(Signal::Read(1)));
    relay.step(up(Signal::Written));
    relay.step(down(Signal::Read(2)));
    relay.step(down(Signal::Written));
    relay.step(down(Signal::Read(0)));
    assert_eq!(relay.step(down(Signal::Error)), Some(RelayAction::Wait));
    assert_eq!(
        relay.step(up(Signal::Error)),
        Some(RelayAction::Complete(Outcome::Failed {
            first: Direction::UpstreamToClient,
            client_to_upstream: 1,
            upstream_to_client: 2,
        }))
    );
    assert_eq!(relay.state().upstream_to_client.phase, Phase::Failed);
    assert_eq!(relay.state().client_to_upstream.phase, Phase::Failed);
}

#[test]
fn counts_reach_the_largest_number() {
    let mut relay = transport();
    relay.step(up(Signal::Read(u64::MAX - 1)));
    relay.step(up(Signal::Written));
    assert_eq!(relay.step(up(Signal::Read(1))), Some(RelayAction::Write { len: 1 }));
    assert!(!relay.half(Direction::ClientToUpstream).would_overflow(Signal::Written));
    assert_eq!(relay.step(up(Signal::Written)), Some(RelayAction::Read));
    assert_eq!(relay.state().client_to_upstream.bytes, u64::MAX);
    relay.step(up(Signal::Read(1)));
    let half = relay.half(Direction::ClientToUpstream);
    assert!(half.would_overflow(Signal::Written));
    assert!(!half.would_overflow(Signal::Error));
    assert!(!half.would_overflow(Signal::Read(1)));
    assert!(!relay.half(Direction::UpstreamToClient).would_overflow(Signal::Written));
}

#[test]
fn result_of_a_relay_is_an_event_for_the_router() {
    assert_eq!(
        Event::from_outcome(Outcome::Done { client_to_upstream: 3, upstream_to_client: 4 }),
        Event::RelayDone { client_to_upstream: 3, upstream_to_client: 4 }
    );
    assert_eq!(
        Event::from_outcome(Outcome::Failed {
            first: Direction::UpstreamToClient,
            client_to_upstream: 3,
            upstream_to_client: 4,
        }),
        Event::RelayFailed { client_to_upstream: 3, upstream_to_client: 4 }
    );
}
