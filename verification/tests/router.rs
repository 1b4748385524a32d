use redirector::address::SocketAddress;
use redirector::config::{Config, Type};
use redirector::context::Context;
use redirector::tcp::{Action, Event, Failure, Stage, TcpConnect, Upstream};

fn addr(ip: u32, port: u16) -> SocketAddress {
    SocketAddress::V4 { ip, port }
}

fn proxy() -> SocketAddress {
    addr(0x7f00_0001, 1081)
}

fn context(autoproxy: bool, timeout: Option<u64>) -> Context {
    Context::new(Config {
        local: addr(0x7f00_0001, 1080),
        proxy: proxy(),
        proxytype: Type::Socks5,
        autoproxy,
        timeout,
    })
}

#[test]
fn accepted_connection_waits_for_its_destination() {
    let mut context = context(true, Some(200));
    let mut attempt = TcpConnect::new();
    assert_eq!(attempt.stage(), Stage::Routing);
    assert_eq!(attempt.step(Event::Connected, &mut context), None);
    assert_eq!(attempt.step(Event::DeadlineElapsed, &mut context), None);
    assert_eq!(attempt.stage(), Stage::Routing);
    let dst = addr(0x0a00_0001, 80);
    assert_eq!(
        attempt.step(Event::Resolved { dst: Some(dst) }, &mut context),
        Some(Action::ConnectDirect { dst, deadline: Some(200) })
    );
}

#[test]
fn reachable_destination_is_served_directly() {
    let mut context = context(true, Some(200));
    let dst = addr(0x0a00_0001, 80);
    let (mut attempt, action) = TcpConnect::connect(Some(dst), &mut context);
    assert_eq!(action, Action::ConnectDirect { dst, deadline: Some(200) });
    assert_eq!(attempt.stage(), Stage::ConnectingDirect { dst, deadline: Some(200) });
    assert_eq!(
        attempt.step(Event::Connected, &mut context),
        Some(Action::Relay { upstream: Upstream::Direct })
    );
    assert_eq!(attempt.stage(), Stage::Relaying { upstream: Upstream::Direct });
    assert_eq!(
        attempt.step(
            Event::RelayDone { client_to_upstream: 12, upstream_to_client: 3400 },
            &mut context
        ),
        Some(Action::Finish { client_to_upstream: 12, upstream_to_client: 3400 })
    );
    assert_eq!(attempt.stage(), Stage::Done { client_to_upstream: 12, upstream_to_client: 3400 });
    assert!(!context.contains(&dst));
}

#[test]
fn elapsed_deadline_falls_back_to_the_proxy() {
    let mut context = context(true, Some(200));
    let dst = addr(0x0a00_0001, 443);
    let (mut attempt, action) = TcpConnect::connect(Some(dst), &mut context);
    assert_eq!(action, Action::ConnectDirect { dst, deadline: Some(200) });
    assert_eq!(
        attempt.step(Event::DeadlineElapsed, &mut context),
        Some(Action::ConnectProxy { proxy: proxy() })
    );
    assert_eq!(attempt.stage(), Stage::ConnectingProxy { dst });
    assert!(context.contains(&dst));
    assert_eq!(
        attempt.step(Event::Connected, &mut context),
        Some(Action::Handshake { target: dst })
    );
    assert_eq!(attempt.stage(), Stage::Handshaking { dst });
    assert_eq!(
        attempt.step(Event::HandshakeDone, &mut context),
        Some(Action::Relay { upstream: Upstream::Tunnel })
    );
    assert_eq!(
        attempt.step(
            Event::RelayDone { client_to_upstream: 1, upstream_to_client: 2 },
            &mut context
        ),
        Some(Action::Finish { client_to_upstream: 1, upstream_to_client: 2 })
    );
}

#[test]
fn remembered_destination_skips_the_direct_attempt() {
    let mut context = context(true, Some(200));
    let dst = addr(0x0a00_0001, 443);
    context.put_addr(&dst);
    let (attempt, action) = TcpConnect::connect(Some(dst), &mut context);
    assert_eq!(action, Action::ConnectProxy { proxy: proxy() });
    assert_eq!(attempt.stage(), Stage::ConnectingProxy { dst });
}

#[test]
fn same_destination_again_goes_to_the_proxy_at_once() {
    let mut context = context(true, Some(200));
    let dst = addr(0x0a00_0001, 443);
    let (mut first, _) = TcpConnect::connect(Some(dst), &mut context);
    first.step(Event::DeadlineElapsed, &mut context);
    let (second, action) = TcpConnect::connect(Some(dst), &mut context);
    assert_eq!(action, Action::ConnectProxy { proxy: proxy() });
    assert_eq!(second.stage(), Stage::ConnectingProxy { dst });
    let (_, other) = TcpConnect::connect(Some(addr(0x0a00_0001, 80)), &mut context);
    assert_eq!(
        other,
        Action::ConnectDirect { dst: addr(0x0a00_0001, 80), deadline: Some(200) }
    );
}

#[test]
fn without_autoproxy_the_proxy_is_the_only_route() {
    let mut context = context(false, Some(200));
    let dst = addr(0x0a00_0001, 80);
    let (mut attempt, action) = TcpConnect::connect(Some(dst), &mut context);
    assert_eq!(action, Action::ConnectProxy { proxy: proxy() });
    assert_eq!(attempt.step(Event::DeadlineElapsed, &mut context), None);
    assert_eq!(
        attempt.step(Event::Connected, &mut context),
        Some(Action::Handshake { target: dst })
    );
    assert!(!context.contains(&dst));
}

#[test]
fn direct_attempt_without_timeout_has_no_deadline() {
    let mut context = context(true, None);
    let dst = addr(0x0a00_0001, 80);
    let (mut attempt, action) = TcpConnect::connect(Some(dst), &mut context);
    assert_eq!(action, Action::ConnectDirect { dst, deadline: None });
    assert_eq!(attempt.step(Event::DeadlineElapsed, &mut context), None);
    assert_eq!(attempt.stage(), Stage::ConnectingDirect { dst, deadline: None });
    assert!(!context.contains(&dst));
}

#[test]
fn unresolved_destination_fails_the_connection() {
    let mut context = context(true, Some(200));
    let (mut attempt, action) = TcpConnect::connect(None, &mut context);
    assert_eq!(action, Action::Fail { cause: Failure::Resolve });
    assert_eq!(attempt.stage(), Stage::Failed { cause: Failure::Resolve });
    assert_eq!(attempt.step(Event::Connected, &mut context), None);
    assert_eq!(attempt.step(Event::Resolved { dst: None }, &mut context), None);
}

#[test]
fn direct_transport_error_is_fatal_without_fallback() {
    let mut context = context(true, Some(200));
    let dst = addr(0x0a00_0001, 80);
    let (mut attempt, _) = TcpConnect::connect(Some(dst), &mut context);
    assert_eq!(
        attempt.step(Event::ConnectFailed, &mut context),
        Some(Action::Fail { cause: Failure::DirectConnect })
    );
    assert_eq!(attempt.stage(), Stage::Failed { cause: Failure::DirectConnect });
    assert!(!context.contains(&dst));
    assert_eq!(attempt.step(Event::DeadlineElapsed, &mut context), None);
}

#[test]
fn proxy_transport_error_is_fatal() {
    let mut context = context(false, None);
    let (mut attempt, _) = TcpConnect::connect(Some(addr(0x0a00_0001, 80)), &mut context);
    assert_eq!(
        attempt.step(Event::ConnectFailed, &mut context),
        Some(Action::Fail { cause: Failure::ProxyConnect })
    );
    assert_eq!(attempt.step(Event::Connected, &mut context), None);
}

#[test]
fn refused_handshake_is_fatal() {
    let mut context = context(false, None);
    let (mut attempt, _) = TcpConnect::connect(Some(addr(0x0a00_0001, 80)), &mut context);
    attempt.step(Event::Connected, &mut context);
    assert_eq!(attempt.step(Event::Connected, &mut context), None);
    assert_eq!(
        attempt.step(Event::HandshakeFailed, &mut context),
        Some(Action::Fail { cause: Failure::Handshake })
    );
    assert_eq!(attempt.stage(), Stage::Failed { cause: Failure::Handshake });
}

#[test]
fn broken_relay_reports_what_was_carried() {
    let mut context = context(true, None);
    let (mut attempt, _) = TcpConnect::connect(Some(addr(0x0a00_0001, 80)), &mut context);
    attempt.step(Event::Connected, &mut context);
    assert_eq!(attempt.step(Event::HandshakeDone, &mut context), None);
    let cause = Failure::Relay { client_to_upstream: 5, upstream_to_client: 70 };
    assert_eq!(
        attempt.step(
            Event::RelayFailed { client_to_upstream: 5, upstream_to_client: 70 },
            &mut context
        ),
        Some(Action::Fail { cause })
    );
    assert_eq!(attempt.stage(), Stage::Failed { cause });
    assert_eq!(
        attempt.step(
            Event::RelayDone { client_to_upstream: 5, upstream_to_client: 70 },
            &mut context
        ),
        None
    );
}

#[test]
fn black_hole_destination_end_to_end() {
    let mut context = Context::new(Config {
        local: addr(0x7f00_0001, 1080),
        proxy: addr(0x7f00_0001, 1081),
        proxytype: Type::Socks5,
        autoproxy: true,
        timeout: Some(200),
    });
    let d = addr(0xc000_0201, 9);
    let (mut attempt, action) = TcpConnect::connect(Some(d), &mut context);
    assert_eq!(action, Action::ConnectDirect { dst: d, deadline: Some(200) });
    assert_eq!(
        attempt.step(Event::DeadlineElapsed, &mut context),
        Some(Action::ConnectProxy { proxy: addr(0x7f00_0001, 1081) })
    );
    assert!(context.contains(&d));
    assert_eq!(
        attempt.step(Event::Connected, &mut context),
        Some(Action::Handshake { target: d })
    );
}
