use redirector::address::SocketAddress;
use redirector::socks5::{connect_request, socks_connect_handshake, HandshakeError, Next};

fn target() -> SocketAddress {
    SocketAddress::V4 { ip: 0xc0a8_010a, port: 8080 }
}

#[test]
fn greeting_offers_no_authentication() {
    let (_, hello, next) = socks_connect_handshake(target());
    assert_eq!(hello, vec![5, 1, 0]);
    assert_eq!(next, Next::Receive { expect: 2 });
}

#[test]
fn request_names_an_ipv4_target() {
    assert_eq!(connect_request(&target()), vec![5, 1, 0, 1, 192, 168, 1, 10, 0x1f, 0x90]);
    assert_eq!(
        connect_request(&SocketAddress::V4 { ip: 0, port: 0 }),
        vec![5, 1, 0, 1, 0, 0, 0, 0, 0, 0]
    );
    assert_eq!(
        connect_request(&SocketAddress::V4 { ip: u32::MAX, port: u16::MAX }),
        vec![5, 1, 0, 1, 255, 255, 255, 255, 255, 255]
    );
}

#[test]
fn request_names_an_ipv6_target() {
    let six = SocketAddress::V6 {
        ip: 0x2001_0db8_0000_0000_0000_0000_0000_0001,
        port: 443,
        flowinfo: 3,
        scope_id: 4,
    };
    assert_eq!(
        connect_request(&six),
        vec![5, 1, 0, 4, 0x20, 0x01, 0x0d, 0xb8, 0, 0, 0, 0, 0, 0, 0, 0, 0, 0, 0, 1, 1, 0xbb]
    );
}

#[test]
fn tunnel_opens_with_an_ipv4_binding() {
    let (mut exchange, _, _) = socks_connect_handshake(target());
    let (send, next) = exchange.step(&[5, 0]);
    assert_eq!(send, vec![5, 1, 0, 1, 192, 168, 1, 10, 0x1f, 0x90]);
    assert_eq!(next, Next::Receive { expect: 4 });
    let (send, next) = exchange.step(&[5, 0, 0, 1]);
    assert!(send.is_empty());
    assert_eq!(next, Next::Receive { expect: 6 });
    let (send, next) = exchange.step(&[10, 0, 0, 1, 0x04, 0x38]);
    assert!(send.is_empty());
    assert_eq!(next, Next::Established);
    let (send, next) = exchange.step(&[1, 2, 3]);
    assert!(send.is_empty());
    assert_eq!(next, Next::Established);
}

#[test]
fn tunnel_opens_with_an_ipv6_binding() {
    let (mut exchange, _, _) = socks_connect_handshake(target());
    exchange.step(&[5, 0]);
    assert_eq!(exchange.step(&[5, 0, 0, 4]).1, Next::Receive { expect: 18 });
    assert_eq!(exchange.step(&[0; 18]).1, Next::Established);
}

#[test]
fn tunnel_opens_with_a_named_binding() {
    let (mut exchange, _, _) = socks_connect_handshake(target());
    exchange.step(&[5, 0]);
    assert_eq!(exchange.step(&[5, 0, 0, 3]).1, Next::Receive { expect: 1 });
    assert_eq!(exchange.step(&[9]).1, Next::Receive { expect: 11 });
    assert_eq!(exchange.step(b"localhost\x00\x50").1, Next::Established);
}

#[test]
fn longest_name_is_read_whole() {
    let (mut exchange, _, _) = socks_connect_handshake(target());
    exchange.step(&[5, 0]);
    exchange.step(&[5, 0, 0, 3]);
    assert_eq!(exchange.step(&[255]).1, Next::Receive { expect: 257 });
    assert_eq!(exchange.step(&[0]).1, Next::Failed { error: HandshakeError::Length });
}

#[test]
fn empty_name_leaves_the_port() {
    let (mut exchange, _, _) = socks_connect_handshake(target());
    exchange.step(&[5, 0]);
    exchange.step(&[5, 0, 0, 3]);
    assert_eq!(exchange.step(&[0]).1, Next::Receive { expect: 2 });
    assert_eq!(exchange.step(&[0, 80]).1, Next::Established);
}

#[test]
fn other_version_is_a_failure() {
    let (mut exchange, _, _) = socks_connect_handshake(target());
    let (send, next) = exchange.step(&[4, 0]);
    assert!(send.is_empty());
    assert_eq!(next, Next::Failed { error: HandshakeError::Version });
    assert_eq!(exchange.step(&[5, 0]).1, Next::Failed { error: HandshakeError::Version });

    let (mut exchange, _, _) = socks_connect_handshake(target());
    exchange.step(&[5, 0]);
    assert_eq!(exchange.step(&[4, 0, 0, 1]).1, Next::Failed { error: HandshakeError::Version });
}

#[test]
fn other_method_is_a_failure() {
    let (mut exchange, _, _) = socks_connect_handshake(target());
    assert_eq!(exchange.step(&[5, 0xff]).1, Next::Failed { error: HandshakeError::Method });
    let (mut exchange, _, _) = socks_connect_handshake(target());
    assert_eq!(exchange.step(&[5, 2]).1, Next::Failed { error: HandshakeError::Method });
}

#[test]
fn refusal_carries_the_reply_code() {
    let (mut exchange, _, _) = socks_connect_handshake(target());
    exchange.step(&[5, 0]);
    assert_eq!(
        exchange.step(&[5, 5, 0, 1]).1,
        Next::Failed { error: HandshakeError::Refused { code: 5 } }
    );
}

#[test]
fn unknown_address_type_is_a_failure() {
    let (mut exchange, _, _) = socks_connect_handshake(target());
    exchange.step(&[5, 0]);
    assert_eq!(exchange.step(&[5, 0, 0, 2]).1, Next::Failed { error: HandshakeError::AddressType });
}

#[test]
fn wrong_number_of_bytes_is_a_failure() {
    let (mut exchange, _, _) = socks_connect_handshake(target());
    assert_eq!(exchange.step(&[5]).1, Next::Failed { error: HandshakeError::Length });
    let (mut exchange, _, _) = socks_connect_handshake(target());
    assert_eq!(exchange.step(&[5, 0, 0]).1, Next::Failed { error: HandshakeError::Length });
    let (mut exchange, _, _) = socks_connect_handshake(target());
    exchange.step(&[5, 0]);
    assert_eq!(exchange.step(&[5, 0, 0]).1, Next::Failed { error: HandshakeError::Length });
    let (mut exchange, _, _) = socks_connect_handshake(target());
    exchange.step(&[5, 0]);
    exchange.step(&[5, 0, 0, 1]);
    assert_eq!(exchange.step(&[0; 5]).1, Next::Failed { error: HandshakeError::Length });
}
