use redirector::address::SocketAddress;
use redirector::util::getdestaddr_iptables;

#[test]
fn destination_is_read_in_network_order() {
    assert_eq!(
        getdestaddr_iptables(0, [192, 168, 1, 10], [0x1f, 0x90]),
        Some(SocketAddress::V4 { ip: 0xc0a8_010a, port: 8080 })
    );
}

#[test]
fn destination_bounds() {
    assert_eq!(
        getdestaddr_iptables(0, [0, 0, 0, 0], [0, 0]),
        Some(SocketAddress::V4 { ip: 0, port: 0 })
    );
    assert_eq!(
        getdestaddr_iptables(0, [255, 255, 255, 255], [255, 255]),
        Some(SocketAddress::V4 { ip: u32::MAX, port: u16::MAX })
    );
    assert_eq!(
        getdestaddr_iptables(0, [1, 2, 3, 4], [0, 80]),
        Some(SocketAddress::V4 { ip: 0x0102_0304, port: 80 })
    );
}

#[test]
fn failed_lookup_gives_no_destination() {
    assert_eq!(getdestaddr_iptables(-1, [192, 168, 1, 10], [0x1f, 0x90]), None);
    assert_eq!(getdestaddr_iptables(1, [0, 0, 0, 0], [0, 0]), None);
    assert_eq!(getdestaddr_iptables(i32::MIN, [1, 2, 3, 4], [0, 80]), None);
}
