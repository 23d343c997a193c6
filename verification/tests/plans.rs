use framed_udp::address::Ipv4Address;
use framed_udp::address::Ipv6Address;
use framed_udp::address::SocketAddress;
use framed_udp::address::SocketV4;
use framed_udp::address::SocketV6;
use framed_udp::error::TransportError;
use framed_udp::multicast::bind_multicast;
use framed_udp::multicast::READ_TIMEOUT_MS;
use framed_udp::socket::new_socket;
use framed_udp::socket::Family;
use framed_udp::socket::Platform;
use framed_udp::socket::SocketStep;
use framed_udp::transport::Credentials;
use framed_udp::transport::DirectSocket;
use framed_udp::transport::FramedSocket;
use framed_udp::transport::Handshake;
use framed_udp::transport::RelaySession;
use framed_udp::address::Endpoint;

fn v4(a: u8, b: u8, c: u8, d: u8, port: u16) -> SocketAddress {
    SocketAddress::V4(SocketV4 { ip: Ipv4Address(a, b, c, d), port })
}

fn v6(bits: u128, port: u16) -> SocketAddress {
    SocketAddress::V6(SocketV6 { ip: Ipv6Address(bits), port, flowinfo: 0, scope_id: 0 })
}

#[test]
fn multicast_block_is_224_to_239() {
    assert!(!Ipv4Address(223, 255, 255, 255).is_multicast());
    assert!(Ipv4Address(224, 0, 0, 0).is_multicast());
    assert!(Ipv4Address(239, 255, 42, 98).is_multicast());
    assert!(Ipv4Address(239, 255, 255, 255).is_multicast());
    assert!(!Ipv4Address(240, 0, 0, 0).is_multicast());
    assert!(!Ipv4Address(0, 0, 0, 0).is_multicast());
    assert!(!Ipv4Address(127, 0, 0, 1).is_multicast());
}

#[test]
fn family_follows_the_form_of_the_address() {
    assert_eq!(v4(10, 0, 0, 1, 9).family(), Family::V4);
    assert_eq!(v6(1, 9).family(), Family::V6);
}

#[test]
fn plain_socket_opens_and_binds() {
    let addr = v4(127, 0, 0, 1, 21116);
    let want = vec![SocketStep::Open { family: Family::V4 }, SocketStep::Bind { local: addr }];
    assert_eq!(new_socket(addr, false, Platform::PosixLike), want);
    assert_eq!(new_socket(addr, false, Platform::AddressReuseOnly), want);
}

#[test]
fn reuse_on_posix_sets_port_then_address() {
    let addr = v6(1, 4000);
    assert_eq!(
        new_socket(addr, true, Platform::PosixLike),
        vec![
            SocketStep::Open { family: Family::V6 },
            SocketStep::ReusePort,
            SocketStep::ReuseAddress,
            SocketStep::Bind { local: addr },
        ]
    );
}

#[test]
fn reuse_without_port_reuse_sets_address_only() {
    let addr = v4(0, 0, 0, 0, 4000);
    assert_eq!(
        new_socket(addr, true, Platform::AddressReuseOnly),
        vec![
            SocketStep::Open { family: Family::V4 },
            SocketStep::ReuseAddress,
            SocketStep::Bind { local: addr },
        ]
    );
}

#[test]
fn new_fails_without_candidates() {
    assert_eq!(FramedSocket::new(&[]), Err(TransportError::Resolution));
}

#[test]
fn new_plans_the_first_candidate_without_reuse() {
    let first = v4(192, 168, 1, 2, 0);
    let second = v6(7, 0);
    assert_eq!(
        FramedSocket::new(&[first, second]),
        Ok(vec![SocketStep::Open { family: Family::V4 }, SocketStep::Bind { local: first }])
    );
}

#[test]
fn new_reuse_fails_without_candidates() {
    assert_eq!(FramedSocket::new_reuse(&[], Platform::PosixLike), Err(TransportError::Resolution));
    assert_eq!(
        FramedSocket::new_reuse(&[], Platform::AddressReuseOnly),
        Err(TransportError::Resolution)
    );
}

#[test]
fn new_reuse_tries_only_the_first_candidate() {
    let first = v6(0, 21116);
    let second = v4(0, 0, 0, 0, 21116);
    assert_eq!(
        FramedSocket::new_reuse(&[first, second], Platform::PosixLike),
        Ok(vec![
            SocketStep::Open { family: Family::V6 },
            SocketStep::ReusePort,
            SocketStep::ReuseAddress,
            SocketStep::Bind { local: first },
        ])
    );
    assert_eq!(
        FramedSocket::new_reuse(&[second, first], Platform::AddressReuseOnly),
        Ok(vec![
            SocketStep::Open { family: Family::V4 },
            SocketStep::ReuseAddress,
            SocketStep::Bind { local: second },
        ])
    );
}

#[test]
fn two_reuse_binds_of_one_port_get_the_same_plan() {
    let addr = v4(0, 0, 0, 0, 21119);
    let one = FramedSocket::new_reuse(&[addr], Platform::PosixLike);
    let two = FramedSocket::new_reuse(&[addr], Platform::PosixLike);
    assert_eq!(one, two);
    assert!(one.unwrap().contains(&SocketStep::ReusePort));
}

#[test]
fn bound_socket_is_a_direct_transport() {
    let local = v4(127, 0, 0, 1, 50000);
    assert_eq!(FramedSocket::bound(Ok(local)), Ok(FramedSocket::Direct(DirectSocket { local })));
}

#[test]
fn failed_setup_is_a_bind_error_with_its_cause() {
    assert_eq!(
        FramedSocket::bound(Err(String::from("Address already in use (os error 98)"))),
        Err(TransportError::Bind(String::from("Address already in use (os error 98)")))
    );
}

#[test]
fn multicast_member_joins_loops_and_binds_the_group_port() {
    let group = SocketV4 { ip: Ipv4Address(239, 255, 42, 98), port: 3000 };
    let any = Ipv4Address(0, 0, 0, 0);
    assert_eq!(
        bind_multicast(Some(group)),
        vec![
            SocketStep::Open { family: Family::V4 },
            SocketStep::ReuseAddress,
            SocketStep::ReadTimeout { ms: 100 },
            SocketStep::JoinMulticastV4 { group: Ipv4Address(239, 255, 42, 98), interface: any },
            SocketStep::MulticastLoopV4 { enabled: true },
            SocketStep::Bind { local: v4(0, 0, 0, 0, 3000) },
        ]
    );
}

#[test]
fn multicast_sender_picks_the_interface_and_an_ephemeral_port() {
    assert_eq!(
        bind_multicast(None),
        vec![
            SocketStep::Open { family: Family::V4 },
            SocketStep::ReuseAddress,
            SocketStep::ReadTimeout { ms: 100 },
            SocketStep::MulticastIfV4 { interface: Ipv4Address(0, 0, 0, 0) },
            SocketStep::Bind { local: v4(0, 0, 0, 0, 0) },
        ]
    );
}

#[test]
fn multicast_read_timeout_is_100_ms() {
    assert_eq!(READ_TIMEOUT_MS, 100);
}

#[test]
fn proxy_without_user_name_is_anonymous() {
    let plan = FramedSocket::new_proxy("", "secret", 3000);
    assert_eq!(plan.credentials, Credentials::Anonymous);
    assert_eq!(plan.timeout_ms, 3000);
}

#[test]
fn proxy_with_blank_user_name_is_anonymous() {
    assert_eq!(FramedSocket::new_proxy(" \t\r\n", "secret", 1).credentials, Credentials::Anonymous);
    assert_eq!(
        FramedSocket::new_proxy("\u{3000}\u{a0}", "", 1).credentials,
        Credentials::Anonymous
    );
}

#[test]
fn proxy_with_user_name_keeps_it_as_given() {
    let plan = FramedSocket::new_proxy(" alice ", "pa ss", 0);
    assert_eq!(
        plan.credentials,
        Credentials::Password { username: String::from(" alice "), password: String::from("pa ss") }
    );
    assert_eq!(plan.timeout_ms, 0);
    let plan = FramedSocket::new_proxy("bob", "", u64::MAX);
    assert_eq!(
        plan.credentials,
        Credentials::Password { username: String::from("bob"), password: String::new() }
    );
    assert_eq!(plan.timeout_ms, u64::MAX);
}

#[test]
fn handshake_in_time_gives_a_relay_transport() {
    let session = RelaySession {
        local: Some(v4(10, 0, 0, 5, 40000)),
        relay: Endpoint::Ip(v4(203, 0, 113, 7, 1080)),
    };
    assert_eq!(
        FramedSocket::connected(Handshake::Established(session.clone())),
        Ok(FramedSocket::ProxySocks(session))
    );
}

#[test]
fn handshake_out_of_time_is_a_timeout() {
    assert_eq!(FramedSocket::connected(Handshake::Elapsed), Err(TransportError::Timeout));
}

#[test]
fn refused_handshake_is_a_proxy_error_with_its_cause() {
    assert_eq!(
        FramedSocket::connected(Handshake::Refused(String::from("Password auth failure, code: 1"))),
        Err(TransportError::Proxy(String::from("Password auth failure, code: 1")))
    );
}
