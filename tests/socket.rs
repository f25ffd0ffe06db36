use axnet::addr::{IpAddr, SocketAddr};
use axnet::error::NetError;
use axnet::port::EphemeralPorts;
use axnet::socket::{
    BindStep, ConnectStep, Domain, RecvStep, Socket, SocketKind, SocketType, TimeVal, O_CLOEXEC, O_NONBLOCK,
};
use axnet::table::NetlinkSockSetWrapper;
use axnet::tcp::{accept_ready, handshake, recv_ready, send_ready, TcpSocket, TcpState};
use axnet::udp::{BindFailure, ListenEndpoint, PollState};

fn addr(port: u16) -> SocketAddr {
    SocketAddr::new(IpAddr::v4(192, 168, 1, 9), port)
}

#[test]
fn socket_new_kinds_and_defaults() {
    let mut set = NetlinkSockSetWrapper::new();
    let t = Socket::new(Domain::AF_INET, SocketType::SOCK_STREAM, 4, &mut set, 1).unwrap();
    assert_eq!(t.kind(), SocketKind::Tcp);
    assert_eq!(t.handle(), 4);
    assert_eq!(t.send_buf_size(), 65536);
    assert_eq!(t.recv_buf_size(), 65536);
    assert_eq!(t.congestion(), b"reno");
    assert_eq!(t.recv_timeout(), None);
    assert!(!t.close_exec());
    assert!(!t.dont_route());
    assert!(t.nagle_enabled());
    let s = Socket::new(Domain::AF_INET, SocketType::SOCK_SEQPACKET, 5, &mut set, 1).unwrap();
    assert_eq!(s.kind(), SocketKind::Tcp);
    let u = Socket::new(Domain::AF_INET, SocketType::SOCK_DGRAM, 6, &mut set, 1).unwrap();
    assert_eq!(u.kind(), SocketKind::Udp);
    let n = Socket::new(Domain::AF_NETLINK, SocketType::SOCK_RAW, 9, &mut set, 1).unwrap();
    assert_eq!(n.kind(), SocketKind::Netlink);
    assert_eq!(n.handle(), 0);
    assert!(n.is_nonblocking());
}

#[test]
fn socket_new_unsupported() {
    let mut set = NetlinkSockSetWrapper::new();
    assert!(matches!(Socket::new(Domain::AF_UNIX, SocketType::SOCK_STREAM, 0, &mut set, 1), Err(NetError::Unsupported)));
    assert!(matches!(Socket::new(Domain::AF_INET, SocketType::SOCK_RAW, 0, &mut set, 1), Err(NetError::Unsupported)));
    assert!(matches!(Socket::new(Domain::AF_NETLINK, SocketType::SOCK_DGRAM, 0, &mut set, 1), Err(NetError::Unsupported)));
    assert_eq!(Domain::try_from_raw(16), Some(Domain::AF_NETLINK));
    assert_eq!(Domain::try_from_raw(3), None);
    assert_eq!(SocketType::try_from_raw(10), Some(SocketType::SOCK_PACKET));
    assert_eq!(SocketType::try_from_raw(7), None);
}

#[test]
fn udp_socket_bind_connect_flow() {
    let mut set = NetlinkSockSetWrapper::new();
    let mut ports = EphemeralPorts::new();
    let mut u = Socket::new(Domain::AF_INET, SocketType::SOCK_DGRAM, 2, &mut set, 1).unwrap();
    assert_eq!(u.name(), Err(NetError::NotConnected));
    assert!(!u.is_bound());
    let step = u.connect(addr(53), &mut ports).unwrap();
    let e = match step {
        ConnectStep::BindFirst(e) => e,
        _ => panic!("expected a bind first"),
    };
    assert_eq!(e, ListenEndpoint { addr: None, port: 0xc000 });
    assert_eq!(u.complete_bind(e, Ok(())), Ok(()));
    assert!(matches!(u.connect(addr(53), &mut ports), Ok(ConnectStep::Connected)));
    assert_eq!(u.peer_name(), Ok(addr(53)));
    assert_eq!(u.name(), Ok(SocketAddr::new(IpAddr::v4(0, 0, 0, 0), 0xc000)));
    assert!(u.is_connected());
    assert!(matches!(u.bind(addr(1), &mut ports), Err(NetError::AlreadyExists)));
    assert_eq!(u.sendto(addr(80)), Ok(addr(80)));
    assert_eq!(u.listen(), Err(NetError::Unsupported));
    let mut buf = [0u8; 4];
    assert!(matches!(u.recv_from(&mut set, &mut buf), Ok(RecvStep::Udp(None))));
    assert_eq!(u.set_nonblocking(true), Ok(()));
    assert!(u.is_nonblocking());
}

#[test]
fn udp_socket_bind_errors() {
    let mut set = NetlinkSockSetWrapper::new();
    let mut ports = EphemeralPorts::new();
    let mut u = Socket::new(Domain::AF_INET, SocketType::SOCK_DGRAM, 2, &mut set, 1).unwrap();
    let e = match u.bind(addr(7000), &mut ports).unwrap() {
        BindStep::Stack(e) => e,
        BindStep::Bound => panic!("expected the stack bind"),
    };
    assert_eq!(e, ListenEndpoint { addr: Some(IpAddr::v4(192, 168, 1, 9)), port: 7000 });
    assert_eq!(u.complete_bind(e, Err(BindFailure::Unaddressable)), Err(NetError::InvalidInput));
    assert!(!u.is_bound());
    assert_eq!(u.complete_bind(e, Ok(())), Ok(()));
    assert_eq!(u.name(), Ok(addr(7000)));
}

#[test]
fn tcp_socket_flow() {
    let mut set = NetlinkSockSetWrapper::new();
    let mut ports = EphemeralPorts::new();
    let mut t = Socket::new(Domain::AF_INET, SocketType::SOCK_STREAM, 1, &mut set, 1).unwrap();
    assert_eq!(t.listen(), Err(NetError::InvalidInput));
    assert!(matches!(t.bind(addr(0), &mut ports), Ok(BindStep::Bound)));
    assert_eq!(t.name(), Ok(addr(0xc000)));
    assert_eq!(t.listen(), Ok(()));
    assert_eq!(t.can_accept(), Ok(()));
    let conn = TcpSocket::accepted(8, addr(0xc000), addr(4444));
    let (a, peer) = t.accept(conn).unwrap();
    assert_eq!(peer, addr(4444));
    assert_eq!(a.kind(), SocketKind::Tcp);
    assert_eq!(a.handle(), 8);
    assert_eq!(a.peer_name(), Ok(addr(4444)));
    assert_eq!(a.congestion(), b"reno");
    assert!(matches!(t.accept(TcpSocket::new(9)), Err(NetError::NotConnected)));
    let mut c = Socket::new(Domain::AF_INET, SocketType::SOCK_STREAM, 2, &mut set, 1).unwrap();
    match c.connect(addr(80), &mut ports) {
        Ok(ConnectStep::Handshake(p)) => assert_eq!(p, addr(80)),
        _ => panic!("expected a handshake"),
    }
    assert_eq!(c.sendto(addr(1)), Err(NetError::NotConnected));
    assert_eq!(c.established(addr(5), addr(80)), Ok(()));
    assert!(c.is_connected());
    assert_eq!(c.sendto(addr(1)), Ok(addr(80)));
    let mut buf = [0u8; 4];
    assert!(matches!(c.recv_from(&mut set, &mut buf), Ok(RecvStep::Tcp(p, None)) if p == addr(80)));
}

#[test]
fn netlink_socket_dispatch() {
    let mut set = NetlinkSockSetWrapper::new();
    let mut ports = EphemeralPorts::new();
    let mut n = Socket::new(Domain::AF_NETLINK, SocketType::SOCK_RAW, 0, &mut set, 1).unwrap();
    assert_eq!(n.name(), Ok(SocketAddr::default()));
    assert_eq!(n.peer_name(), Err(NetError::Unsupported));
    assert!(matches!(n.bind(addr(0), &mut ports), Ok(BindStep::Bound)));
    assert_eq!(ports.get_ephemeral_port(), 0xc000);
    assert!(matches!(n.connect(addr(1), &mut ports), Err(NetError::Unsupported)));
    assert_eq!(n.set_nonblocking(false), Err(NetError::Unsupported));
    assert_eq!(n.listen(), Err(NetError::Unsupported));
    assert_eq!(n.can_accept(), Err(NetError::Unsupported));
    let mut buf = [0u8; 32];
    assert!(matches!(n.recv_from(&mut set, &mut buf), Ok(RecvStep::Ready(0, a)) if a == SocketAddr::default()));
    n.set_close_exec(true);
    assert!(n.close_exec());
}

#[test]
fn status_flags_and_flush() {
    let mut set = NetlinkSockSetWrapper::new();
    let mut u = Socket::new(Domain::AF_INET, SocketType::SOCK_DGRAM, 0, &mut set, 1).unwrap();
    assert_eq!(u.get_status(), 0);
    assert_eq!(u.set_status(O_NONBLOCK | 0x2), Ok(()));
    assert!(u.is_nonblocking());
    u.set_close_exec(true);
    assert_eq!(u.get_status(), O_CLOEXEC | O_NONBLOCK);
    assert_eq!(u.set_status(0), Ok(()));
    assert_eq!(u.get_status(), O_CLOEXEC);
    assert_eq!(u.flush(), Err(NetError::Unsupported));
    let mut n = Socket::new(Domain::AF_NETLINK, SocketType::SOCK_RAW, 0, &mut set, 1).unwrap();
    assert_eq!(n.set_status(O_NONBLOCK), Err(NetError::Unsupported));
    assert_eq!(n.get_status(), O_NONBLOCK);
}

#[test]
fn poll_by_kind() {
    let mut set = NetlinkSockSetWrapper::new();
    let mut ports = EphemeralPorts::new();
    let mut u = Socket::new(Domain::AF_INET, SocketType::SOCK_DGRAM, 0, &mut set, 1).unwrap();
    assert_eq!(u.poll(true, true), Ok(PollState { readable: false, writable: false }));
    if let Ok(BindStep::Stack(e)) = u.bind(addr(9), &mut ports) {
        assert_eq!(u.complete_bind(e, Ok(())), Ok(()));
    }
    assert_eq!(u.poll(true, false), Ok(PollState { readable: true, writable: false }));
    let t = Socket::new(Domain::AF_INET, SocketType::SOCK_STREAM, 0, &mut set, 1).unwrap();
    assert_eq!(t.poll(false, true), Ok(PollState { readable: false, writable: true }));
    let n = Socket::new(Domain::AF_NETLINK, SocketType::SOCK_RAW, 0, &mut set, 1).unwrap();
    assert_eq!(n.poll(true, true), Err(NetError::Unsupported));
}

#[test]
fn timeval_to_ticks() {
    assert_eq!(TimeVal { sec: 2, usec: 500_000 }.turn_to_ticks(100), 250);
    assert_eq!(TimeVal { sec: 0, usec: 999 }.turn_to_ticks(100), 0);
    assert_eq!(TimeVal { sec: u64::MAX, usec: 0 }.turn_to_ticks(2), u64::MAX);
    assert_eq!(TimeVal { sec: u64::MAX - 1, usec: 1_000_000 }.turn_to_ticks(1), u64::MAX);
}

#[test]
fn netlink_table_init() {
    let set = axnet::table::init();
    assert_eq!(set.len(), 0);
}

#[test]
fn tcp_step_rules() {
    assert_eq!(handshake(TcpState::SynSent, None), Err(NetError::WouldBlock));
    assert_eq!(handshake(TcpState::Established, Some(addr(1))), Ok(addr(1)));
    assert_eq!(handshake(TcpState::Established, None), Err(NetError::BadState));
    assert_eq!(handshake(TcpState::Closed, None), Err(NetError::ConnectionRefused));
    assert_eq!(accept_ready(false, TcpState::Listen, None, None), Err(NetError::WouldBlock));
    assert_eq!(accept_ready(true, TcpState::SynReceived, Some(addr(1)), Some(addr(2))), Err(NetError::WouldBlock));
    assert_eq!(accept_ready(true, TcpState::Established, Some(addr(1)), Some(addr(2))), Ok((addr(1), addr(2))));
    assert_eq!(send_ready(false, true), Err(NetError::NotConnected));
    assert_eq!(send_ready(true, false), Err(NetError::WouldBlock));
    assert_eq!(recv_ready(false, false), Ok(false));
    assert_eq!(recv_ready(true, false), Err(NetError::WouldBlock));
    assert_eq!(recv_ready(true, true), Ok(true));
}

#[test]
fn tcp_recv_timeout_rule() {
    assert_eq!(axnet::tcp::recv_ready_timeout(true, false, 5, 5), Err(NetError::WouldBlock));
    assert_eq!(axnet::tcp::recv_ready_timeout(true, false, 6, 5), Err(NetError::Timeout));
    assert_eq!(axnet::tcp::recv_ready_timeout(false, false, 6, 5), Ok(false));
    assert_eq!(axnet::tcp::recv_ready_timeout(true, true, 6, 5), Ok(true));
}

#[test]
fn netlink_send_through_socket() {
    let mut set = NetlinkSockSetWrapper::new();
    let n = Socket::new(Domain::AF_NETLINK, SocketType::SOCK_RAW, 0, &mut set, 1).unwrap();
    let mut req = vec![16u8, 0, 0, 0, 22, 0, 0, 0];
    req.extend_from_slice(&[3, 0, 0, 0, 0, 0, 0, 0]);
    assert_eq!(n.netlink_send(&mut set, &req), Ok(20));
    let mut buf = [0u8; 32];
    assert!(matches!(n.recv_from(&mut set, &mut buf), Ok(RecvStep::Ready(20, _))));
    assert_eq!(&buf[4..8], &[3, 0, 2, 0]);
    let u = Socket::new(Domain::AF_INET, SocketType::SOCK_DGRAM, 0, &mut set, 1).unwrap();
    assert_eq!(u.netlink_send(&mut set, &req), Err(NetError::Unsupported));
}
