use axnet::addr::{IpAddr, SocketAddr};
use axnet::error::NetError;
use axnet::port::EphemeralPorts;
use smoltcp::socket::udp;
use axnet::udp::{
    block_on_step, deadline, recv_filter, recv_from_result, recv_ready, recv_ready_timeout, send_ready,
    send_result, BindFailure, ListenEndpoint, PollState, SendFailure, Step, UdpSocket,
};

fn stack_socket() -> udp::Socket<'static> {
    let rx = udp::PacketBuffer::new(vec![udp::PacketMetadata::EMPTY; 4], vec![0; 256]);
    let tx = udp::PacketBuffer::new(vec![udp::PacketMetadata::EMPTY; 4], vec![0; 256]);
    udp::Socket::new(rx, tx)
}

fn peer() -> SocketAddr {
    SocketAddr::new(IpAddr::v4(10, 0, 0, 2), 5000)
}

#[test]
fn connect_filter_skips_other_sources() {
    let p = peer();
    assert_eq!(recv_filter(p, Some((4, p))), Ok(4));
    let other_port = SocketAddr::new(IpAddr::v4(10, 0, 0, 2), 5001);
    let other_addr = SocketAddr::new(IpAddr::v4(10, 0, 0, 3), 5000);
    assert_eq!(recv_filter(p, Some((4, other_port))), Err(NetError::WouldBlock));
    assert_eq!(recv_filter(p, Some((4, other_addr))), Err(NetError::WouldBlock));
    assert!(matches!(block_on_step(false, recv_filter(p, Some((4, other_addr)))), Step::Retry));
    assert!(matches!(
        block_on_step(true, recv_filter(p, Some((4, other_addr)))),
        Step::Done(Err(NetError::WouldBlock))
    ));
    assert_eq!(recv_filter(p, None), Err(NetError::BadState));
}

#[test]
fn connect_filter_wildcards_match_anything() {
    let any = SocketAddr::new(IpAddr::v4(0, 0, 0, 0), 0);
    assert_eq!(recv_filter(any, Some((3, peer()))), Ok(3));
    let any_port = SocketAddr::new(IpAddr::v4(10, 0, 0, 2), 0);
    assert_eq!(recv_filter(any_port, Some((3, peer()))), Ok(3));
}

#[test]
fn timeout_without_data() {
    let exp = deadline(100, 50);
    assert_eq!(exp, 150);
    assert_eq!(recv_ready_timeout(true, false, 150, exp), Err(NetError::WouldBlock));
    assert_eq!(recv_ready_timeout(true, false, 151, exp), Err(NetError::Timeout));
    assert!(matches!(block_on_step::<usize>(false, Err(NetError::WouldBlock)), Step::Retry));
    assert!(matches!(
        block_on_step::<usize>(false, Err(NetError::Timeout)),
        Step::Done(Err(NetError::Timeout))
    ));
    assert_eq!(recv_ready_timeout(false, false, 0, exp), Err(NetError::NotConnected));
    assert_eq!(recv_ready_timeout(true, true, 999, exp), Ok(()));
    assert_eq!(deadline(u64::MAX - 1, 5), u64::MAX);
}

#[test]
fn attempt_decisions() {
    assert_eq!(send_ready(false, true), Err(NetError::NotConnected));
    assert_eq!(send_ready(true, false), Err(NetError::WouldBlock));
    assert_eq!(send_ready(true, true), Ok(()));
    assert_eq!(send_result(7, Ok(())), Ok(7));
    assert_eq!(send_result(7, Err(SendFailure::BufferFull)), Err(NetError::WouldBlock));
    assert_eq!(send_result(7, Err(SendFailure::Unaddressable)), Err(NetError::ConnectionRefused));
    assert_eq!(recv_ready(false, true), Err(NetError::NotConnected));
    assert_eq!(recv_ready(true, false), Err(NetError::WouldBlock));
    assert_eq!(recv_ready(true, true), Ok(()));
    assert_eq!(recv_from_result(Some((2, peer()))), Ok((2, peer())));
    assert_eq!(recv_from_result(None), Err(NetError::BadState));
    assert!(matches!(block_on_step(false, Ok::<usize, NetError>(3)), Step::Done(Ok(3))));
    assert!(matches!(
        block_on_step::<usize>(false, Err(NetError::NotConnected)),
        Step::Done(Err(NetError::NotConnected))
    ));
}

#[test]
fn udp_bind_flow() {
    let mut ports = EphemeralPorts::new();
    let mut s = UdpSocket::new(3);
    assert_eq!(s.handle(), 3);
    assert_eq!(s.local_addr(), Err(NetError::NotConnected));
    let any = SocketAddr::new(IpAddr::v4(0, 0, 0, 0), 0);
    let e = s.bind_endpoint(any, &mut ports).unwrap();
    assert_eq!(e, ListenEndpoint { addr: None, port: 0xc000 });
    assert_eq!(s.bind(e, Ok(())), Ok(()));
    assert_eq!(s.local_addr(), Ok(SocketAddr::new(IpAddr::v4(0, 0, 0, 0), 0xc000)));
    assert_eq!(s.bind_endpoint(any, &mut ports), Err(NetError::AlreadyExists));
    assert_eq!(ports.get_ephemeral_port(), 0xc002);
    assert_eq!(s.bind(e, Ok(())), Err(NetError::AlreadyExists));
}

#[test]
fn udp_bind_stack_errors() {
    let mut s = UdpSocket::new(0);
    let e = ListenEndpoint { addr: Some(IpAddr::v4(1, 2, 3, 4)), port: 9 };
    assert_eq!(s.bind(e, Err(BindFailure::InvalidState)), Err(NetError::AlreadyExists));
    assert_eq!(s.bind(e, Err(BindFailure::Unaddressable)), Err(NetError::InvalidInput));
    assert!(s.needs_bind());
    assert_eq!(s.bind(e, Ok(())), Ok(()));
    assert_eq!(s.local_addr(), Ok(SocketAddr::new(IpAddr::v4(1, 2, 3, 4), 9)));
}

#[test]
fn udp_send_and_recv_targets() {
    let mut s = UdpSocket::new(0);
    assert_eq!(s.send_to(peer()), Err(NetError::NotConnected));
    assert_eq!(s.send_to(SocketAddr::new(IpAddr::v4(0, 0, 0, 0), 80)), Err(NetError::InvalidInput));
    assert_eq!(s.send_to(SocketAddr::new(IpAddr::v4(1, 1, 1, 1), 0)), Err(NetError::InvalidInput));
    assert_eq!(s.send(), Err(NetError::NotConnected));
    assert_eq!(s.recv_from(), Err(NetError::NotConnected));
    assert_eq!(s.poll(true, true), PollState { readable: false, writable: false });
    let e = ListenEndpoint { addr: None, port: 4000 };
    assert_eq!(s.bind(e, Ok(())), Ok(()));
    let mut ports = EphemeralPorts::new();
    let mut sock = stack_socket();
    assert_eq!(s.connect(peer(), &mut ports, &mut sock), Ok(()));
    assert_eq!(ports.get_ephemeral_port(), 0xc000);
    assert_eq!(s.local_addr(), Ok(SocketAddr::new(IpAddr::v4(0, 0, 0, 0), 4000)));
    assert_eq!(s.peer_addr(), Ok(peer()));
    assert_eq!(s.send(), Ok(peer()));
    assert_eq!(s.recv(), Ok(peer()));
    assert_eq!(s.recv_from(), Ok(()));
    assert_eq!(s.send_to(peer()), Ok(peer()));
    assert_eq!(s.poll(true, false), PollState { readable: true, writable: false });
    s.set_nonblocking(true);
    assert!(s.is_nonblocking());
    s.set_reuse_addr(true);
    assert!(s.is_reuse_addr());
}

#[test]
fn udp_connect_binds_unbound_socket() {
    let mut ports = EphemeralPorts::new();
    let mut sock = stack_socket();
    let mut s = UdpSocket::new(1);
    assert_eq!(s.connect(peer(), &mut ports, &mut sock), Ok(()));
    assert_eq!(s.local_addr(), Ok(SocketAddr::new(IpAddr::v4(0, 0, 0, 0), 0xc000)));
    assert_eq!(s.peer_addr(), Ok(peer()));
    assert!(sock.is_open());
    assert_eq!(sock.endpoint().port, 0xc000);
    assert_eq!(ports.get_ephemeral_port(), 0xc001);
}

#[test]
fn udp_connect_refused_by_open_stack_socket() {
    let mut ports = EphemeralPorts::new();
    let mut sock = stack_socket();
    sock.bind(7000).unwrap();
    let mut s = UdpSocket::new(1);
    assert_eq!(s.connect(peer(), &mut ports, &mut sock), Err(NetError::AlreadyExists));
    assert_eq!(s.local_addr(), Err(NetError::NotConnected));
    assert_eq!(s.peer_addr(), Err(NetError::NotConnected));
}
