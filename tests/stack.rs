use axnet::addr::{IpAddr, SocketAddr};
use axnet::error::NetError;
use axnet::stack;
use axnet::udp::{BindFailure, ListenEndpoint};
use smoltcp::socket::udp;

fn stack_socket() -> udp::Socket<'static> {
    let rx = udp::PacketBuffer::new(vec![udp::PacketMetadata::EMPTY; 4], vec![0; 256]);
    let tx = udp::PacketBuffer::new(vec![udp::PacketMetadata::EMPTY; 4], vec![0; 256]);
    udp::Socket::new(rx, tx)
}

fn dest() -> SocketAddr {
    SocketAddr::new(IpAddr::v4(10, 0, 0, 2), 9000)
}

#[test]
fn stack_unbound_socket_is_not_connected() {
    let mut sock = stack_socket();
    let mut buf = [0u8; 8];
    assert_eq!(stack::send_attempt(&mut sock, b"hi", dest()), Err(NetError::NotConnected));
    assert_eq!(stack::recv_from_attempt(&mut sock, &mut buf), Err(NetError::NotConnected));
    assert_eq!(stack::peek_from_attempt(&mut sock, &mut buf), Err(NetError::NotConnected));
    assert_eq!(stack::recv_attempt(&mut sock, &mut buf, dest()), Err(NetError::NotConnected));
    assert_eq!(stack::readiness(&sock), (false, true));
}

#[test]
fn stack_bind_outcomes() {
    let mut sock = stack_socket();
    let zero = ListenEndpoint { addr: None, port: 0 };
    assert_eq!(stack::bind_endpoint(&mut sock, zero), Err(BindFailure::Unaddressable));
    let e = ListenEndpoint { addr: None, port: 4000 };
    assert_eq!(stack::bind_endpoint(&mut sock, e), Ok(()));
    assert_eq!(stack::bind_endpoint(&mut sock, e), Err(BindFailure::InvalidState));
}

#[test]
fn stack_send_and_empty_receive() {
    let mut sock = stack_socket();
    assert_eq!(stack::bind_endpoint(&mut sock, ListenEndpoint { addr: None, port: 4000 }), Ok(()));
    assert_eq!(stack::send_attempt(&mut sock, b"hello", dest()), Ok(5));
    let mut buf = [0u8; 8];
    assert_eq!(stack::recv_from_attempt(&mut sock, &mut buf), Err(NetError::WouldBlock));
    assert_eq!(stack::recv_from_timeout_attempt(&mut sock, &mut buf, 10, 10), Err(NetError::WouldBlock));
    assert_eq!(stack::recv_from_timeout_attempt(&mut sock, &mut buf, 11, 10), Err(NetError::Timeout));
    assert_eq!(stack::recv_attempt(&mut sock, &mut buf, dest()), Err(NetError::WouldBlock));
    assert_eq!(stack::readiness(&sock), (false, true));
}

#[test]
fn stack_send_fills_buffer() {
    let mut sock = stack_socket();
    assert_eq!(stack::bind_endpoint(&mut sock, ListenEndpoint { addr: None, port: 4000 }), Ok(()));
    let big = [7u8; 200];
    assert_eq!(stack::send_attempt(&mut sock, &big, dest()), Ok(200));
    assert_eq!(stack::send_attempt(&mut sock, &big, dest()), Err(NetError::WouldBlock));
}

#[test]
fn stack_ttl_and_shutdown() {
    let mut sock = stack_socket();
    assert_eq!(stack::set_socket_ttl(&mut sock, 0), Err(NetError::InvalidInput));
    assert_eq!(stack::set_socket_ttl(&mut sock, 16), Ok(()));
    assert_eq!(sock.hop_limit(), Some(16));
    assert_eq!(stack::bind_endpoint(&mut sock, ListenEndpoint { addr: None, port: 4000 }), Ok(()));
    assert_eq!(stack::shutdown(&mut sock), Ok(()));
    assert_eq!(stack::shutdown(&mut sock), Ok(()));
    assert_eq!(stack::send_attempt(&mut sock, b"x", dest()), Err(NetError::NotConnected));
}

#[test]
fn stack_readiness_reports_queued_state() {
    let mut sock = stack_socket();
    assert_eq!(stack::bind_endpoint(&mut sock, ListenEndpoint { addr: None, port: 4000 }), Ok(()));
    assert_eq!(stack::readiness(&sock), (false, true));
    assert_eq!(stack::send_attempt(&mut sock, &[1u8; 200], dest()), Ok(200));
    assert_eq!(stack::send_attempt(&mut sock, &[1u8; 10], dest()), Ok(10));
    assert_eq!(stack::send_attempt(&mut sock, &[1u8; 10], dest()), Ok(10));
    assert_eq!(stack::send_attempt(&mut sock, &[1u8; 10], dest()), Ok(10));
    assert_eq!(stack::readiness(&sock), (false, false));
    assert!(!sock.is_open() || stack::shutdown(&mut sock) == Ok(()));
    assert!(!sock.is_open());
}
