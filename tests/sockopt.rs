use axnet::addr::IpAddr;
use axnet::error::NetError;
use axnet::socket::{Domain, Socket, SocketType};
use axnet::sockopt::{IpEffect, IpOption, SocketOption, SocketOptionLevel, TcpEffect, TcpSocketOption};
use axnet::table::NetlinkSockSetWrapper;

fn sock(ty: SocketType, set: &mut NetlinkSockSetWrapper) -> Socket {
    Socket::new(Domain::AF_INET, ty, 0, set, 1).unwrap()
}

fn get(o: SocketOption, s: &Socket, cap: u32) -> (Result<(), NetError>, Vec<u8>, u32) {
    let mut buf = vec![0xeeu8; 32];
    let mut len = cap;
    let r = o.get(s, &mut buf, &mut len);
    (r, buf, len)
}

#[test]
fn sndbuf_round_trip() {
    let mut set = NetlinkSockSetWrapper::new();
    let mut s = sock(SocketType::SOCK_DGRAM, &mut set);
    assert_eq!(SocketOption::SO_SNDBUF.set(&mut s, &32768i32.to_le_bytes()), Ok(()));
    let (r, buf, len) = get(SocketOption::SO_SNDBUF, &s, 4);
    assert_eq!(r, Ok(()));
    assert_eq!(len, 4);
    assert_eq!(i32::from_le_bytes([buf[0], buf[1], buf[2], buf[3]]), 32768);
    assert_eq!(buf[4], 0xee);
    assert_eq!(SocketOption::SO_RCVBUF.set(&mut s, &(-5i32).to_le_bytes()), Ok(()));
    let (_, buf, _) = get(SocketOption::SO_RCVBUF, &s, 8);
    assert_eq!(i32::from_le_bytes([buf[0], buf[1], buf[2], buf[3]]), -5);
}

#[test]
fn rcvtimeo_round_trip_and_zero() {
    let mut set = NetlinkSockSetWrapper::new();
    let mut s = sock(SocketType::SOCK_DGRAM, &mut set);
    let mut tv = Vec::new();
    tv.extend_from_slice(&2u64.to_le_bytes());
    tv.extend_from_slice(&500u64.to_le_bytes());
    assert_eq!(SocketOption::SO_RCVTIMEO.set(&mut s, &tv), Ok(()));
    let (r, buf, len) = get(SocketOption::SO_RCVTIMEO, &s, 16);
    assert_eq!(r, Ok(()));
    assert_eq!(len, 16);
    assert_eq!(&buf[..16], &tv[..]);
    assert_eq!(SocketOption::SO_RCVTIMEO.set(&mut s, &[0u8; 16]), Ok(()));
    assert_eq!(s.recv_timeout(), None);
    let (_, buf, len) = get(SocketOption::SO_RCVTIMEO, &s, 16);
    assert_eq!(len, 16);
    assert_eq!(&buf[..16], &[0u8; 16]);
    assert_eq!(get(SocketOption::SO_RCVTIMEO, &s, 15).0, Err(NetError::InvalidInput));
    assert_eq!(SocketOption::SO_RCVTIMEO.set(&mut s, &[1u8; 15]), Err(NetError::InvalidInput));
}

#[test]
fn flag_options() {
    let mut set = NetlinkSockSetWrapper::new();
    let mut u = sock(SocketType::SOCK_DGRAM, &mut set);
    assert_eq!(SocketOption::SO_REUSEADDR.set(&mut u, &1i32.to_le_bytes()), Ok(()));
    let (_, buf, len) = get(SocketOption::SO_REUSEADDR, &u, 4);
    assert_eq!((&buf[..4], len), (&[1u8, 0, 0, 0][..], 4));
    assert_eq!(SocketOption::SO_DONTROUTE.set(&mut u, &7i32.to_le_bytes()), Ok(()));
    let (_, buf, _) = get(SocketOption::SO_DONTROUTE, &u, 4);
    assert_eq!(&buf[..4], &[1u8, 0, 0, 0]);
    assert_eq!(SocketOption::SO_KEEPALIVE.set(&mut u, &1i32.to_le_bytes()), Ok(()));
    let (_, buf, _) = get(SocketOption::SO_KEEPALIVE, &u, 4);
    assert_eq!(&buf[..4], &[0u8, 0, 0, 0]);
    let mut t = sock(SocketType::SOCK_STREAM, &mut set);
    assert_eq!(SocketOption::SO_KEEPALIVE.set(&mut t, &1i32.to_le_bytes()), Ok(()));
    assert_eq!(t.keep_alive(), Some(45));
    let (_, buf, _) = get(SocketOption::SO_KEEPALIVE, &t, 4);
    assert_eq!(&buf[..4], &[1u8, 0, 0, 0]);
    assert_eq!(SocketOption::SO_REUSEADDR.set(&mut t, &1i32.to_le_bytes()), Err(NetError::Unsupported));
    assert_eq!(get(SocketOption::SO_REUSEADDR, &t, 4).0, Err(NetError::Unsupported));
}

#[test]
fn socket_option_errors() {
    let mut set = NetlinkSockSetWrapper::new();
    let mut u = sock(SocketType::SOCK_DGRAM, &mut set);
    assert_eq!(SocketOption::SO_SNDBUF.set(&mut u, &[1, 2, 3]), Err(NetError::InvalidInput));
    let (r, buf, len) = get(SocketOption::SO_SNDBUF, &u, 3);
    assert_eq!((r, buf[0], len), (Err(NetError::InvalidInput), 0xee, 3));
    assert_eq!(SocketOption::SO_ERROR.set(&mut u, &[0; 4]), Err(NetError::Unsupported));
    let (r, buf, len) = get(SocketOption::SO_ERROR, &u, 4);
    assert_eq!((r, buf[0], len), (Ok(()), 0xee, 4));
    assert_eq!(SocketOption::SO_SNDTIMEO.set(&mut u, &[0; 16]), Err(NetError::PermissionDenied));
    assert_eq!(get(SocketOption::SO_SNDTIMEO, &u, 16).0, Err(NetError::Unsupported));
    let mut n = Socket::new(Domain::AF_NETLINK, SocketType::SOCK_RAW, 0, &mut set, 1).unwrap();
    assert_eq!(SocketOption::SO_KEEPALIVE.set(&mut n, &[1, 0, 0, 0]), Err(NetError::Unsupported));
    assert_eq!(SocketOption::try_from_raw(7), Some(SocketOption::SO_SNDBUF));
    assert_eq!(SocketOption::try_from_raw(3), None);
    assert_eq!(SocketOptionLevel::try_from_raw(6), Some(SocketOptionLevel::Tcp));
}

#[test]
fn ip_options() {
    let mut set = NetlinkSockSetWrapper::new();
    let u = sock(SocketType::SOCK_DGRAM, &mut set);
    let t = sock(SocketType::SOCK_STREAM, &mut set);
    assert_eq!(IpOption::IP_MULTICAST_TTL.set(&u, &[8]), Ok(IpEffect::SetTtl(8)));
    assert_eq!(IpOption::IP_MULTICAST_TTL.set(&u, &[0]), Err(NetError::InvalidInput));
    assert_eq!(IpOption::IP_MULTICAST_TTL.set(&u, &[]), Err(NetError::InvalidInput));
    assert_eq!(IpOption::IP_MULTICAST_TTL.set(&t, &[8]), Err(NetError::Unsupported));
    assert_eq!(
        IpOption::IP_ADD_MEMBERSHIP.set(&u, &[224, 0, 0, 251, 10, 0, 0, 1]),
        Ok(IpEffect::JoinGroup(IpAddr::v4(224, 0, 0, 251), IpAddr::v4(10, 0, 0, 1)))
    );
    assert_eq!(IpOption::IP_ADD_MEMBERSHIP.set(&u, &[224, 0, 0]), Err(NetError::InvalidInput));
    assert_eq!(IpOption::IP_ADD_MEMBERSHIP.set(&t, &[0; 8]), Err(NetError::Unsupported));
    assert_eq!(IpOption::IP_MULTICAST_IF.set(&t, &[]), Ok(IpEffect::Nothing));
    assert_eq!(IpOption::IP_MULTICAST_LOOP.set(&u, &[1]), Ok(IpEffect::Nothing));
    assert_eq!(IpOption::try_from_raw(35), Some(IpOption::IP_ADD_MEMBERSHIP));
}

#[test]
fn tcp_options() {
    let mut set = NetlinkSockSetWrapper::new();
    let mut t = sock(SocketType::SOCK_STREAM, &mut set);
    let mut u = sock(SocketType::SOCK_DGRAM, &mut set);
    let mut buf = [0u8; 16];
    let mut len: u32 = 4;
    assert_eq!(TcpSocketOption::TCP_NODELAY.get(&t, &mut buf, &mut len), Ok(()));
    assert_eq!((&buf[..4], len), (&[0u8, 0, 0, 0][..], 4));
    assert_eq!(TcpSocketOption::TCP_NODELAY.set(&mut t, &1i32.to_le_bytes()), Ok(TcpEffect::Flush));
    assert!(!t.nagle_enabled());
    assert_eq!(TcpSocketOption::TCP_NODELAY.get(&t, &mut buf, &mut len), Ok(()));
    assert_eq!(&buf[..4], &[1u8, 0, 0, 0]);
    let mut len: u32 = 8;
    assert_eq!(TcpSocketOption::TCP_MAXSEG.get(&t, &mut buf, &mut len), Ok(()));
    assert_eq!((u64::from_le_bytes(buf[..8].try_into().unwrap()), len), (1500, 8));
    let mut len: u32 = 4;
    assert_eq!(TcpSocketOption::TCP_MAXSEG.get(&t, &mut buf, &mut len), Err(NetError::InvalidInput));
    assert_eq!(TcpSocketOption::TCP_CONGESTION.set(&mut t, b"cubic"), Ok(TcpEffect::Nothing));
    let mut len: u32 = 16;
    assert_eq!(TcpSocketOption::TCP_CONGESTION.get(&t, &mut buf, &mut len), Ok(()));
    assert_eq!((&buf[..5], len), (&b"cubic"[..], 5));
    let mut len: u32 = 3;
    assert_eq!(TcpSocketOption::TCP_CONGESTION.get(&t, &mut buf, &mut len), Ok(()));
    assert_eq!(len, 3);
    assert_eq!(TcpSocketOption::TCP_INFO.set(&mut t, &[]), Err(NetError::Unsupported));
    assert_eq!(TcpSocketOption::TCP_NODELAY.set(&mut u, &[0; 4]), Err(NetError::Unsupported));
    let mut len: u32 = 4;
    assert_eq!(TcpSocketOption::TCP_NODELAY.get(&u, &mut buf, &mut len), Err(NetError::Unsupported));
    assert_eq!(TcpSocketOption::TCP_NODELAY.set(&mut t, &[0; 2]), Err(NetError::InvalidInput));
    assert_eq!(TcpSocketOption::try_from_raw(13), Some(TcpSocketOption::TCP_CONGESTION));
}
