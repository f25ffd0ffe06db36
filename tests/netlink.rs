use axnet::error::NetError;
use axnet::netlink::{parse_header, NetlinkHeader, NetlinkSocket, NLMSG_DONE, NLM_F_MULTI};
use axnet::raw::RawNetlinkSocket;
use axnet::table::NetlinkSockSetWrapper;

fn request(len: u32, ty: u16, flags: u16, seq: u32, pid: u32) -> Vec<u8> {
    let mut v = Vec::new();
    v.extend_from_slice(&len.to_le_bytes());
    v.extend_from_slice(&ty.to_le_bytes());
    v.extend_from_slice(&flags.to_le_bytes());
    v.extend_from_slice(&seq.to_le_bytes());
    v.extend_from_slice(&pid.to_le_bytes());
    v
}

#[test]
fn getlink_round_trip() {
    let mut set = NetlinkSockSetWrapper::new();
    let s = NetlinkSocket::new(&mut set, 7);
    assert_eq!(s.pid(), 7);
    assert_eq!(s.bind(), Ok(()));
    let req = request(16, 18, 0x301, 42, 99);
    assert_eq!(s.send(&mut set, &req), Ok(20));
    let mut buf = [0u8; 64];
    assert_eq!(s.recv(&mut set, &mut buf), Ok(20));
    let h = parse_header(&buf).unwrap();
    assert_eq!(
        h,
        NetlinkHeader { length: 16, message_type: NLMSG_DONE, flags: NLM_F_MULTI, sequence_number: 42, port_number: 99 }
    );
    assert_eq!(&buf[16..20], &[0, 0, 0, 0]);
    assert_eq!(s.recv(&mut set, &mut buf), Ok(0));
}

#[test]
fn getaddr_replies_and_queues_in_order() {
    let mut set = NetlinkSockSetWrapper::new();
    let s = NetlinkSocket::new(&mut set, 1);
    assert_eq!(s.send(&mut set, &request(16, 22, 0, 1, 0)), Ok(20));
    assert_eq!(s.send(&mut set, &request(16, 18, 0, 2, 0)), Ok(20));
    let mut buf = [0u8; 20];
    assert_eq!(s.recv(&mut set, &mut buf), Ok(20));
    assert_eq!(parse_header(&buf).unwrap().sequence_number, 1);
    assert_eq!(s.recv(&mut set, &mut buf), Ok(20));
    assert_eq!(parse_header(&buf).unwrap().sequence_number, 2);
    assert_eq!(s.recv(&mut set, &mut buf), Ok(0));
}

#[test]
fn netlink_short_and_unsupported_requests() {
    let mut set = NetlinkSockSetWrapper::new();
    let s = NetlinkSocket::new(&mut set, 1);
    assert_eq!(s.send(&mut set, &[0u8; 15]), Err(NetError::InvalidInput));
    assert_eq!(s.send(&mut set, &request(16, 16, 0, 0, 0)), Err(NetError::Unsupported));
    let mut buf = [0u8; 20];
    assert_eq!(s.recv(&mut set, &mut buf), Ok(0));
}

#[test]
fn netlink_recv_truncates_to_buffer() {
    let mut set = NetlinkSockSetWrapper::new();
    let s = NetlinkSocket::new(&mut set, 1);
    assert_eq!(s.send(&mut set, &request(16, 18, 0, 5, 0)), Ok(20));
    let mut small = [0u8; 8];
    assert_eq!(s.recv(&mut set, &mut small), Ok(8));
    assert_eq!(&small[..4], &16u32.to_le_bytes());
    let mut buf = [0u8; 20];
    assert_eq!(s.recv(&mut set, &mut buf), Ok(0));
}

#[test]
fn raw_channel_frames_and_capacity() {
    let mut raw = RawNetlinkSocket::new();
    assert_eq!(raw.send(&[1, 2, 3]), Ok(3));
    assert_eq!(raw.send(&[4, 5]), Ok(2));
    let mut buf = [0u8; 4];
    assert_eq!(raw.recv(&mut buf), Ok(3));
    assert_eq!(buf, [1, 2, 3, 0]);
    assert_eq!(raw.recv(&mut buf), Ok(2));
    assert_eq!(&buf[..2], &[4, 5]);
    assert_eq!(raw.recv(&mut buf), Ok(0));
    let big = vec![9u8; 65536];
    assert_eq!(raw.send(&big), Ok(65536));
    assert_eq!(raw.send(&[1]), Err(NetError::NoMemory));
    let mut out = vec![0u8; 65536];
    assert_eq!(raw.recv(&mut out), Ok(65536));
    assert!(out.iter().all(|b| *b == 9));
    assert_eq!(raw.send(&[1]), Ok(1));
}

#[test]
fn handle_reuse_first_fit() {
    let mut set = NetlinkSockSetWrapper::new();
    let a = NetlinkSocket::new(&mut set, 1);
    let b = NetlinkSocket::new(&mut set, 1);
    let c = NetlinkSocket::new(&mut set, 1);
    assert_eq!((a.handle(), b.handle(), c.handle()), (0, 1, 2));
    b.close(&mut set);
    let d = NetlinkSocket::new(&mut set, 1);
    assert_eq!(d.handle(), 1);
    let e = NetlinkSocket::new(&mut set, 1);
    assert_eq!(e.handle(), 3);
}

#[test]
fn handle_table_direct() {
    let mut set = NetlinkSockSetWrapper::new();
    let h0 = set.add(NetlinkSockSetWrapper::new_netlink_socket());
    let h1 = set.add(NetlinkSockSetWrapper::new_netlink_socket());
    assert_eq!((h0, h1), (0, 1));
    assert_eq!(set.with_socket_mut(h1).send(&[1, 2]), Ok(2));
    set.remove(h0);
    assert_eq!(set.add(NetlinkSockSetWrapper::new_netlink_socket()), 0);
    let mut buf = [0u8; 2];
    assert_eq!(set.with_socket_mut(h1).recv(&mut buf), Ok(2));
    assert_eq!(buf, [1, 2]);
    let _ = set.with_socket(h0);
}
