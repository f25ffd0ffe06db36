//! One attempt of each blocking UDP operation on the stack's UDP socket.
//! The caller holds the socket, and between attempts polls the interfaces
//! and yields, as the step of `block_on_step` says.
use vstd::prelude::*;

use smoltcp::socket::udp::Socket as UdpStackSocket;
use smoltcp::wire::{IpAddress, IpEndpoint, IpListenEndpoint};

use crate::addr::{IpAddr, SocketAddr};
use crate::error::NetError;
use crate::udp::{
    recv_filter, recv_from_result, recv_ready, recv_ready_timeout, send_ready, send_result,
    timeout_outcome, BindFailure, ListenEndpoint, SendFailure,
};

verus! {

#[verifier::external_type_specification]
#[verifier::external_body]
pub struct ExUdpSocket<'a>(UdpStackSocket<'a>);

/// Whether a stack socket is bound to a local port.
pub uninterp spec fn udp_open(s: UdpStackSocket<'static>) -> bool;

/// The hop limit a stack socket sends with, if one was set.
pub uninterp spec fn udp_hop_limit(s: UdpStackSocket<'static>) -> Option<u8>;

/// Whether a stack socket has a datagram queued.
pub uninterp spec fn udp_can_recv_of(s: UdpStackSocket<'static>) -> bool;

/// Whether a stack socket's transmit buffer has room.
pub uninterp spec fn udp_can_send_of(s: UdpStackSocket<'static>) -> bool;

/// Relies on smoltcp's `udp::Socket::is_open`: whether the socket has a local port.
#[verifier::external_body]
fn udp_is_open(s: &UdpStackSocket<'static>) -> (r: bool)
    ensures
        r == udp_open(*s),
{
    s.is_open()
}

/// Relies on smoltcp's `udp::Socket::can_send`: whether the transmit buffer has room.
#[verifier::external_body]
fn udp_can_send(s: &UdpStackSocket<'static>) -> (r: bool)
    ensures
        r == udp_can_send_of(*s),
{
    s.can_send()
}

/// Relies on smoltcp's `udp::Socket::can_recv`: whether a datagram is queued.
#[verifier::external_body]
fn udp_can_recv(s: &UdpStackSocket<'static>) -> (r: bool)
    ensures
        r == udp_can_recv_of(*s),
{
    s.can_recv()
}

/// Relies on smoltcp's `udp::Socket::bind`: port 0 is refused as
/// unaddressable, then an open socket as in an invalid state; otherwise the
/// socket is bound to the endpoint, which opens it.
#[verifier::external_body]
fn udp_bind(s: &mut UdpStackSocket<'static>, e: ListenEndpoint) -> (r: Option<BindFailure>)
    ensures
        r == if e.port == 0 {
            Some(BindFailure::Unaddressable)
        } else if udp_open(*old(s)) {
            Some(BindFailure::InvalidState)
        } else {
            None::<BindFailure>
        },
        r is None ==> udp_open(*final(s)),
        r is Some ==> udp_open(*final(s)) == udp_open(*old(s)),
{
    let addr = match e.addr {
        Some(a) => Some(IpAddress::v4(a.0, a.1, a.2, a.3)),
        None => None,
    };
    s.bind(IpListenEndpoint { addr, port: e.port }).err().map(|err| match err {
        smoltcp::socket::udp::BindError::InvalidState => BindFailure::InvalidState,
        smoltcp::socket::udp::BindError::Unaddressable => BindFailure::Unaddressable,
    })
}

/// Relies on smoltcp's `udp::Socket::send_slice`: queues `data` for `dest`;
/// an unbound socket, a wildcard destination address or port 0 is
/// unaddressable. The binding is left as it was.
#[verifier::external_body]
fn udp_send_slice(s: &mut UdpStackSocket<'static>, data: &[u8], dest: SocketAddr) -> (r: Option<SendFailure>)
    ensures
        !udp_open(*old(s)) || dest.addr.is_unspecified() || dest.port == 0 ==> r == Some(
            SendFailure::Unaddressable,
        ),
        udp_open(*final(s)) == udp_open(*old(s)),
{
    let ep = IpEndpoint::new(IpAddress::v4(dest.addr.0, dest.addr.1, dest.addr.2, dest.addr.3), dest.port);
    s.send_slice(data, ep).err().map(|err| match err {
        smoltcp::socket::udp::SendError::Unaddressable => SendFailure::Unaddressable,
        smoltcp::socket::udp::SendError::BufferFull => SendFailure::BufferFull,
    })
}

/// Relies on smoltcp's `udp::Socket::recv_slice`: takes the oldest datagram, copies
/// at most `data.len()` bytes of it and returns that length and its
/// origin; `None` when nothing is queued.
#[verifier::external_body]
fn udp_recv_slice(s: &mut UdpStackSocket<'static>, data: &mut [u8]) -> (r: Option<(usize, SocketAddr)>)
    ensures
        final(data)@.len() == old(data)@.len(),
        r matches Some((n, _)) ==> n <= old(data)@.len(),
        udp_open(*final(s)) == udp_open(*old(s)),
{
    match s.recv_slice(data) {
        Ok((n, meta)) => {
            let IpAddress::Ipv4(a) = meta.endpoint.addr;
            Some((n, SocketAddr { addr: IpAddr(a.0[0], a.0[1], a.0[2], a.0[3]), port: meta.endpoint.port }))
        },
        Err(_) => None,
    }
}

/// Relies on smoltcp's `udp::Socket::peek_slice`: as `recv_slice`, but the datagram
/// stays queued.
#[verifier::external_body]
fn udp_peek_slice(s: &mut UdpStackSocket<'static>, data: &mut [u8]) -> (r: Option<(usize, SocketAddr)>)
    ensures
        final(data)@.len() == old(data)@.len(),
        r matches Some((n, _)) ==> n <= old(data)@.len(),
        udp_open(*final(s)) == udp_open(*old(s)),
{
    match s.peek_slice(data) {
        Ok((n, meta)) => {
            let IpAddress::Ipv4(a) = meta.endpoint.addr;
            Some((n, SocketAddr { addr: IpAddr(a.0[0], a.0[1], a.0[2], a.0[3]), port: meta.endpoint.port }))
        },
        Err(_) => None,
    }
}

/// Relies on smoltcp's `udp::Socket::close`: unbinds the socket and drops what it
/// holds.
#[verifier::external_body]
fn udp_close(s: &mut UdpStackSocket<'static>)
    ensures
        !udp_open(*final(s)),
{
    s.close()
}

/// Relies on smoltcp's `udp::Socket::set_hop_limit`, which panics on a hop limit of 0.
#[verifier::external_body]
fn udp_set_hop_limit(s: &mut UdpStackSocket<'static>, ttl: u8)
    requires
        ttl != 0,
    ensures
        udp_hop_limit(*final(s)) == Some(ttl),
        udp_open(*final(s)) == udp_open(*old(s)),
{
    s.set_hop_limit(Some(ttl))
}

/// One attempt to send `buf` to `dest`: the whole datagram is queued, or
/// the socket is closed, the buffer is full, or the destination is refused.
pub fn send_attempt(sock: &mut UdpStackSocket<'static>, buf: &[u8], dest: SocketAddr) -> (r: Result<
    usize,
    NetError,
>)
    ensures
        r is Ok ==> r == Ok::<usize, NetError>(buf@.len() as usize),
        r matches Err(e) ==> e == NetError::NotConnected || e == NetError::WouldBlock || e
            == NetError::ConnectionRefused,
        !udp_open(*old(sock)) ==> r == Err::<usize, NetError>(NetError::NotConnected),
        udp_open(*old(sock)) && !udp_can_send_of(*old(sock)) ==> r == Err::<usize, NetError>(
            NetError::WouldBlock,
        ),
        udp_open(*old(sock)) && (dest.addr.is_unspecified() || dest.port == 0) ==> r is Err,
        udp_open(*final(sock)) == udp_open(*old(sock)),
{
    let open = udp_is_open(sock);
    let room = udp_can_send(sock);
    send_ready(open, room)?;
    let sent = match udp_send_slice(sock, buf, dest) {
        None => Ok(()),
        Some(f) => Err(f),
    };
    send_result(buf.len(), sent)
}

/// One attempt to take a datagram into `buf`: its length and origin, or
/// the socket is closed or has nothing queued.
pub fn recv_from_attempt(sock: &mut UdpStackSocket<'static>, buf: &mut [u8]) -> (r: Result<
    (usize, SocketAddr),
    NetError,
>)
    ensures
        final(buf)@.len() == old(buf)@.len(),
        r matches Ok((n, _)) ==> n <= old(buf)@.len(),
        r matches Err(e) ==> e == NetError::NotConnected || e == NetError::WouldBlock || e
            == NetError::BadState,
        !udp_open(*old(sock)) ==> r == Err::<(usize, SocketAddr), NetError>(NetError::NotConnected),
        udp_open(*old(sock)) && !udp_can_recv_of(*old(sock)) ==> r == Err::<
            (usize, SocketAddr),
            NetError,
        >(NetError::WouldBlock),
        udp_open(*final(sock)) == udp_open(*old(sock)),
{
    let open = udp_is_open(sock);
    let ready = udp_can_recv(sock);
    recv_ready(open, ready)?;
    let got = udp_recv_slice(sock, buf);
    recv_from_result(got)
}

/// One attempt of a receive with deadline `expire_at` at tick `now`: with
/// nothing queued it times out once `now` is past the deadline.
pub fn recv_from_timeout_attempt(
    sock: &mut UdpStackSocket<'static>,
    buf: &mut [u8],
    now: u64,
    expire_at: u64,
) -> (r: Result<(usize, SocketAddr), NetError>)
    ensures
        final(buf)@.len() == old(buf)@.len(),
        r matches Ok((n, _)) ==> n <= old(buf)@.len(),
        r matches Err(e) ==> e == NetError::NotConnected || e == NetError::WouldBlock || e
            == NetError::Timeout || e == NetError::BadState,
        r == Err::<(usize, SocketAddr), NetError>(NetError::Timeout) ==> now > expire_at,
        r == Err::<(usize, SocketAddr), NetError>(NetError::WouldBlock) ==> now <= expire_at,
        !udp_open(*old(sock)) ==> r == Err::<(usize, SocketAddr), NetError>(NetError::NotConnected),
        udp_open(*old(sock)) && !udp_can_recv_of(*old(sock)) ==> r == Err::<
            (usize, SocketAddr),
            NetError,
        >(timeout_outcome(now, expire_at)),
        udp_open(*final(sock)) == udp_open(*old(sock)),
{
    let open = udp_is_open(sock);
    let ready = udp_can_recv(sock);
    recv_ready_timeout(open, ready, now, expire_at)?;
    let got = udp_recv_slice(sock, buf);
    recv_from_result(got)
}

/// One attempt to copy the oldest datagram into `buf` without taking it.
pub fn peek_from_attempt(sock: &mut UdpStackSocket<'static>, buf: &mut [u8]) -> (r: Result<
    (usize, SocketAddr),
    NetError,
>)
    ensures
        final(buf)@.len() == old(buf)@.len(),
        r matches Ok((n, _)) ==> n <= old(buf)@.len(),
        r matches Err(e) ==> e == NetError::NotConnected || e == NetError::WouldBlock || e
            == NetError::BadState,
        !udp_open(*old(sock)) ==> r == Err::<(usize, SocketAddr), NetError>(NetError::NotConnected),
        udp_open(*old(sock)) && !udp_can_recv_of(*old(sock)) ==> r == Err::<
            (usize, SocketAddr),
            NetError,
        >(NetError::WouldBlock),
        udp_open(*final(sock)) == udp_open(*old(sock)),
{
    let open = udp_is_open(sock);
    let ready = udp_can_recv(sock);
    recv_ready(open, ready)?;
    let got = udp_peek_slice(sock, buf);
    recv_from_result(got)
}

/// One attempt of a receive on a socket connected to `peer`: a datagram
/// from any other endpoint is taken and skipped as a would-block.
pub fn recv_attempt(sock: &mut UdpStackSocket<'static>, buf: &mut [u8], peer: SocketAddr) -> (r: Result<
    usize,
    NetError,
>)
    ensures
        final(buf)@.len() == old(buf)@.len(),
        r matches Ok(n) ==> n <= old(buf)@.len(),
        r matches Err(e) ==> e == NetError::NotConnected || e == NetError::WouldBlock || e
            == NetError::BadState,
        !udp_open(*old(sock)) ==> r == Err::<usize, NetError>(NetError::NotConnected),
        udp_open(*old(sock)) && !udp_can_recv_of(*old(sock)) ==> r == Err::<usize, NetError>(
            NetError::WouldBlock,
        ),
        udp_open(*final(sock)) == udp_open(*old(sock)),
{
    let open = udp_is_open(sock);
    let ready = udp_can_recv(sock);
    recv_ready(open, ready)?;
    let got = udp_recv_slice(sock, buf);
    recv_filter(peer, got)
}

/// Binds the stack socket to `endpoint`: `None` on success, else how the
/// stack refused.
pub fn bind_endpoint(sock: &mut UdpStackSocket<'static>, endpoint: ListenEndpoint) -> (r:
    Result<(), BindFailure>)
    ensures
        r == if endpoint.port == 0 {
            Err(BindFailure::Unaddressable)
        } else if udp_open(*old(sock)) {
            Err(BindFailure::InvalidState)
        } else {
            Ok::<(), BindFailure>(())
        },
        r is Ok ==> udp_open(*final(sock)),
        r is Err ==> udp_open(*final(sock)) == udp_open(*old(sock)),
{
    match udp_bind(sock, endpoint) {
        None => Ok(()),
        Some(f) => Err(f),
    }
}

/// Sets the hop limit of the stack socket; 0 is refused and changes
/// nothing.
pub fn set_socket_ttl(sock: &mut UdpStackSocket<'static>, ttl: u8) -> (r: Result<(), NetError>)
    ensures
        r == if ttl == 0 {
            Err(NetError::InvalidInput)
        } else {
            Ok::<(), NetError>(())
        },
        ttl != 0 ==> udp_hop_limit(*final(sock)) == Some(ttl),
        ttl == 0 ==> *final(sock) == *old(sock),
        udp_open(*final(sock)) == udp_open(*old(sock)),
{
    if ttl == 0 {
        return Err(NetError::InvalidInput);
    }
    udp_set_hop_limit(sock, ttl);
    Ok(())
}

/// Closes the stack socket, which leaves it unbound; closing again changes
/// nothing more.
pub fn shutdown(sock: &mut UdpStackSocket<'static>) -> (r: Result<(), NetError>)
    ensures
        r == Ok::<(), NetError>(()),
        !udp_open(*final(sock)),
{
    udp_close(sock);
    Ok(())
}

/// What the stack socket reports: whether a datagram is queued, and
/// whether the transmit buffer has room.
pub fn readiness(sock: &UdpStackSocket<'static>) -> (r: (bool, bool))
    ensures
        r == (udp_can_recv_of(*sock), udp_can_send_of(*sock)),
{
    (udp_can_recv(sock), udp_can_send(sock))
}

} // verus!
