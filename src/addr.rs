//! IPv4 socket addresses and their 8-byte system-call form.
use vstd::prelude::*;

use crate::bytes::{be_u16, le_u16, lemma_u16_be_round_trip, lemma_u16_le_round_trip, read_be_u16, read_le_u16, u16_be, u16_le, copy_prefix};
use crate::error::NetError;

verus! {

/// Address family code of IPv4 in the system-call address buffer.
pub const AF_INET_FAMILY: u16 = 2;

/// Address family code of NETLINK in the system-call address buffer.
pub const AF_NETLINK_FAMILY: u16 = 16;

/// Length of an IPv4 socket address in its system-call form.
pub const SOCKADDR_IN_LEN: u32 = 8;

/// An IPv4 address, octets in network order.
#[derive(Clone, Copy, Debug, PartialEq, Eq, Structural)]
pub struct IpAddr(pub u8, pub u8, pub u8, pub u8);

impl IpAddr {
    /// The address `a.b.c.d`.
    pub fn v4(a: u8, b: u8, c: u8, d: u8) -> (r: IpAddr)
        ensures
            r == IpAddr(a, b, c, d),
    {
        IpAddr(a, b, c, d)
    }

    pub open spec fn spec_is_unspecified(&self) -> bool {
        *self == IpAddr(0, 0, 0, 0)
    }

    /// Whether this is the wildcard address `0.0.0.0`.
    #[verifier::when_used_as_spec(spec_is_unspecified)]
    pub fn is_unspecified(&self) -> (r: bool)
        ensures
            r == self.spec_is_unspecified(),
    {
        self.0 == 0 && self.1 == 0 && self.2 == 0 && self.3 == 0
    }

    /// The four octets in network order.
    pub open spec fn octets(self) -> Seq<u8> {
        seq![self.0, self.1, self.2, self.3]
    }
}

/// An IPv4 endpoint: address and port.
#[derive(Clone, Copy, Debug, PartialEq, Eq, Structural)]
pub struct SocketAddr {
    pub addr: IpAddr,
    pub port: u16,
}

impl SocketAddr {
    pub fn new(addr: IpAddr, port: u16) -> (r: SocketAddr)
        ensures
            r == (SocketAddr { addr, port }),
    {
        SocketAddr { addr, port }
    }

    /// The wildcard endpoint `0.0.0.0:0`.
    pub open spec fn idle() -> SocketAddr {
        SocketAddr { addr: IpAddr(0, 0, 0, 0), port: 0 }
    }

    /// The address of a NETLINK endpoint: the wildcard endpoint, whatever
    /// the multicast groups.
    pub fn new_netlink(groups: u32) -> (r: SocketAddr)
        ensures
            r == SocketAddr::idle(),
    {
        SocketAddr { addr: IpAddr(0, 0, 0, 0), port: 0 }
    }

    /// This endpoint with port `port`.
    pub open spec fn with_port(self, port: u16) -> SocketAddr {
        SocketAddr { port, ..self }
    }

    /// Whether both address and port are wildcards.
    pub open spec fn spec_is_idle(self) -> bool {
        self == SocketAddr::idle()
    }
}

impl Default for SocketAddr {
    fn default() -> (r: SocketAddr)
        ensures
            r == SocketAddr::idle(),
    {
        SocketAddr { addr: IpAddr(0, 0, 0, 0), port: 0 }
    }
}

/// The system-call form of an IPv4 endpoint: the family (little-endian),
/// the port (big-endian) and the four octets of the address.
pub open spec fn sockaddr_bytes(a: SocketAddr) -> Seq<u8> {
    u16_le(AF_INET_FAMILY) + u16_be(a.port) + a.addr.octets()
}

/// What an address buffer holds: an IPv4 endpoint, the wildcard for a
/// NETLINK address, or an error for a short buffer or another family.
pub open spec fn decode_sockaddr(b: Seq<u8>) -> Result<SocketAddr, NetError> {
    if b.len() < 2 {
        Err(NetError::InvalidInput)
    } else if le_u16(b, 0) == AF_INET_FAMILY {
        if b.len() < 8 {
            Err(NetError::InvalidInput)
        } else {
            Ok(SocketAddr { addr: IpAddr(b[4], b[5], b[6], b[7]), port: be_u16(b, 2) })
        }
    } else if le_u16(b, 0) == AF_NETLINK_FAMILY {
        Ok(SocketAddr::idle())
    } else {
        Err(NetError::Unsupported)
    }
}

/// Reads a socket address from its system-call form.
pub fn socket_address_from(buf: &[u8]) -> (r: Result<SocketAddr, NetError>)
    ensures
        r == decode_sockaddr(buf@),
{
    if buf.len() < 2 {
        return Err(NetError::InvalidInput);
    }
    let family = read_le_u16(buf, 0);
    if family == AF_INET_FAMILY {
        if buf.len() < 8 {
            return Err(NetError::InvalidInput);
        }
        let port = read_be_u16(buf, 2);
        Ok(SocketAddr { addr: IpAddr(buf[4], buf[5], buf[6], buf[7]), port })
    } else if family == AF_NETLINK_FAMILY {
        Ok(SocketAddr::new_netlink(0))
    } else {
        Err(NetError::Unsupported)
    }
}

/// The eight bytes of the system-call form of `addr`.
pub fn sockaddr_to_bytes(addr: SocketAddr) -> (r: Vec<u8>)
    ensures
        r@ == sockaddr_bytes(addr),
{
    let r = vec![
        (AF_INET_FAMILY % 256) as u8,
        (AF_INET_FAMILY / 256) as u8,
        (addr.port / 256) as u8,
        (addr.port % 256) as u8,
        addr.addr.0,
        addr.addr.1,
        addr.addr.2,
        addr.addr.3,
    ];
    assert(r@ =~= sockaddr_bytes(addr));
    r
}

/// Writes `addr` in its system-call form into `buf`, at most `*buf_len`
/// bytes of it (the capacity the caller declared), and reports the full
/// length of the form in `*buf_len`.
pub fn socket_address_to(addr: SocketAddr, buf: &mut [u8], buf_len: &mut u32) -> (r: Result<
    (),
    NetError,
>)
    requires
        *old(buf_len) as int <= old(buf)@.len(),
    ensures
        r == Ok::<(), NetError>(()),
        *final(buf_len) == SOCKADDR_IN_LEN,
        final(buf)@.len() == old(buf)@.len(),
        forall|i: int|
            0 <= i < 8 && i < *old(buf_len) ==> final(buf)@[i] == #[trigger] sockaddr_bytes(addr)[i],
        forall|i: int|
            0 <= i < old(buf)@.len() && (i >= 8 || i >= *old(buf_len)) ==> final(buf)@[i]
                == old(buf)@[i],
{
    let cap = *buf_len as usize;
    let bytes = sockaddr_to_bytes(addr);
    copy_prefix(buf, bytes.as_slice(), cap);
    *buf_len = SOCKADDR_IN_LEN;
    Ok(())
}

/// Encoding an endpoint into its system-call form and reading it back
/// gives the same endpoint.
pub proof fn lemma_sockaddr_round_trip(a: SocketAddr)
    ensures
        sockaddr_bytes(a).len() == 8,
        decode_sockaddr(sockaddr_bytes(a)) == Ok::<SocketAddr, NetError>(a),
{
    let b = sockaddr_bytes(a);
    lemma_u16_le_round_trip(AF_INET_FAMILY);
    lemma_u16_be_round_trip(a.port);
    assert(b.subrange(0, 2) =~= u16_le(AF_INET_FAMILY));
    assert(b.subrange(2, 4) =~= u16_be(a.port));
    assert(le_u16(b, 0) == le_u16(u16_le(AF_INET_FAMILY), 0));
    assert(be_u16(b, 2) == be_u16(u16_be(a.port), 0));
}

} // verus!
