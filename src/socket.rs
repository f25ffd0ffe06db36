//! The unified socket over the TCP, UDP and NETLINK adapters.
use vstd::prelude::*;

use crate::addr::{IpAddr, SocketAddr};
use crate::bytes::{le_u64, read_le_u64, u64_le, u64_to_le};
use crate::error::NetError;
use crate::netlink::{reply_to, NetlinkSocket};
use crate::port::{next_cursor, EphemeralPorts, PORT_START};
use crate::table::{insert_at, is_first_free, NetlinkSockSetWrapper};
use crate::tcp::{TcpSocket, KEEP_ALIVE_SECS};
use crate::udp::{listen_of, local_of, BindFailure, ListenEndpoint, PollState, UdpSocket};

verus! {

/// Mask of the socket type in the `type` argument of `socket()`.
pub const SOCKET_TYPE_MASK: usize = 0xff;

/// Flag of `socket()`'s `type` argument: open the socket non-blocking.
pub const SOCK_NONBLOCK: usize = 0x800;

/// Flag of `socket()`'s `type` argument: close the descriptor on exec.
pub const SOCK_CLOEXEC: usize = 0x80000;

/// Descriptor status flag: operations do not block.
pub const O_NONBLOCK: u32 = 0x800;

/// Descriptor status flag: close on exec.
pub const O_CLOEXEC: u32 = 0x80000;

/// Microseconds per second.
pub const MICROS_PER_SEC: u64 = 1_000_000;

/// Initial advertised send and receive buffer sizes.
pub const DEFAULT_BUF_SIZE: u32 = 65536;

/// Length of a `timeval` in its system-call form.
pub const TIMEVAL_LEN: usize = 16;

/// Address families.
#[allow(non_camel_case_types)]
#[derive(Clone, Copy, Debug, PartialEq, Eq, Structural)]
pub enum Domain {
    AF_UNIX,
    AF_INET,
    AF_NETLINK,
}

impl Domain {
    /// The family's code in system calls.
    pub open spec fn code(self) -> usize {
        match self {
            Domain::AF_UNIX => 1,
            Domain::AF_INET => 2,
            Domain::AF_NETLINK => 16,
        }
    }

    /// The family with code `v`, if any.
    pub fn try_from_raw(v: usize) -> (r: Option<Domain>)
        ensures
            r matches Some(d) ==> d.code() == v,
            r is None ==> forall|d: Domain| d.code() != v,
    {
        if v == 1 {
            Some(Domain::AF_UNIX)
        } else if v == 2 {
            Some(Domain::AF_INET)
        } else if v == 16 {
            Some(Domain::AF_NETLINK)
        } else {
            None
        }
    }
}

/// Socket types.
#[allow(non_camel_case_types)]
#[derive(Clone, Copy, Debug, PartialEq, Eq, Structural)]
pub enum SocketType {
    /// Sequenced, reliable, two-way, connection-based byte streams.
    SOCK_STREAM,
    /// Connectionless, unreliable datagrams of a fixed maximum length.
    SOCK_DGRAM,
    /// Raw network protocol access.
    SOCK_RAW,
    /// Reliable datagrams without ordering.
    SOCK_RDM,
    /// Sequenced, reliable, connection-based datagrams.
    SOCK_SEQPACKET,
    /// Datagram Congestion Control Protocol.
    SOCK_DCCP,
    /// Obsolete packet interface.
    SOCK_PACKET,
}

impl SocketType {
    /// The type's code in system calls.
    pub open spec fn code(self) -> usize {
        match self {
            SocketType::SOCK_STREAM => 1,
            SocketType::SOCK_DGRAM => 2,
            SocketType::SOCK_RAW => 3,
            SocketType::SOCK_RDM => 4,
            SocketType::SOCK_SEQPACKET => 5,
            SocketType::SOCK_DCCP => 6,
            SocketType::SOCK_PACKET => 10,
        }
    }

    /// The type with code `v`, if any.
    pub fn try_from_raw(v: usize) -> (r: Option<SocketType>)
        ensures
            r matches Some(t) ==> t.code() == v,
            r is None ==> forall|t: SocketType| t.code() != v,
    {
        if v == 1 {
            Some(SocketType::SOCK_STREAM)
        } else if v == 2 {
            Some(SocketType::SOCK_DGRAM)
        } else if v == 3 {
            Some(SocketType::SOCK_RAW)
        } else if v == 4 {
            Some(SocketType::SOCK_RDM)
        } else if v == 5 {
            Some(SocketType::SOCK_SEQPACKET)
        } else if v == 6 {
            Some(SocketType::SOCK_DCCP)
        } else if v == 10 {
            Some(SocketType::SOCK_PACKET)
        } else {
            None
        }
    }

    /// Whether the type is connection-oriented (it may listen and accept).
    pub open spec fn spec_is_stream(self) -> bool {
        self == SocketType::SOCK_STREAM || self == SocketType::SOCK_SEQPACKET
    }
}

/// A time interval as seconds and microseconds.
#[derive(Clone, Copy, Debug, PartialEq, Eq, Structural)]
pub struct TimeVal {
    pub sec: u64,
    pub usec: u64,
}

/// `x`, or the largest `u64` if `x` is larger.
pub open spec fn saturate(x: int) -> u64 {
    if x > u64::MAX {
        u64::MAX
    } else {
        x as u64
    }
}

/// `a * b`, saturating.
fn saturating_mul(a: u64, b: u64) -> (r: u64)
    ensures
        r == saturate(a * b),
{
    if b != 0 && a > u64::MAX / b {
        assert(a * b > u64::MAX) by (nonlinear_arith)
            requires
                b != 0,
                a > u64::MAX / b,
        ;
        u64::MAX
    } else {
        assert(a * b <= u64::MAX) by (nonlinear_arith)
            requires
                b == 0 || a <= u64::MAX / b,
        ;
        a * b
    }
}

impl TimeVal {
    /// The number of ticks, at `ticks_per_sec`, of this interval; each
    /// product saturates.
    pub open spec fn spec_ticks(self, ticks_per_sec: u64) -> u64 {
        saturate(
            saturate(self.sec * ticks_per_sec) as int + (saturate(self.usec * ticks_per_sec)
                / MICROS_PER_SEC) as int,
        )
    }

    /// Converts the interval to ticks of the scheduler's clock.
    pub fn turn_to_ticks(&self, ticks_per_sec: u64) -> (r: u64)
        ensures
            r == self.spec_ticks(ticks_per_sec),
    {
        let whole = saturating_mul(self.sec, ticks_per_sec);
        let part = saturating_mul(self.usec, ticks_per_sec) / MICROS_PER_SEC;
        if part > u64::MAX - whole {
            u64::MAX
        } else {
            whole + part
        }
    }
}

/// The system-call form of a `timeval`: seconds, then microseconds, each
/// eight little-endian bytes.
pub open spec fn timeval_bytes(t: TimeVal) -> Seq<u8> {
    u64_le(t.sec) + u64_le(t.usec)
}

/// The `timeval` at the front of `b`.
pub open spec fn decode_timeval(b: Seq<u8>) -> TimeVal {
    TimeVal { sec: le_u64(b, 0), usec: le_u64(b, 8) }
}

/// Reads the `timeval` at the front of `b`.
pub fn read_timeval(b: &[u8]) -> (r: TimeVal)
    requires
        b@.len() >= TIMEVAL_LEN,
    ensures
        r == decode_timeval(b@),
{
    TimeVal { sec: read_le_u64(b, 0), usec: read_le_u64(b, 8) }
}

/// The bytes of `t` in its system-call form.
pub fn timeval_to_bytes(t: TimeVal) -> (r: Vec<u8>)
    ensures
        r@ == timeval_bytes(t),
{
    let mut r = u64_to_le(t.sec);
    let mut u = u64_to_le(t.usec);
    r.append(&mut u);
    r
}

/// The adapter behind a socket.
#[derive(Clone, Copy, Debug, PartialEq, Eq, Structural)]
pub enum SocketKind {
    Tcp,
    Udp,
    Netlink,
}

/// The adapter a socket of `domain` and `socket_type` gets, if the pair is
/// supported.
pub open spec fn kind_for(domain: Domain, socket_type: SocketType) -> Option<SocketKind> {
    match domain {
        Domain::AF_INET => if socket_type.spec_is_stream() {
            Some(SocketKind::Tcp)
        } else if socket_type == SocketType::SOCK_DGRAM {
            Some(SocketKind::Udp)
        } else {
            None
        },
        Domain::AF_NETLINK => if socket_type == SocketType::SOCK_RAW {
            Some(SocketKind::Netlink)
        } else {
            None
        },
        Domain::AF_UNIX => None,
    }
}

/// The congestion-control tag of a new socket.
pub open spec fn default_congestion() -> Seq<u8> {
    seq![114u8, 101u8, 110u8, 111u8]
}

/// What a socket is, as the contracts see it: its family and type, its
/// adapter and the adapter's state, and the stored options.
pub struct SocketView {
    pub domain: Domain,
    pub socket_type: SocketType,
    pub kind: SocketKind,
    /// The adapter's handle: into the stack's table for TCP and UDP, into
    /// the NETLINK table for NETLINK.
    pub handle: usize,
    pub close_exec: bool,
    pub recv_timeout: Option<TimeVal>,
    pub dont_route: bool,
    pub send_buf_size: u32,
    pub recv_buf_size: u32,
    pub congestion: Seq<u8>,
    pub nonblocking: bool,
    /// UDP only.
    pub reuse_addr: bool,
    /// TCP only.
    pub nagle: bool,
    /// TCP only.
    pub keep_alive: Option<u64>,
    pub local: Option<SocketAddr>,
    pub peer: Option<SocketAddr>,
}

/// The transport protocol adapter of a socket.
pub enum SocketInner {
    Tcp(TcpSocket),
    Udp(UdpSocket),
    Netlink(NetlinkSocket),
}

/// The view of a fresh socket of adapter `kind` over `handle`, with the
/// given endpoints and default options.
pub open spec fn fresh_view(
    domain: Domain,
    socket_type: SocketType,
    kind: SocketKind,
    handle: usize,
    local: Option<SocketAddr>,
    peer: Option<SocketAddr>,
) -> SocketView {
    SocketView {
        domain,
        socket_type,
        kind,
        handle,
        close_exec: false,
        recv_timeout: None,
        dont_route: false,
        send_buf_size: DEFAULT_BUF_SIZE,
        recv_buf_size: DEFAULT_BUF_SIZE,
        congestion: default_congestion(),
        nonblocking: kind == SocketKind::Netlink,
        reuse_addr: false,
        nagle: kind == SocketKind::Tcp,
        keep_alive: None,
        local,
        peer,
    }
}

/// The number of bytes a receive into a buffer of `cap` bytes takes from
/// the oldest of the `pending` datagrams; 0 when none is pending.
pub open spec fn recv_len(pending: Seq<Seq<u8>>, cap: nat) -> int {
    if pending.len() == 0 {
        0
    } else if pending[0].len() < cap {
        pending[0].len() as int
    } else {
        cap as int
    }
}

/// What a bind asks of the caller.
pub enum BindStep {
    /// The socket is bound.
    Bound,
    /// Bind the stack's UDP socket to this endpoint, then complete the bind
    /// with `complete_bind`.
    Stack(ListenEndpoint),
}

/// What a connect asks of the caller.
pub enum ConnectStep {
    /// The socket is connected.
    Connected,
    /// Bind the stack's UDP socket to this endpoint, complete the bind with
    /// `complete_bind`, then connect again.
    BindFirst(ListenEndpoint),
    /// Run the stack's TCP handshake to this peer, then record it with
    /// `established`.
    Handshake(SocketAddr),
}

/// What a receive asks of the caller.
pub enum RecvStep {
    /// Received this many bytes from this endpoint.
    Ready(usize, SocketAddr),
    /// Run the UDP receive loop, with this timeout if any.
    Udp(Option<TimeVal>),
    /// Run the TCP receive loop from this peer, with this timeout if any.
    Tcp(SocketAddr, Option<TimeVal>),
}

/// A socket as system calls see it: its family and type, its adapter, the
/// close-on-exec flag, the receive timeout and the options that are stored
/// and reported back without acting on the stack.
pub struct Socket {
    domain: Domain,
    socket_type: SocketType,
    inner: SocketInner,
    close_exec: bool,
    recv_timeout: Option<TimeVal>,
    dont_route: bool,
    send_buf_size: u32,
    recv_buf_size: u32,
    congestion: Vec<u8>,
}

impl View for Socket {
    type V = SocketView;

    closed spec fn view(&self) -> SocketView {
        let (kind, handle, nonblocking, reuse_addr, nagle, keep_alive, local, peer) = match self.inner {
            SocketInner::Tcp(s) => (
                SocketKind::Tcp,
                s.spec_handle(),
                s.spec_is_nonblocking(),
                false,
                s.spec_nagle_enabled(),
                s.spec_keep_alive(),
                s.local(),
                s.peer(),
            ),
            SocketInner::Udp(s) => (
                SocketKind::Udp,
                s.spec_handle(),
                s.spec_is_nonblocking(),
                s.spec_is_reuse_addr(),
                false,
                None,
                s.local(),
                s.peer(),
            ),
            SocketInner::Netlink(s) => (
                SocketKind::Netlink,
                s.spec_handle(),
                true,
                false,
                false,
                None,
                None,
                None,
            ),
        };
        SocketView {
            domain: self.domain,
            socket_type: self.socket_type,
            kind,
            handle,
            close_exec: self.close_exec,
            recv_timeout: self.recv_timeout,
            dont_route: self.dont_route,
            send_buf_size: self.send_buf_size,
            recv_buf_size: self.recv_buf_size,
            congestion: self.congestion@,
            nonblocking,
            reuse_addr,
            nagle,
            keep_alive,
            local,
            peer,
        }
    }
}

impl Socket {
    fn from_inner(domain: Domain, socket_type: SocketType, inner: SocketInner) -> (r: Socket)
        ensures
            r.inner == inner,
            r@.domain == domain,
            r@.socket_type == socket_type,
            !r@.close_exec,
            r@.recv_timeout is None,
            !r@.dont_route,
            r@.send_buf_size == DEFAULT_BUF_SIZE,
            r@.recv_buf_size == DEFAULT_BUF_SIZE,
            r@.congestion == default_congestion(),
    {
        let congestion = vec![114u8, 101u8, 110u8, 111u8];
        assert(congestion@ =~= default_congestion());
        Socket {
            domain,
            socket_type,
            inner,
            close_exec: false,
            recv_timeout: None,
            dont_route: false,
            send_buf_size: DEFAULT_BUF_SIZE,
            recv_buf_size: DEFAULT_BUF_SIZE,
            congestion,
        }
    }

    /// Creates a socket of `domain` and `socket_type`: a TCP or UDP adapter
    /// over the stack socket `stack_handle`, or a NETLINK socket for process
    /// `pid` in `netlink`. Unsupported pairs are refused.
    pub fn new(
        domain: Domain,
        socket_type: SocketType,
        stack_handle: usize,
        netlink: &mut NetlinkSockSetWrapper,
        pid: u64,
    ) -> (r: Result<Socket, NetError>)
        requires
            old(netlink).wf(),
            old(netlink).slots().len() < usize::MAX,
        ensures
            final(netlink).wf(),
            kind_for(domain, socket_type) is None ==> r == Err::<Socket, NetError>(
                NetError::Unsupported,
            ) && final(netlink).slots() == old(netlink).slots(),
            kind_for(domain, socket_type) matches Some(k) ==> r is Ok && ({
                let v = r->Ok_0@;
                &&& k != SocketKind::Netlink ==> v == fresh_view(domain, socket_type, k, stack_handle, None, None)
                    && final(netlink).slots() == old(netlink).slots()
                &&& k == SocketKind::Netlink ==> v == fresh_view(domain, socket_type, k, v.handle, None, None)
                    && is_first_free(old(netlink).slots(), v.handle as int)
                    && final(netlink).slots() == insert_at(old(netlink).slots(), v.handle as int, final(netlink).socket(v.handle))
                    && final(netlink).socket(v.handle).pending() == Seq::<Seq<u8>>::empty()
            }),
    {
        let inner = match domain {
            Domain::AF_UNIX => {
                return Err(NetError::Unsupported);
            },
            Domain::AF_INET => {
                match socket_type {
                    SocketType::SOCK_STREAM | SocketType::SOCK_SEQPACKET => SocketInner::Tcp(
                        TcpSocket::new(stack_handle),
                    ),
                    SocketType::SOCK_DGRAM => SocketInner::Udp(UdpSocket::new(stack_handle)),
                    _ => {
                        return Err(NetError::Unsupported);
                    },
                }
            },
            Domain::AF_NETLINK => {
                match socket_type {
                    SocketType::SOCK_RAW => SocketInner::Netlink(NetlinkSocket::new(netlink, pid)),
                    _ => {
                        return Err(NetError::Unsupported);
                    },
                }
            },
        };
        Ok(Socket::from_inner(domain, socket_type, inner))
    }

    /// The adapter behind the socket.
    pub fn kind(&self) -> (r: SocketKind)
        ensures
            r == self@.kind,
    {
        match &self.inner {
            SocketInner::Tcp(_) => SocketKind::Tcp,
            SocketInner::Udp(_) => SocketKind::Udp,
            SocketInner::Netlink(_) => SocketKind::Netlink,
        }
    }

    /// The adapter's handle.
    pub fn handle(&self) -> (r: usize)
        ensures
            r == self@.handle,
    {
        match &self.inner {
            SocketInner::Tcp(s) => s.handle(),
            SocketInner::Udp(s) => s.handle(),
            SocketInner::Netlink(s) => s.handle(),
        }
    }

    pub fn domain(&self) -> (r: Domain)
        ensures
            r == self@.domain,
    {
        self.domain
    }

    pub fn socket_type(&self) -> (r: SocketType)
        ensures
            r == self@.socket_type,
    {
        self.socket_type
    }

    pub fn close_exec(&self) -> (r: bool)
        ensures
            r == self@.close_exec,
    {
        self.close_exec
    }

    pub fn set_close_exec(&mut self, close_exec: bool)
        ensures
            final(self)@ == (SocketView { close_exec, ..old(self)@ }),
    {
        self.close_exec = close_exec;
    }

    pub fn recv_timeout(&self) -> (r: Option<TimeVal>)
        ensures
            r == self@.recv_timeout,
    {
        self.recv_timeout
    }

    pub fn set_recv_timeout(&mut self, timeout: Option<TimeVal>)
        ensures
            final(self)@ == (SocketView { recv_timeout: timeout, ..old(self)@ }),
    {
        self.recv_timeout = timeout;
    }

    pub fn dont_route(&self) -> (r: bool)
        ensures
            r == self@.dont_route,
    {
        self.dont_route
    }

    pub fn set_dont_route(&mut self, dont_route: bool)
        ensures
            final(self)@ == (SocketView { dont_route, ..old(self)@ }),
    {
        self.dont_route = dont_route;
    }

    pub fn send_buf_size(&self) -> (r: u32)
        ensures
            r == self@.send_buf_size,
    {
        self.send_buf_size
    }

    pub fn set_send_buf_size(&mut self, size: u32)
        ensures
            final(self)@ == (SocketView { send_buf_size: size, ..old(self)@ }),
    {
        self.send_buf_size = size;
    }

    pub fn recv_buf_size(&self) -> (r: u32)
        ensures
            r == self@.recv_buf_size,
    {
        self.recv_buf_size
    }

    pub fn set_recv_buf_size(&mut self, size: u32)
        ensures
            final(self)@ == (SocketView { recv_buf_size: size, ..old(self)@ }),
    {
        self.recv_buf_size = size;
    }

    /// The congestion-control tag.
    pub fn congestion(&self) -> (r: &[u8])
        ensures
            r@ == self@.congestion,
    {
        self.congestion.as_slice()
    }

    pub fn set_congestion(&mut self, tag: &[u8])
        ensures
            final(self)@ == (SocketView { congestion: tag@, ..old(self)@ }),
    {
        self.congestion = vstd::slice::slice_to_vec(tag);
    }

    /// Whether the address-reuse flag is set; only UDP sockets have it.
    pub fn get_reuse_addr(&self) -> (r: Result<bool, NetError>)
        ensures
            r == if self@.kind == SocketKind::Udp {
                Ok::<bool, NetError>(self@.reuse_addr)
            } else {
                Err(NetError::Unsupported)
            },
    {
        match &self.inner {
            SocketInner::Udp(s) => Ok(s.is_reuse_addr()),
            _ => Err(NetError::Unsupported),
        }
    }

    /// Sets the address-reuse flag of a UDP socket.
    pub fn set_reuse_addr(&mut self, reuse: bool) -> (r: Result<(), NetError>)
        ensures
            old(self)@.kind == SocketKind::Udp ==> r == Ok::<(), NetError>(()) && final(self)@ == (
            SocketView { reuse_addr: reuse, ..old(self)@ }),
            old(self)@.kind != SocketKind::Udp ==> r == Err::<(), NetError>(NetError::Unsupported)
                && final(self)@ == old(self)@,
    {
        match &mut self.inner {
            SocketInner::Udp(s) => {
                s.set_reuse_addr(reuse);
                Ok(())
            },
            _ => Err(NetError::Unsupported),
        }
    }

    /// Sets the non-blocking flag; a NETLINK socket never blocks and has no
    /// such flag.
    pub fn set_nonblocking(&mut self, nonblocking: bool) -> (r: Result<(), NetError>)
        ensures
            old(self)@.kind != SocketKind::Netlink ==> r == Ok::<(), NetError>(()) && final(self)@
                == (SocketView { nonblocking, ..old(self)@ }),
            old(self)@.kind == SocketKind::Netlink ==> r == Err::<(), NetError>(NetError::Unsupported)
                && final(self)@ == old(self)@,
    {
        match &mut self.inner {
            SocketInner::Tcp(s) => {
                s.set_nonblocking(nonblocking);
                Ok(())
            },
            SocketInner::Udp(s) => {
                s.set_nonblocking(nonblocking);
                Ok(())
            },
            SocketInner::Netlink(_) => Err(NetError::Unsupported),
        }
    }

    /// Whether operations return at once instead of waiting; always so for
    /// NETLINK.
    pub fn is_nonblocking(&self) -> (r: bool)
        ensures
            r == self@.nonblocking,
    {
        match &self.inner {
            SocketInner::Tcp(s) => s.is_nonblocking(),
            SocketInner::Udp(s) => s.is_nonblocking(),
            SocketInner::Netlink(_) => true,
        }
    }

    /// Whether the socket may send or receive: a TCP connection is
    /// established, a UDP socket is bound.
    pub fn is_connected(&self) -> (r: bool)
        ensures
            r == match self@.kind {
                SocketKind::Tcp => self@.peer is Some,
                SocketKind::Udp => self@.local is Some,
                SocketKind::Netlink => false,
            },
    {
        match &self.inner {
            SocketInner::Tcp(s) => s.is_connected(),
            SocketInner::Udp(s) => !s.needs_bind(),
            SocketInner::Netlink(_) => false,
        }
    }

    /// Whether the socket has a local endpoint.
    pub fn is_bound(&self) -> (r: bool)
        ensures
            r == (self@.local is Some),
    {
        match &self.inner {
            SocketInner::Tcp(s) => s.local_addr().is_ok(),
            SocketInner::Udp(s) => s.local_addr().is_ok(),
            SocketInner::Netlink(_) => false,
        }
    }

    /// The local endpoint; a NETLINK socket reports the wildcard endpoint.
    pub fn name(&self) -> (r: Result<SocketAddr, NetError>)
        ensures
            r == match self@.kind {
                SocketKind::Netlink => Ok::<SocketAddr, NetError>(SocketAddr::idle()),
                _ => match self@.local {
                    Some(a) => Ok(a),
                    None => Err(NetError::NotConnected),
                },
            },
    {
        match &self.inner {
            SocketInner::Tcp(s) => s.local_addr(),
            SocketInner::Udp(s) => s.local_addr(),
            SocketInner::Netlink(_) => Ok(SocketAddr::new_netlink(0)),
        }
    }

    /// The peer endpoint.
    pub fn peer_name(&self) -> (r: Result<SocketAddr, NetError>)
        ensures
            r == match self@.kind {
                SocketKind::Netlink => Err::<SocketAddr, NetError>(NetError::Unsupported),
                _ => match self@.peer {
                    Some(a) => Ok(a),
                    None => Err(NetError::NotConnected),
                },
            },
    {
        match &self.inner {
            SocketInner::Tcp(s) => s.peer_addr(),
            SocketInner::Udp(s) => s.peer_addr(),
            SocketInner::Netlink(_) => Err(NetError::Unsupported),
        }
    }

    /// Binds the socket to `addr`. A TCP socket is bound at once; a UDP
    /// socket asks for the stack's bind; a NETLINK bind is a no-op. Port 0
    /// takes an ephemeral port.
    pub fn bind(&mut self, addr: SocketAddr, ports: &mut EphemeralPorts) -> (r: Result<
        BindStep,
        NetError,
    >)
        ensures
            final(ports).cursor() == if addr.port == 0 && old(self)@.kind != SocketKind::Netlink {
                next_cursor(old(ports).cursor())
            } else {
                old(ports).cursor()
            },
            addr.port == 0 && old(self)@.kind != SocketKind::Netlink ==> PORT_START <= old(
                ports,
            ).cursor(),
            ({
                let port = if addr.port == 0 {
                    old(ports).cursor()
                } else {
                    addr.port
                };
                let local = SocketAddr { port, ..addr };
                match old(self)@.kind {
                    SocketKind::Netlink => r matches Ok(BindStep::Bound) && final(self)@ == old(
                        self,
                    )@,
                    SocketKind::Tcp => if old(self)@.local is Some {
                        r == Err::<BindStep, NetError>(NetError::AlreadyExists) && final(self)@
                            == old(self)@
                    } else {
                        r matches Ok(BindStep::Bound) && final(self)@ == (SocketView {
                            local: Some(local),
                            ..old(self)@
                        })
                    },
                    SocketKind::Udp => final(self)@ == old(self)@ && if old(self)@.local is Some {
                        r == Err::<BindStep, NetError>(NetError::AlreadyExists)
                    } else {
                        r matches Ok(BindStep::Stack(e)) && e == listen_of(local)
                    },
                }
            }),
    {
        match &mut self.inner {
            SocketInner::Tcp(s) => {
                s.bind(addr, ports)?;
                Ok(BindStep::Bound)
            },
            SocketInner::Udp(s) => {
                let e = s.bind_endpoint(addr, ports)?;
                Ok(BindStep::Stack(e))
            },
            SocketInner::Netlink(s) => {
                s.bind()?;
                Ok(BindStep::Bound)
            },
        }
    }

    /// Completes a UDP bind to `endpoint` with what the stack's bind
    /// reported.
    pub fn complete_bind(&mut self, endpoint: ListenEndpoint, stack: Result<(), BindFailure>) -> (r:
        Result<(), NetError>)
        ensures
            old(self)@.kind != SocketKind::Udp ==> r == Err::<(), NetError>(NetError::Unsupported)
                && final(self)@ == old(self)@,
            old(self)@.kind == SocketKind::Udp ==> {
                &&& old(self)@.local is Some ==> r == Err::<(), NetError>(NetError::AlreadyExists)
                    && final(self)@ == old(self)@
                &&& old(self)@.local is None ==> r == match stack {
                    Ok(()) => Ok::<(), NetError>(()),
                    Err(BindFailure::InvalidState) => Err(NetError::AlreadyExists),
                    Err(BindFailure::Unaddressable) => Err(NetError::InvalidInput),
                }
                &&& old(self)@.local is None && r is Ok ==> final(self)@ == (SocketView {
                    local: Some(local_of(endpoint)),
                    ..old(self)@
                })
                &&& old(self)@.local is None && r is Err ==> final(self)@ == old(self)@
            },
    {
        match &mut self.inner {
            SocketInner::Udp(s) => s.bind(endpoint, stack),
            _ => Err(NetError::Unsupported),
        }
    }

    /// Whether the socket may listen: only a bound stream socket may.
    pub fn listen(&self) -> (r: Result<(), NetError>)
        ensures
            r == if !self@.socket_type.spec_is_stream() || self@.kind != SocketKind::Tcp {
                Err(NetError::Unsupported)
            } else if self@.local is None {
                Err(NetError::InvalidInput)
            } else {
                Ok::<(), NetError>(())
            },
    {
        if self.socket_type != SocketType::SOCK_STREAM && self.socket_type
            != SocketType::SOCK_SEQPACKET {
            return Err(NetError::Unsupported);
        }
        match &self.inner {
            SocketInner::Tcp(s) => s.listen(),
            _ => Err(NetError::Unsupported),
        }
    }

    /// Whether the socket may accept: only a stream socket may.
    pub fn can_accept(&self) -> (r: Result<(), NetError>)
        ensures
            r == if !self@.socket_type.spec_is_stream() || self@.kind != SocketKind::Tcp {
                Err(NetError::Unsupported)
            } else {
                Ok::<(), NetError>(())
            },
    {
        if self.socket_type != SocketType::SOCK_STREAM && self.socket_type
            != SocketType::SOCK_SEQPACKET {
            return Err(NetError::Unsupported);
        }
        match &self.inner {
            SocketInner::Tcp(_) => Ok(()),
            _ => Err(NetError::Unsupported),
        }
    }

    /// Wraps the connection `conn` that the stack accepted on this socket
    /// into a new socket of the same family and type with default options,
    /// and returns it with the peer's endpoint.
    pub fn accept(&self, conn: TcpSocket) -> (r: Result<(Socket, SocketAddr), NetError>)
        ensures
            self.can_accept_spec() is Err ==> r == Err::<(Socket, SocketAddr), NetError>(
                self.can_accept_spec()->Err_0,
            ),
            self.can_accept_spec() is Ok && conn.peer() is None ==> r == Err::<
                (Socket, SocketAddr),
                NetError,
            >(NetError::NotConnected),
            self.can_accept_spec() is Ok && conn.peer() is Some ==> r is Ok && r->Ok_0.1
                == conn.peer()->Some_0 && r->Ok_0.0@ == (SocketView {
                nonblocking: conn.spec_is_nonblocking(),
                nagle: conn.spec_nagle_enabled(),
                keep_alive: conn.spec_keep_alive(),
                ..fresh_view(
                    self@.domain,
                    self@.socket_type,
                    SocketKind::Tcp,
                    conn.spec_handle(),
                    conn.local(),
                    conn.peer(),
                )
            }),
    {
        self.can_accept()?;
        let addr = conn.peer_addr()?;
        let s = Socket::from_inner(self.domain, self.socket_type, SocketInner::Tcp(conn));
        Ok((s, addr))
    }

    /// The check of `can_accept`.
    pub open spec fn can_accept_spec(&self) -> Result<(), NetError> {
        if !self@.socket_type.spec_is_stream() || self@.kind != SocketKind::Tcp {
            Err(NetError::Unsupported)
        } else {
            Ok(())
        }
    }

    /// Connects to `addr`. A UDP socket records its peer, after binding to
    /// the wildcard endpoint if it is unbound; a TCP socket asks for the
    /// stack's handshake.
    pub fn connect(&mut self, addr: SocketAddr, ports: &mut EphemeralPorts) -> (r: Result<
        ConnectStep,
        NetError,
    >)
        ensures
            match old(self)@.kind {
                SocketKind::Netlink => r == Err::<ConnectStep, NetError>(NetError::Unsupported)
                    && final(self)@ == old(self)@ && final(ports).cursor() == old(ports).cursor(),
                SocketKind::Tcp => r matches Ok(ConnectStep::Handshake(p)) && p == addr
                    && final(self)@ == old(self)@ && final(ports).cursor() == old(ports).cursor(),
                SocketKind::Udp => if old(self)@.local is Some {
                    r matches Ok(ConnectStep::Connected) && final(self)@ == (SocketView {
                        peer: Some(addr),
                        ..old(self)@
                    }) && final(ports).cursor() == old(ports).cursor()
                } else {
                    r matches Ok(ConnectStep::BindFirst(e)) && e == listen_of(
                        SocketAddr::idle().with_port(old(ports).cursor()),
                    ) && final(self)@ == old(self)@ && final(ports).cursor() == next_cursor(
                        old(ports).cursor(),
                    ) && PORT_START <= old(ports).cursor()
                },
            },
    {
        match &mut self.inner {
            SocketInner::Tcp(_) => Ok(ConnectStep::Handshake(addr)),
            SocketInner::Udp(s) => {
                if s.needs_bind() {
                    let any = SocketAddr { addr: IpAddr(0, 0, 0, 0), port: 0 };
                    let e = s.bind_endpoint(any, ports)?;
                    return Ok(ConnectStep::BindFirst(e));
                }
                s.set_peer(addr);
                Ok(ConnectStep::Connected)
            },
            SocketInner::Netlink(_) => Err(NetError::Unsupported),
        }
    }

    /// Records the TCP connection the stack established from `local` to
    /// `peer`.
    pub fn established(&mut self, local: SocketAddr, peer: SocketAddr) -> (r: Result<(), NetError>)
        ensures
            old(self)@.kind == SocketKind::Tcp ==> r == Ok::<(), NetError>(()) && final(self)@ == (
            SocketView { local: Some(local), peer: Some(peer), ..old(self)@ }),
            old(self)@.kind != SocketKind::Tcp ==> r == Err::<(), NetError>(NetError::Unsupported)
                && final(self)@ == old(self)@,
    {
        match &mut self.inner {
            SocketInner::Tcp(s) => {
                s.connect(local, peer);
                Ok(())
            },
            _ => Err(NetError::Unsupported),
        }
    }

    /// The destination of data sent to `addr`: a TCP socket sends to its
    /// peer, a UDP socket checks `addr` and that it is bound.
    pub fn sendto(&self, addr: SocketAddr) -> (r: Result<SocketAddr, NetError>)
        ensures
            r == match self@.kind {
                SocketKind::Netlink => Err(NetError::Unsupported),
                SocketKind::Tcp => match self@.peer {
                    Some(p) => Ok::<SocketAddr, NetError>(p),
                    None => Err(NetError::NotConnected),
                },
                SocketKind::Udp => if addr.port == 0 || addr.addr.is_unspecified() {
                    Err(NetError::InvalidInput)
                } else if self@.local is None {
                    Err(NetError::NotConnected)
                } else {
                    Ok::<SocketAddr, NetError>(addr)
                },
            },
    {
        match &self.inner {
            SocketInner::Tcp(s) => s.peer_addr(),
            SocketInner::Udp(s) => s.send_to(addr),
            SocketInner::Netlink(_) => Err(NetError::Unsupported),
        }
    }

    /// Receives on the socket. A NETLINK socket takes its oldest pending
    /// reply at once (0 bytes when none) from the wildcard endpoint; a UDP
    /// or TCP socket asks for the stack's receive loop, with the socket's
    /// receive timeout.
    pub fn recv_from(&self, netlink: &mut NetlinkSockSetWrapper, buf: &mut [u8]) -> (r: Result<
        RecvStep,
        NetError,
    >)
        requires
            old(netlink).wf(),
            self@.kind == SocketKind::Netlink ==> old(netlink).is_live(self@.handle),
        ensures
            final(netlink).wf(),
            final(buf)@.len() == old(buf)@.len(),
            self@.kind != SocketKind::Netlink ==> final(netlink).slots() == old(netlink).slots()
                && final(buf)@ == old(buf)@,
            self@.kind == SocketKind::Udp ==> r == if self@.local is None {
                Err(NetError::NotConnected)
            } else {
                Ok::<RecvStep, NetError>(RecvStep::Udp(self@.recv_timeout))
            },
            self@.kind == SocketKind::Tcp ==> r == match self@.peer {
                Some(p) => Ok::<RecvStep, NetError>(RecvStep::Tcp(p, self@.recv_timeout)),
                None => Err(NetError::NotConnected),
            },
            self@.kind == SocketKind::Netlink ==> (r matches Ok(RecvStep::Ready(k, a)) && k as int
                == recv_len(old(netlink).socket(self@.handle).pending(), old(buf)@.len())
                && a == SocketAddr::idle()),
            self@.kind == SocketKind::Netlink && old(netlink).socket(self@.handle).pending().len()
                == 0 ==> final(netlink).slots() == old(netlink).slots() && final(buf)@ == old(buf)@,
            self@.kind == SocketKind::Netlink && old(netlink).socket(self@.handle).pending().len()
                > 0 ==> ({
                let m = old(netlink).socket(self@.handle).pending()[0];
                let n = recv_len(old(netlink).socket(self@.handle).pending(), old(buf)@.len());
                &&& final(netlink).slots() == old(netlink).slots().update(
                    self@.handle as int,
                    Some(final(netlink).socket(self@.handle)),
                )
                &&& final(netlink).socket(self@.handle).pending() == old(netlink).socket(
                    self@.handle,
                ).pending().drop_first()
                &&& forall|i: int| 0 <= i < n ==> final(buf)@[i] == m[i]
                &&& forall|i: int| n <= i < old(buf)@.len() ==> final(buf)@[i] == old(buf)@[i]
            }),
    {
        match &self.inner {
            SocketInner::Tcp(s) => {
                let peer = s.peer_addr()?;
                Ok(RecvStep::Tcp(peer, self.recv_timeout))
            },
            SocketInner::Udp(s) => {
                s.recv_from()?;
                Ok(RecvStep::Udp(self.recv_timeout))
            },
            SocketInner::Netlink(s) => {
                let n = s.recv(netlink, buf)?;
                Ok(RecvStep::Ready(n, SocketAddr::new_netlink(0)))
            },
        }
    }

    /// Turns keep-alive of a TCP socket on, at the fixed interval, or off.
    pub fn set_keep_alive(&mut self, on: bool) -> (r: Result<(), NetError>)
        ensures
            old(self)@.kind == SocketKind::Tcp ==> r == Ok::<(), NetError>(()) && final(self)@ == (
            SocketView {
                keep_alive: if on {
                    Some(KEEP_ALIVE_SECS)
                } else {
                    None
                },
                ..old(self)@
            }),
            old(self)@.kind != SocketKind::Tcp ==> r == Err::<(), NetError>(NetError::Unsupported)
                && final(self)@ == old(self)@,
    {
        match &mut self.inner {
            SocketInner::Tcp(s) => {
                s.set_keep_alive(on);
                Ok(())
            },
            _ => Err(NetError::Unsupported),
        }
    }

    /// Turns Nagle's algorithm of a TCP socket on or off.
    pub fn set_nagle_enabled(&mut self, enabled: bool) -> (r: Result<(), NetError>)
        ensures
            old(self)@.kind == SocketKind::Tcp ==> r == Ok::<(), NetError>(()) && final(self)@ == (
            SocketView { nagle: enabled, ..old(self)@ }),
            old(self)@.kind != SocketKind::Tcp ==> r == Err::<(), NetError>(NetError::Unsupported)
                && final(self)@ == old(self)@,
    {
        match &mut self.inner {
            SocketInner::Tcp(s) => {
                s.set_nagle_enabled(enabled);
                Ok(())
            },
            _ => Err(NetError::Unsupported),
        }
    }

    /// Whether Nagle's algorithm is on; false for other than TCP.
    pub fn nagle_enabled(&self) -> (r: bool)
        ensures
            r == self@.nagle,
    {
        match &self.inner {
            SocketInner::Tcp(s) => s.nagle_enabled(),
            _ => false,
        }
    }

    /// The keep-alive interval of a TCP socket, if on.
    pub fn keep_alive(&self) -> (r: Option<u64>)
        ensures
            r == self@.keep_alive,
    {
        match &self.inner {
            SocketInner::Tcp(s) => s.keep_alive(),
            _ => None,
        }
    }

    /// Readiness from what the stack socket reports: an unbound UDP socket
    /// is neither readable nor writable; NETLINK readiness is not tracked.
    pub fn poll(&self, can_recv: bool, can_send: bool) -> (r: Result<PollState, NetError>)
        ensures
            r == match self@.kind {
                SocketKind::Netlink => Err(NetError::Unsupported),
                SocketKind::Udp => if self@.local is None {
                    Ok::<PollState, NetError>(PollState { readable: false, writable: false })
                } else {
                    Ok(PollState { readable: can_recv, writable: can_send })
                },
                SocketKind::Tcp => Ok(PollState { readable: can_recv, writable: can_send }),
            },
    {
        match &self.inner {
            SocketInner::Udp(s) => Ok(s.poll(can_recv, can_send)),
            SocketInner::Tcp(_) => Ok(PollState { readable: can_recv, writable: can_send }),
            SocketInner::Netlink(_) => Err(NetError::Unsupported),
        }
    }

    /// The descriptor status flags: close-on-exec and non-blocking.
    pub fn get_status(&self) -> (r: u32)
        ensures
            r == (if self@.close_exec {
                O_CLOEXEC
            } else {
                0
            }) + (if self@.nonblocking {
                O_NONBLOCK
            } else {
                0
            }),
    {
        let mut flags: u32 = 0;
        if self.close_exec {
            flags = flags + O_CLOEXEC;
        }
        if self.is_nonblocking() {
            flags = flags + O_NONBLOCK;
        }
        flags
    }

    /// Applies descriptor status flags: only the non-blocking flag acts.
    pub fn set_status(&mut self, flags: u32) -> (r: Result<(), NetError>)
        ensures
            r == if old(self)@.kind == SocketKind::Netlink {
                Err(NetError::Unsupported)
            } else {
                Ok::<(), NetError>(())
            },
            old(self)@.kind != SocketKind::Netlink ==> final(self)@ == (SocketView {
                nonblocking: flags & O_NONBLOCK != 0,
                ..old(self)@
            }),
            old(self)@.kind == SocketKind::Netlink ==> final(self)@ == old(self)@,
    {
        self.set_nonblocking(flags & O_NONBLOCK != 0)
    }

    /// Sockets have nothing to flush.
    pub fn flush(&self) -> (r: Result<(), NetError>)
        ensures
            r == Err::<(), NetError>(NetError::Unsupported),
    {
        Err(NetError::Unsupported)
    }

    /// Hands the request in `buf` to a NETLINK socket (see
    /// `NetlinkSocket::send`); other sockets refuse it.
    pub fn netlink_send(&self, netlink: &mut NetlinkSockSetWrapper, buf: &[u8]) -> (r: Result<
        usize,
        NetError,
    >)
        requires
            old(netlink).wf(),
            self@.kind == SocketKind::Netlink ==> old(netlink).is_live(self@.handle),
        ensures
            final(netlink).wf(),
            self@.kind != SocketKind::Netlink ==> r == Err::<usize, NetError>(NetError::Unsupported)
                && final(netlink).slots() == old(netlink).slots(),
            self@.kind == SocketKind::Netlink ==> {
                &&& final(netlink).is_live(self@.handle)
                &&& final(netlink).slots() == old(netlink).slots().update(
                    self@.handle as int,
                    Some(final(netlink).socket(self@.handle)),
                )
                &&& match reply_to(buf@) {
                    Err(e) => r == Err::<usize, NetError>(e) && final(netlink).slots() == old(
                        netlink,
                    ).slots(),
                    Ok(m) => if m.len() <= old(netlink).socket(self@.handle).free_space() {
                        r == Ok::<usize, NetError>(m.len() as usize) && final(netlink).socket(
                            self@.handle,
                        ).pending() == old(netlink).socket(self@.handle).pending().push(m)
                    } else {
                        r == Err::<usize, NetError>(NetError::NoMemory) && final(netlink).socket(
                            self@.handle,
                        ).pending() == old(netlink).socket(self@.handle).pending()
                    },
                }
            },
    {
        match &self.inner {
            SocketInner::Netlink(s) => s.send(netlink, buf),
            _ => Err(NetError::Unsupported),
        }
    }
}

} // verus!
