//! The UDP adapter: endpoint state and the decisions of one attempt of the
//! blocking loop that drives the underlying stack.
use vstd::prelude::*;

use crate::addr::{IpAddr, SocketAddr};
use crate::error::NetError;
use crate::port::{next_cursor, EphemeralPorts, PORT_START};
use crate::stack::{bind_endpoint, udp_open};

use smoltcp::socket::udp::Socket as UdpStackSocket;

verus! {

/// What the blocking loop does after one attempt.
pub enum Step<T> {
    /// Return this result to the caller.
    Done(Result<T, NetError>),
    /// Poll the stack, yield to the scheduler and attempt again.
    Retry,
}

/// The step after an attempt: a would-block retries a blocking socket and is
/// returned to a non-blocking one; anything else ends the call.
pub open spec fn step_of<T>(nonblocking: bool, attempt: Result<T, NetError>) -> Step<T> {
    match attempt {
        Err(NetError::WouldBlock) => if nonblocking {
            Step::Done(attempt)
        } else {
            Step::Retry
        },
        _ => Step::Done(attempt),
    }
}

/// Decides the step after an attempt.
pub fn block_on_step<T>(nonblocking: bool, attempt: Result<T, NetError>) -> (s: Step<T>)
    ensures
        s == step_of(nonblocking, attempt),
{
    match attempt {
        Err(NetError::WouldBlock) => if nonblocking {
            Step::Done(Err(NetError::WouldBlock))
        } else {
            Step::Retry
        },
        _ => Step::Done(attempt),
    }
}

/// Readiness of a socket.
#[derive(Clone, Copy, Debug, PartialEq, Eq, Structural)]
pub struct PollState {
    pub readable: bool,
    pub writable: bool,
}

/// An endpoint handed to the stack's bind: no address means any address.
#[derive(Clone, Copy, Debug, PartialEq, Eq, Structural)]
pub struct ListenEndpoint {
    pub addr: Option<IpAddr>,
    pub port: u16,
}

/// How the stack refused a bind.
#[derive(Clone, Copy, Debug, PartialEq, Eq, Structural)]
pub enum BindFailure {
    /// The stack socket is already open.
    InvalidState,
    /// The endpoint cannot be bound (port 0).
    Unaddressable,
}

/// How the stack refused a datagram.
#[derive(Clone, Copy, Debug, PartialEq, Eq, Structural)]
pub enum SendFailure {
    /// No route to the destination.
    Unaddressable,
    /// The transmit buffer is full.
    BufferFull,
}

/// The listen endpoint for a local endpoint: the wildcard address listens
/// on any address.
pub open spec fn listen_of(local: SocketAddr) -> ListenEndpoint {
    ListenEndpoint {
        addr: if local.addr.is_unspecified() {
            None
        } else {
            Some(local.addr)
        },
        port: local.port,
    }
}

/// The local endpoint a listen endpoint stands for.
pub open spec fn local_of(e: ListenEndpoint) -> SocketAddr {
    SocketAddr {
        addr: match e.addr {
            Some(a) => a,
            None => IpAddr(0, 0, 0, 0),
        },
        port: e.port,
    }
}

/// Whether a datagram from `src` passes the filter of a socket connected to
/// `peer`: a wildcard address or port of the peer matches anything.
pub open spec fn accepts_from(peer: SocketAddr, src: SocketAddr) -> bool {
    &&& (peer.addr.is_unspecified() || peer.addr == src.addr)
    &&& (peer.port == 0 || peer.port == src.port)
}

/// What a timeout-aware receive reports when no datagram could be taken:
/// `Timeout` once the tick count has passed the deadline, else `WouldBlock`.
pub open spec fn timeout_outcome(now: u64, expire_at: u64) -> NetError {
    if now > expire_at {
        NetError::Timeout
    } else {
        NetError::WouldBlock
    }
}

/// The deadline `ticks` after `now`, saturating.
pub open spec fn deadline_of(now: u64, ticks: u64) -> u64 {
    if now + ticks > u64::MAX {
        u64::MAX
    } else {
        (now + ticks) as u64
    }
}

/// The deadline of a receive that may wait `ticks` ticks from `now`.
pub fn deadline(now: u64, ticks: u64) -> (r: u64)
    ensures
        r == deadline_of(now, ticks),
{
    if ticks > u64::MAX - now {
        u64::MAX
    } else {
        now + ticks
    }
}

/// Whether one attempt may touch the stack socket: a closed socket is not
/// connected, a full transmit buffer would block.
pub open spec fn send_ready_of(is_open: bool, can_send: bool) -> Result<(), NetError> {
    if !is_open {
        Err(NetError::NotConnected)
    } else if !can_send {
        Err(NetError::WouldBlock)
    } else {
        Ok(())
    }
}

/// Decides whether a send attempt may hand its datagram to the stack.
pub fn send_ready(is_open: bool, can_send: bool) -> (r: Result<(), NetError>)
    ensures
        r == send_ready_of(is_open, can_send),
{
    if !is_open {
        Err(NetError::NotConnected)
    } else if !can_send {
        Err(NetError::WouldBlock)
    } else {
        Ok(())
    }
}

/// The result of a send attempt of `len` bytes from what the stack
/// reported: a full buffer would block, an unaddressable destination is
/// refused.
pub fn send_result(len: usize, sent: Result<(), SendFailure>) -> (r: Result<usize, NetError>)
    ensures
        r == match sent {
            Ok(()) => Ok::<usize, NetError>(len),
            Err(SendFailure::BufferFull) => Err(NetError::WouldBlock),
            Err(SendFailure::Unaddressable) => Err(NetError::ConnectionRefused),
        },
{
    match sent {
        Ok(()) => Ok(len),
        Err(SendFailure::BufferFull) => Err(NetError::WouldBlock),
        Err(SendFailure::Unaddressable) => Err(NetError::ConnectionRefused),
    }
}

/// Whether a receive attempt may take a datagram from the stack socket.
pub open spec fn recv_ready_of(is_open: bool, can_recv: bool) -> Result<(), NetError> {
    if !is_open {
        Err(NetError::NotConnected)
    } else if !can_recv {
        Err(NetError::WouldBlock)
    } else {
        Ok(())
    }
}

/// Decides whether a receive attempt may take a datagram.
pub fn recv_ready(is_open: bool, can_recv: bool) -> (r: Result<(), NetError>)
    ensures
        r == recv_ready_of(is_open, can_recv),
{
    if !is_open {
        Err(NetError::NotConnected)
    } else if !can_recv {
        Err(NetError::WouldBlock)
    } else {
        Ok(())
    }
}

/// Whether a timeout-aware receive attempt may take a datagram; with
/// nothing to take it reports the timeout outcome at tick `now`.
pub open spec fn recv_ready_timeout_of(is_open: bool, can_recv: bool, now: u64, expire_at: u64) -> Result<
    (),
    NetError,
> {
    if !is_open {
        Err(NetError::NotConnected)
    } else if !can_recv {
        Err(timeout_outcome(now, expire_at))
    } else {
        Ok(())
    }
}

/// Decides whether a timeout-aware receive attempt may take a datagram.
pub fn recv_ready_timeout(is_open: bool, can_recv: bool, now: u64, expire_at: u64) -> (r: Result<
    (),
    NetError,
>)
    ensures
        r == recv_ready_timeout_of(is_open, can_recv, now, expire_at),
{
    if !is_open {
        Err(NetError::NotConnected)
    } else if !can_recv {
        if now > expire_at {
            Err(NetError::Timeout)
        } else {
            Err(NetError::WouldBlock)
        }
    } else {
        Ok(())
    }
}

/// The result of taking a datagram: its length and origin, or `BadState`
/// when the stack had none after all.
pub fn recv_from_result(got: Option<(usize, SocketAddr)>) -> (r: Result<(usize, SocketAddr), NetError>)
    ensures
        r == match got {
            Some(d) => Ok::<(usize, SocketAddr), NetError>(d),
            None => Err(NetError::BadState),
        },
{
    match got {
        Some(d) => Ok(d),
        None => Err(NetError::BadState),
    }
}

/// The result of taking a datagram for a receive connected to `peer`: a
/// datagram from another endpoint is skipped as a would-block.
pub fn recv_filter(peer: SocketAddr, got: Option<(usize, SocketAddr)>) -> (r: Result<usize, NetError>)
    ensures
        r == match got {
            None => Err(NetError::BadState),
            Some((n, src)) => if accepts_from(peer, src) {
                Ok::<usize, NetError>(n)
            } else {
                Err(NetError::WouldBlock)
            },
        },
{
    match got {
        None => Err(NetError::BadState),
        Some((n, src)) => {
            if !peer.addr.is_unspecified() && peer.addr != src.addr {
                return Err(NetError::WouldBlock);
            }
            if peer.port != 0 && peer.port != src.port {
                return Err(NetError::WouldBlock);
            }
            Ok(n)
        },
    }
}

/// A socket connected to an endpoint with a concrete address and port
/// receives only datagrams from that endpoint; any other datagram is
/// skipped, a blocking receive retries and a non-blocking one reports a
/// would-block.
pub proof fn lemma_connect_filter(peer: SocketAddr, n: usize, src: SocketAddr, nonblocking: bool)
    requires
        !peer.addr.is_unspecified(),
        peer.port != 0,
    ensures
        accepts_from(peer, src) <==> src == peer,
        src != peer ==> step_of(
            nonblocking,
            if accepts_from(peer, src) {
                Ok::<usize, NetError>(n)
            } else {
                Err(NetError::WouldBlock)
            },
        ) == if nonblocking {
            Step::Done(Err::<usize, NetError>(NetError::WouldBlock))
        } else {
            Step::Retry
        },
{
}

/// The steps of a timeout-aware receive that never finds a datagram, with
/// the tick count read at each attempt in `ticks`: the result of the first
/// attempt that ends the call, if any does.
pub open spec fn run_without_data(nonblocking: bool, expire_at: u64, ticks: Seq<u64>) -> Option<
    Result<(usize, SocketAddr), NetError>,
>
    decreases ticks.len(),
{
    if ticks.len() == 0 {
        None
    } else {
        match step_of(
            nonblocking,
            Err::<(usize, SocketAddr), NetError>(timeout_outcome(ticks[0], expire_at)),
        ) {
            Step::Done(r) => Some(r),
            Step::Retry => run_without_data(nonblocking, expire_at, ticks.drop_first()),
        }
    }
}

proof fn lemma_run_without_data(expire_at: u64, ticks: Seq<u64>)
    ensures
        run_without_data(false, expire_at, ticks) is Some <==> exists|i: int|
            0 <= i < ticks.len() && #[trigger] ticks[i] > expire_at,
        run_without_data(false, expire_at, ticks) is Some ==> run_without_data(
            false,
            expire_at,
            ticks,
        ) == Some(Err::<(usize, SocketAddr), NetError>(NetError::Timeout)),
        forall|r: Result<(usize, SocketAddr), NetError>|
            run_without_data(false, expire_at, ticks) == Some(r) ==> r is Err,
        forall|r: Result<(usize, SocketAddr), NetError>|
            run_without_data(true, expire_at, ticks) == Some(r) ==> r is Err,
    decreases ticks.len(),
{
    if ticks.len() > 0 {
        lemma_run_without_data(expire_at, ticks.drop_first());
        if ticks[0] <= expire_at {
            assert forall|i: int| 0 <= i < ticks.len() && #[trigger] ticks[i] > expire_at implies (0
                <= i - 1 < ticks.drop_first().len() && ticks.drop_first()[i - 1] > expire_at) by {}
            assert forall|i: int|
                0 <= i < ticks.drop_first().len() && #[trigger] ticks.drop_first()[i]
                    > expire_at implies ticks[i + 1] > expire_at by {}
        }
    }
}

/// A timeout-aware receive called at tick `start` with a budget of
/// `budget` ticks that never finds a datagram: a blocking one ends with
/// `Timeout` at the first attempt whose tick count is past `start + budget`
/// and keeps retrying before it; blocking or not, it never returns data.
pub proof fn lemma_timeout_without_data(start: u64, budget: u64, ticks: Seq<u64>)
    ensures
        start + budget <= u64::MAX ==> deadline_of(start, budget) == start + budget,
        run_without_data(false, deadline_of(start, budget), ticks) is Some <==> exists|i: int|
            0 <= i < ticks.len() && #[trigger] ticks[i] > deadline_of(start, budget),
        run_without_data(false, deadline_of(start, budget), ticks) is Some ==> run_without_data(
            false,
            deadline_of(start, budget),
            ticks,
        ) == Some(Err::<(usize, SocketAddr), NetError>(NetError::Timeout)),
        forall|r: Result<(usize, SocketAddr), NetError>|
            run_without_data(false, deadline_of(start, budget), ticks) == Some(r) ==> r is Err,
        forall|r: Result<(usize, SocketAddr), NetError>|
            run_without_data(true, deadline_of(start, budget), ticks) == Some(r) ==> r is Err,
{
    lemma_run_without_data(deadline_of(start, budget), ticks);
}

/// A UDP socket: a handle into the stack's socket table, the cached local
/// and peer endpoints, and the non-blocking and address-reuse flags.
pub struct UdpSocket {
    handle: usize,
    local_addr: Option<SocketAddr>,
    peer_addr: Option<SocketAddr>,
    nonblock: bool,
    reuse_addr: bool,
}

impl UdpSocket {
    pub closed spec fn spec_handle(&self) -> usize {
        self.handle
    }

    /// The local endpoint, once bound.
    pub closed spec fn local(&self) -> Option<SocketAddr> {
        self.local_addr
    }

    /// The peer endpoint, once connected.
    pub closed spec fn peer(&self) -> Option<SocketAddr> {
        self.peer_addr
    }

    pub closed spec fn spec_is_nonblocking(&self) -> bool {
        self.nonblock
    }

    pub closed spec fn spec_is_reuse_addr(&self) -> bool {
        self.reuse_addr
    }

    /// An unbound, blocking socket over the stack socket `handle`.
    pub fn new(handle: usize) -> (r: UdpSocket)
        ensures
            r.spec_handle() == handle,
            r.local() is None,
            r.peer() is None,
            !r.spec_is_nonblocking(),
            !r.spec_is_reuse_addr(),
    {
        UdpSocket { handle, local_addr: None, peer_addr: None, nonblock: false, reuse_addr: false }
    }

    /// The handle of the stack socket.
    #[verifier::when_used_as_spec(spec_handle)]
    pub fn handle(&self) -> (r: usize)
        ensures
            r == self.spec_handle(),
    {
        self.handle
    }

    /// The local endpoint, or `NotConnected` when unbound.
    pub fn local_addr(&self) -> (r: Result<SocketAddr, NetError>)
        ensures
            r == match self.local() {
                Some(a) => Ok::<SocketAddr, NetError>(a),
                None => Err(NetError::NotConnected),
            },
    {
        match self.local_addr {
            Some(a) => Ok(a),
            None => Err(NetError::NotConnected),
        }
    }

    /// The peer endpoint, or `NotConnected` when not connected.
    pub fn peer_addr(&self) -> (r: Result<SocketAddr, NetError>)
        ensures
            r == match self.peer() {
                Some(a) => Ok::<SocketAddr, NetError>(a),
                None => Err(NetError::NotConnected),
            },
    {
        match self.peer_addr {
            Some(a) => Ok(a),
            None => Err(NetError::NotConnected),
        }
    }

    #[verifier::when_used_as_spec(spec_is_nonblocking)]
    pub fn is_nonblocking(&self) -> (r: bool)
        ensures
            r == self.spec_is_nonblocking(),
    {
        self.nonblock
    }

    pub fn set_nonblocking(&mut self, nonblocking: bool)
        ensures
            final(self).spec_is_nonblocking() == nonblocking,
            final(self).local() == old(self).local(),
            final(self).peer() == old(self).peer(),
            final(self).spec_handle() == old(self).spec_handle(),
            final(self).spec_is_reuse_addr() == old(self).spec_is_reuse_addr(),
    {
        self.nonblock = nonblocking;
    }

    #[verifier::when_used_as_spec(spec_is_reuse_addr)]
    pub fn is_reuse_addr(&self) -> (r: bool)
        ensures
            r == self.spec_is_reuse_addr(),
    {
        self.reuse_addr
    }

    pub fn set_reuse_addr(&mut self, reuse: bool)
        ensures
            final(self).spec_is_reuse_addr() == reuse,
            final(self).local() == old(self).local(),
            final(self).peer() == old(self).peer(),
            final(self).spec_handle() == old(self).spec_handle(),
            final(self).spec_is_nonblocking() == old(self).spec_is_nonblocking(),
    {
        self.reuse_addr = reuse;
    }

    /// The endpoint to hand to the stack for a bind to `addr`: port 0 takes
    /// the next ephemeral port (taken even when the bind then fails); a
    /// bound socket cannot bind again.
    pub fn bind_endpoint(&self, addr: SocketAddr, ports: &mut EphemeralPorts) -> (r: Result<
        ListenEndpoint,
        NetError,
    >)
        ensures
            final(ports).cursor() == if addr.port == 0 {
                next_cursor(old(ports).cursor())
            } else {
                old(ports).cursor()
            },
            self.local() is Some ==> r == Err::<ListenEndpoint, NetError>(NetError::AlreadyExists),
            self.local() is None ==> r == Ok::<ListenEndpoint, NetError>(
                listen_of(
                    SocketAddr {
                        port: if addr.port == 0 {
                            old(ports).cursor()
                        } else {
                            addr.port
                        },
                        ..addr
                    },
                ),
            ),
            r is Ok ==> r->Ok_0.port != 0,
            addr.port == 0 ==> PORT_START <= old(ports).cursor(),
            final(ports).issued() == old(ports).issued() + if addr.port == 0 {
                1int
            } else {
                0int
            },
    {
        let mut local = addr;
        if local.port == 0 {
            local.port = ports.get_ephemeral_port();
        }
        if self.local_addr.is_some() {
            return Err(NetError::AlreadyExists);
        }
        let addr = if local.addr.is_unspecified() {
            None
        } else {
            Some(local.addr)
        };
        Ok(ListenEndpoint { addr, port: local.port })
    }

    /// Completes a bind to `endpoint` with what the stack's bind reported:
    /// on success the socket is bound there.
    pub fn bind(&mut self, endpoint: ListenEndpoint, stack: Result<(), BindFailure>) -> (r: Result<
        (),
        NetError,
    >)
        ensures
            final(self).peer() == old(self).peer(),
            final(self).spec_handle() == old(self).spec_handle(),
            final(self).spec_is_nonblocking() == old(self).spec_is_nonblocking(),
            final(self).spec_is_reuse_addr() == old(self).spec_is_reuse_addr(),
            old(self).local() is Some ==> r == Err::<(), NetError>(NetError::AlreadyExists)
                && final(self).local() == old(self).local(),
            old(self).local() is None ==> r == match stack {
                Ok(()) => Ok::<(), NetError>(()),
                Err(BindFailure::InvalidState) => Err(NetError::AlreadyExists),
                Err(BindFailure::Unaddressable) => Err(NetError::InvalidInput),
            },
            old(self).local() is None && r is Ok ==> final(self).local() == Some(local_of(endpoint)),
            old(self).local() is None && r is Err ==> final(self).local() is None,
    {
        if self.local_addr.is_some() {
            return Err(NetError::AlreadyExists);
        }
        match stack {
            Ok(()) => {
                let addr = match endpoint.addr {
                    Some(a) => a,
                    None => IpAddr(0, 0, 0, 0),
                };
                self.local_addr = Some(SocketAddr { addr, port: endpoint.port });
                Ok(())
            },
            Err(BindFailure::InvalidState) => Err(NetError::AlreadyExists),
            Err(BindFailure::Unaddressable) => Err(NetError::InvalidInput),
        }
    }

    /// Whether a connect must first bind the socket to the wildcard
    /// endpoint.
    pub fn needs_bind(&self) -> (r: bool)
        ensures
            r == self.local() is None,
    {
        self.local_addr.is_none()
    }

    /// Sets the default destination and receive filter; it sends nothing.
    /// An unbound socket is first bound, here and on the stack socket
    /// `sock`, to the wildcard address and the next ephemeral port.
    pub fn connect(
        &mut self,
        addr: SocketAddr,
        ports: &mut EphemeralPorts,
        sock: &mut UdpStackSocket<'static>,
    ) -> (r: Result<(), NetError>)
        ensures
            final(self).spec_handle() == old(self).spec_handle(),
            final(self).spec_is_nonblocking() == old(self).spec_is_nonblocking(),
            final(self).spec_is_reuse_addr() == old(self).spec_is_reuse_addr(),
            old(self).local() is Some ==> r == Ok::<(), NetError>(()) && final(self).local() == old(
                self,
            ).local() && final(ports).cursor() == old(ports).cursor() && final(ports).issued()
                == old(ports).issued(),
            old(self).local() is None ==> PORT_START <= old(ports).cursor() && final(ports).cursor()
                == next_cursor(old(ports).cursor()) && final(ports).issued() == old(ports).issued()
                + 1 && r == if udp_open(*old(sock)) {
                Err(NetError::AlreadyExists)
            } else {
                Ok::<(), NetError>(())
            },
            old(self).local() is None && r is Ok ==> final(self).local() == Some(
                SocketAddr { addr: IpAddr(0, 0, 0, 0), port: old(ports).cursor() },
            ) && udp_open(*final(sock)),
            r is Ok ==> final(self).peer() == Some(addr),
            r is Err ==> final(self).local() == old(self).local() && final(self).peer() == old(
                self,
            ).peer(),
    {
        if self.local_addr.is_none() {
            let any = SocketAddr { addr: IpAddr(0, 0, 0, 0), port: 0 };
            let e = self.bind_endpoint(any, ports)?;
            let outcome = bind_endpoint(sock, e);
            self.bind(e, outcome)?;
        }
        self.peer_addr = Some(addr);
        Ok(())
    }

    /// Sets the peer of a bound socket.
    pub(crate) fn set_peer(&mut self, addr: SocketAddr)
        requires
            old(self).local() is Some,
        ensures
            final(self).peer() == Some(addr),
            final(self).local() == old(self).local(),
            final(self).spec_handle() == old(self).spec_handle(),
            final(self).spec_is_nonblocking() == old(self).spec_is_nonblocking(),
            final(self).spec_is_reuse_addr() == old(self).spec_is_reuse_addr(),
    {
        self.peer_addr = Some(addr);
    }

    /// The destination of a datagram sent to `remote`: the wildcard address
    /// or port 0 is refused, and an unbound socket cannot send.
    pub fn send_to(&self, remote: SocketAddr) -> (r: Result<SocketAddr, NetError>)
        ensures
            r == if remote.port == 0 || remote.addr.is_unspecified() {
                Err(NetError::InvalidInput)
            } else if self.local() is None {
                Err(NetError::NotConnected)
            } else {
                Ok::<SocketAddr, NetError>(remote)
            },
    {
        if remote.port == 0 || remote.addr.is_unspecified() {
            return Err(NetError::InvalidInput);
        }
        if self.local_addr.is_none() {
            return Err(NetError::NotConnected);
        }
        Ok(remote)
    }

    /// The destination of a datagram sent on a connected socket: its peer.
    pub fn send(&self) -> (r: Result<SocketAddr, NetError>)
        ensures
            r == match self.peer() {
                None => Err(NetError::NotConnected),
                Some(p) => if self.local() is None {
                    Err(NetError::NotConnected)
                } else {
                    Ok::<SocketAddr, NetError>(p)
                },
            },
    {
        let remote = self.peer_addr()?;
        if self.local_addr.is_none() {
            return Err(NetError::NotConnected);
        }
        Ok(remote)
    }

    /// Whether the socket may receive: it must be bound.
    pub fn recv_from(&self) -> (r: Result<(), NetError>)
        ensures
            r == if self.local() is None {
                Err(NetError::NotConnected)
            } else {
                Ok::<(), NetError>(())
            },
    {
        if self.local_addr.is_none() {
            return Err(NetError::NotConnected);
        }
        Ok(())
    }

    /// The peer whose datagrams a connected receive takes: the socket must
    /// be connected and bound.
    pub fn recv(&self) -> (r: Result<SocketAddr, NetError>)
        ensures
            r == match self.peer() {
                None => Err(NetError::NotConnected),
                Some(p) => if self.local() is None {
                    Err(NetError::NotConnected)
                } else {
                    Ok::<SocketAddr, NetError>(p)
                },
            },
    {
        self.send()
    }

    /// Readiness from what the stack socket reports; an unbound socket is
    /// neither readable nor writable.
    pub fn poll(&self, can_recv: bool, can_send: bool) -> (r: PollState)
        ensures
            self.local() is None ==> r == (PollState { readable: false, writable: false }),
            self.local() is Some ==> r == (PollState { readable: can_recv, writable: can_send }),
    {
        if self.local_addr.is_none() {
            return PollState { readable: false, writable: false };
        }
        PollState { readable: can_recv, writable: can_send }
    }
}

} // verus!
