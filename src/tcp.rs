//! The TCP adapter's endpoint and option state.
use vstd::prelude::*;

use crate::addr::SocketAddr;
use crate::error::NetError;
use crate::port::{next_cursor, EphemeralPorts, PORT_START};
use crate::udp::timeout_outcome;

verus! {

/// Keep-alive interval, in seconds, of a socket with keep-alive on.
pub const KEEP_ALIVE_SECS: u64 = 45;

/// States of the stack's TCP connection.
#[derive(Clone, Copy, Debug, PartialEq, Eq, Structural)]
pub enum TcpState {
    Closed,
    Listen,
    SynSent,
    SynReceived,
    Established,
    FinWait1,
    FinWait2,
    CloseWait,
    Closing,
    LastAck,
    TimeWait,
}

/// One step of a connect: the handshake is under way, done (the local
/// endpoint the stack chose), or refused.
pub open spec fn handshake_of(state: TcpState, local: Option<SocketAddr>) -> Result<SocketAddr, NetError> {
    match state {
        TcpState::SynSent | TcpState::SynReceived => Err(NetError::WouldBlock),
        TcpState::Established => match local {
            Some(a) => Ok(a),
            None => Err(NetError::BadState),
        },
        _ => Err(NetError::ConnectionRefused),
    }
}

/// Decides one step of a connect from the connection's state and local
/// endpoint.
pub fn handshake(state: TcpState, local: Option<SocketAddr>) -> (r: Result<SocketAddr, NetError>)
    ensures
        r == handshake_of(state, local),
{
    match state {
        TcpState::SynSent | TcpState::SynReceived => Err(NetError::WouldBlock),
        TcpState::Established => match local {
            Some(a) => Ok(a),
            None => Err(NetError::BadState),
        },
        _ => Err(NetError::ConnectionRefused),
    }
}

/// One step of an accept on a listening connection: once a peer has
/// completed the handshake, its endpoints; until then, would-block.
pub fn accept_ready(
    active: bool,
    state: TcpState,
    local: Option<SocketAddr>,
    remote: Option<SocketAddr>,
) -> (r: Result<(SocketAddr, SocketAddr), NetError>)
    ensures
        r == if !active || state == TcpState::SynReceived {
            Err(NetError::WouldBlock)
        } else {
            match (local, remote) {
                (Some(l), Some(p)) => Ok::<(SocketAddr, SocketAddr), NetError>((l, p)),
                _ => Err(NetError::BadState),
            }
        },
{
    if !active || state == TcpState::SynReceived {
        return Err(NetError::WouldBlock);
    }
    match (local, remote) {
        (Some(l), Some(p)) => Ok((l, p)),
        _ => Err(NetError::BadState),
    }
}

/// Whether a send attempt may queue data: a connection that may no longer
/// send is not connected, a full buffer would block.
pub fn send_ready(may_send: bool, can_send: bool) -> (r: Result<(), NetError>)
    ensures
        r == if !may_send {
            Err(NetError::NotConnected)
        } else if !can_send {
            Err(NetError::WouldBlock)
        } else {
            Ok::<(), NetError>(())
        },
{
    if !may_send {
        Err(NetError::NotConnected)
    } else if !can_send {
        Err(NetError::WouldBlock)
    } else {
        Ok(())
    }
}

/// Whether a receive attempt may take data: `Ok(false)` when the peer has
/// closed its side (the receive returns 0 bytes), `Ok(true)` when data is
/// waiting.
pub fn recv_ready(may_recv: bool, can_recv: bool) -> (r: Result<bool, NetError>)
    ensures
        r == if !may_recv {
            Ok::<bool, NetError>(false)
        } else if !can_recv {
            Err(NetError::WouldBlock)
        } else {
            Ok(true)
        },
{
    if !may_recv {
        Ok(false)
    } else if !can_recv {
        Err(NetError::WouldBlock)
    } else {
        Ok(true)
    }
}

/// As `recv_ready`, for a receive with deadline `expire_at` at tick `now`:
/// with no data waiting it times out once `now` is past the deadline.
pub fn recv_ready_timeout(may_recv: bool, can_recv: bool, now: u64, expire_at: u64) -> (r: Result<
    bool,
    NetError,
>)
    ensures
        r == if !may_recv {
            Ok::<bool, NetError>(false)
        } else if !can_recv {
            Err(timeout_outcome(now, expire_at))
        } else {
            Ok(true)
        },
{
    if !may_recv {
        Ok(false)
    } else if !can_recv {
        if now > expire_at {
            Err(NetError::Timeout)
        } else {
            Err(NetError::WouldBlock)
        }
    } else {
        Ok(true)
    }
}

/// A TCP socket: a handle into the stack's socket table, the cached local
/// and peer endpoints, and the options the socket layer reads back.
pub struct TcpSocket {
    handle: usize,
    local_addr: Option<SocketAddr>,
    peer_addr: Option<SocketAddr>,
    nonblock: bool,
    nagle: bool,
    keep_alive: Option<u64>,
}

impl TcpSocket {
    pub closed spec fn spec_handle(&self) -> usize {
        self.handle
    }

    /// The local endpoint, once bound.
    pub closed spec fn local(&self) -> Option<SocketAddr> {
        self.local_addr
    }

    /// The peer endpoint, once connected.
    pub closed spec fn peer(&self) -> Option<SocketAddr> {
        self.peer_addr
    }

    pub closed spec fn spec_is_nonblocking(&self) -> bool {
        self.nonblock
    }

    pub closed spec fn spec_nagle_enabled(&self) -> bool {
        self.nagle
    }

    /// The keep-alive interval in seconds, if keep-alive is on.
    pub closed spec fn spec_keep_alive(&self) -> Option<u64> {
        self.keep_alive
    }

    /// An unbound, blocking socket over the stack socket `handle`, with
    /// Nagle's algorithm on and keep-alive off.
    pub fn new(handle: usize) -> (r: TcpSocket)
        ensures
            r.spec_handle() == handle,
            r.local() is None,
            r.peer() is None,
            !r.spec_is_nonblocking(),
            r.spec_nagle_enabled(),
            r.spec_keep_alive() is None,
    {
        TcpSocket {
            handle,
            local_addr: None,
            peer_addr: None,
            nonblock: false,
            nagle: true,
            keep_alive: None,
        }
    }

    /// A connection the stack accepted on socket `handle`, between `local`
    /// and `peer`.
    pub fn accepted(handle: usize, local: SocketAddr, peer: SocketAddr) -> (r: TcpSocket)
        ensures
            r.spec_handle() == handle,
            r.local() == Some(local),
            r.peer() == Some(peer),
            !r.spec_is_nonblocking(),
            r.spec_nagle_enabled(),
            r.spec_keep_alive() is None,
    {
        TcpSocket {
            handle,
            local_addr: Some(local),
            peer_addr: Some(peer),
            nonblock: false,
            nagle: true,
            keep_alive: None,
        }
    }

    #[verifier::when_used_as_spec(spec_handle)]
    pub fn handle(&self) -> (r: usize)
        ensures
            r == self.spec_handle(),
    {
        self.handle
    }

    /// The local endpoint, or `NotConnected` when unbound.
    pub fn local_addr(&self) -> (r: Result<SocketAddr, NetError>)
        ensures
            r == match self.local() {
                Some(a) => Ok::<SocketAddr, NetError>(a),
                None => Err(NetError::NotConnected),
            },
    {
        match self.local_addr {
            Some(a) => Ok(a),
            None => Err(NetError::NotConnected),
        }
    }

    /// The peer endpoint, or `NotConnected` when not connected.
    pub fn peer_addr(&self) -> (r: Result<SocketAddr, NetError>)
        ensures
            r == match self.peer() {
                Some(a) => Ok::<SocketAddr, NetError>(a),
                None => Err(NetError::NotConnected),
            },
    {
        match self.peer_addr {
            Some(a) => Ok(a),
            None => Err(NetError::NotConnected),
        }
    }

    /// Whether the connection is established.
    pub fn is_connected(&self) -> (r: bool)
        ensures
            r == self.peer() is Some,
    {
        self.peer_addr.is_some()
    }

    #[verifier::when_used_as_spec(spec_is_nonblocking)]
    pub fn is_nonblocking(&self) -> (r: bool)
        ensures
            r == self.spec_is_nonblocking(),
    {
        self.nonblock
    }

    pub fn set_nonblocking(&mut self, nonblocking: bool)
        ensures
            final(self).spec_is_nonblocking() == nonblocking,
            final(self).local() == old(self).local(),
            final(self).peer() == old(self).peer(),
            final(self).spec_handle() == old(self).spec_handle(),
            final(self).spec_nagle_enabled() == old(self).spec_nagle_enabled(),
            final(self).spec_keep_alive() == old(self).spec_keep_alive(),
    {
        self.nonblock = nonblocking;
    }

    #[verifier::when_used_as_spec(spec_nagle_enabled)]
    pub fn nagle_enabled(&self) -> (r: bool)
        ensures
            r == self.spec_nagle_enabled(),
    {
        self.nagle
    }

    pub fn set_nagle_enabled(&mut self, enabled: bool)
        ensures
            final(self).spec_nagle_enabled() == enabled,
            final(self).local() == old(self).local(),
            final(self).peer() == old(self).peer(),
            final(self).spec_handle() == old(self).spec_handle(),
            final(self).spec_is_nonblocking() == old(self).spec_is_nonblocking(),
            final(self).spec_keep_alive() == old(self).spec_keep_alive(),
    {
        self.nagle = enabled;
    }

    #[verifier::when_used_as_spec(spec_keep_alive)]
    pub fn keep_alive(&self) -> (r: Option<u64>)
        ensures
            r == self.spec_keep_alive(),
    {
        self.keep_alive
    }

    /// Turns keep-alive on, at the fixed interval, or off.
    pub fn set_keep_alive(&mut self, on: bool)
        ensures
            final(self).spec_keep_alive() == if on {
                Some(KEEP_ALIVE_SECS)
            } else {
                None
            },
            final(self).local() == old(self).local(),
            final(self).peer() == old(self).peer(),
            final(self).spec_handle() == old(self).spec_handle(),
            final(self).spec_is_nonblocking() == old(self).spec_is_nonblocking(),
            final(self).spec_nagle_enabled() == old(self).spec_nagle_enabled(),
    {
        self.keep_alive = if on {
            Some(KEEP_ALIVE_SECS)
        } else {
            None
        };
    }

    /// Binds an unbound socket to `addr`; port 0 takes the next ephemeral
    /// port (taken even when the bind then fails).
    pub fn bind(&mut self, addr: SocketAddr, ports: &mut EphemeralPorts) -> (r: Result<(), NetError>)
        ensures
            final(ports).cursor() == if addr.port == 0 {
                next_cursor(old(ports).cursor())
            } else {
                old(ports).cursor()
            },
            old(self).local() is Some ==> r == Err::<(), NetError>(NetError::AlreadyExists)
                && final(self).local() == old(self).local(),
            old(self).local() is None ==> r == Ok::<(), NetError>(()) && final(self).local() == Some(
                SocketAddr {
                    port: if addr.port == 0 {
                        old(ports).cursor()
                    } else {
                        addr.port
                    },
                    ..addr
                },
            ),
            final(self).peer() == old(self).peer(),
            final(self).spec_handle() == old(self).spec_handle(),
            final(self).spec_is_nonblocking() == old(self).spec_is_nonblocking(),
            final(self).spec_nagle_enabled() == old(self).spec_nagle_enabled(),
            final(self).spec_keep_alive() == old(self).spec_keep_alive(),
            addr.port == 0 ==> PORT_START <= old(ports).cursor(),
            final(ports).issued() == old(ports).issued() + if addr.port == 0 {
                1int
            } else {
                0int
            },
    {
        let mut local = addr;
        if local.port == 0 {
            local.port = ports.get_ephemeral_port();
        }
        if self.local_addr.is_some() {
            return Err(NetError::AlreadyExists);
        }
        self.local_addr = Some(local);
        Ok(())
    }

    /// Whether the socket may listen: it must be bound.
    pub fn listen(&self) -> (r: Result<(), NetError>)
        ensures
            r == if self.local() is None {
                Err(NetError::InvalidInput)
            } else {
                Ok::<(), NetError>(())
            },
    {
        if self.local_addr.is_none() {
            return Err(NetError::InvalidInput);
        }
        Ok(())
    }

    /// Records the connection the stack established to `peer` from `local`.
    pub fn connect(&mut self, local: SocketAddr, peer: SocketAddr)
        ensures
            final(self).local() == Some(local),
            final(self).peer() == Some(peer),
            final(self).spec_handle() == old(self).spec_handle(),
            final(self).spec_is_nonblocking() == old(self).spec_is_nonblocking(),
            final(self).spec_nagle_enabled() == old(self).spec_nagle_enabled(),
            final(self).spec_keep_alive() == old(self).spec_keep_alive(),
    {
        self.local_addr = Some(local);
        self.peer_addr = Some(peer);
    }
}

} // verus!
