//! `getsockopt` and `setsockopt`: option levels and names, and the byte
//! layouts of their values.
use vstd::prelude::*;

use crate::addr::IpAddr;
use crate::bytes::{
    copy_prefix, le_u32, lemma_le_u32_bytes, lemma_le_u64_bytes, lemma_u64_le_round_trip, read_le_u32,
    u32_le, u32_to_le, u64_le, u64_to_le,
};
use crate::error::NetError;
use crate::socket::{
    decode_timeval, read_timeval, timeval_bytes, timeval_to_bytes, Socket, SocketKind, SocketView,
    TimeVal, TIMEVAL_LEN,
};
use crate::tcp::KEEP_ALIVE_SECS;

verus! {

/// Width of an integer option value.
pub const INT_OPT_LEN: usize = 4;

/// Maximum segment size reported for TCP sockets.
pub const TCP_MAXSEG_VALUE: u64 = 1500;

/// Width of the maximum segment size value.
pub const MAXSEG_LEN: usize = 8;

/// Option levels.
#[allow(non_camel_case_types)]
#[derive(Clone, Copy, Debug, PartialEq, Eq, Structural)]
pub enum SocketOptionLevel {
    IP,
    Socket,
    Tcp,
}

impl SocketOptionLevel {
    pub open spec fn code(self) -> usize {
        match self {
            SocketOptionLevel::IP => 0,
            SocketOptionLevel::Socket => 1,
            SocketOptionLevel::Tcp => 6,
        }
    }

    pub fn try_from_raw(v: usize) -> (r: Option<SocketOptionLevel>)
        ensures
            r matches Some(l) ==> l.code() == v,
            r is None ==> forall|l: SocketOptionLevel| l.code() != v,
    {
        if v == 0 {
            Some(SocketOptionLevel::IP)
        } else if v == 1 {
            Some(SocketOptionLevel::Socket)
        } else if v == 6 {
            Some(SocketOptionLevel::Tcp)
        } else {
            None
        }
    }
}

/// Options of level `IP`.
#[allow(non_camel_case_types)]
#[derive(Clone, Copy, Debug, PartialEq, Eq, Structural)]
pub enum IpOption {
    IP_MULTICAST_IF,
    IP_MULTICAST_TTL,
    IP_MULTICAST_LOOP,
    IP_ADD_MEMBERSHIP,
}

/// Options of level `Socket`.
#[allow(non_camel_case_types)]
#[derive(Clone, Copy, Debug, PartialEq, Eq, Structural)]
pub enum SocketOption {
    SO_REUSEADDR,
    SO_ERROR,
    SO_DONTROUTE,
    SO_SNDBUF,
    SO_RCVBUF,
    SO_KEEPALIVE,
    SO_RCVTIMEO,
    SO_SNDTIMEO,
}

/// Options of level `Tcp`.
#[allow(non_camel_case_types)]
#[derive(Clone, Copy, Debug, PartialEq, Eq, Structural)]
pub enum TcpSocketOption {
    /// Turns Nagle's algorithm off (and flushes).
    TCP_NODELAY,
    TCP_MAXSEG,
    TCP_INFO,
    TCP_CONGESTION,
}

impl IpOption {
    pub open spec fn code(self) -> usize {
        match self {
            IpOption::IP_MULTICAST_IF => 32,
            IpOption::IP_MULTICAST_TTL => 33,
            IpOption::IP_MULTICAST_LOOP => 34,
            IpOption::IP_ADD_MEMBERSHIP => 35,
        }
    }

    pub fn try_from_raw(v: usize) -> (r: Option<IpOption>)
        ensures
            r matches Some(o) ==> o.code() == v,
            r is None ==> forall|o: IpOption| o.code() != v,
    {
        if v == 32 {
            Some(IpOption::IP_MULTICAST_IF)
        } else if v == 33 {
            Some(IpOption::IP_MULTICAST_TTL)
        } else if v == 34 {
            Some(IpOption::IP_MULTICAST_LOOP)
        } else if v == 35 {
            Some(IpOption::IP_ADD_MEMBERSHIP)
        } else {
            None
        }
    }
}

impl SocketOption {
    pub open spec fn code(self) -> usize {
        match self {
            SocketOption::SO_REUSEADDR => 2,
            SocketOption::SO_ERROR => 4,
            SocketOption::SO_DONTROUTE => 5,
            SocketOption::SO_SNDBUF => 7,
            SocketOption::SO_RCVBUF => 8,
            SocketOption::SO_KEEPALIVE => 9,
            SocketOption::SO_RCVTIMEO => 20,
            SocketOption::SO_SNDTIMEO => 21,
        }
    }

    pub fn try_from_raw(v: usize) -> (r: Option<SocketOption>)
        ensures
            r matches Some(o) ==> o.code() == v,
            r is None ==> forall|o: SocketOption| o.code() != v,
    {
        if v == 2 {
            Some(SocketOption::SO_REUSEADDR)
        } else if v == 4 {
            Some(SocketOption::SO_ERROR)
        } else if v == 5 {
            Some(SocketOption::SO_DONTROUTE)
        } else if v == 7 {
            Some(SocketOption::SO_SNDBUF)
        } else if v == 8 {
            Some(SocketOption::SO_RCVBUF)
        } else if v == 9 {
            Some(SocketOption::SO_KEEPALIVE)
        } else if v == 20 {
            Some(SocketOption::SO_RCVTIMEO)
        } else if v == 21 {
            Some(SocketOption::SO_SNDTIMEO)
        } else {
            None
        }
    }
}

impl TcpSocketOption {
    pub open spec fn code(self) -> usize {
        match self {
            TcpSocketOption::TCP_NODELAY => 1,
            TcpSocketOption::TCP_MAXSEG => 2,
            TcpSocketOption::TCP_INFO => 11,
            TcpSocketOption::TCP_CONGESTION => 13,
        }
    }

    pub fn try_from_raw(v: usize) -> (r: Option<TcpSocketOption>)
        ensures
            r matches Some(o) ==> o.code() == v,
            r is None ==> forall|o: TcpSocketOption| o.code() != v,
    {
        if v == 1 {
            Some(TcpSocketOption::TCP_NODELAY)
        } else if v == 2 {
            Some(TcpSocketOption::TCP_MAXSEG)
        } else if v == 11 {
            Some(TcpSocketOption::TCP_INFO)
        } else if v == 13 {
            Some(TcpSocketOption::TCP_CONGESTION)
        } else {
            None
        }
    }
}

/// The 4-byte form of a flag option.
pub open spec fn flag_bytes(b: bool) -> Seq<u8> {
    u32_le(
        if b {
            1
        } else {
            0
        },
    )
}

/// The timeval a timeout option reads back: zero for no timeout.
pub open spec fn timeout_bytes(t: Option<TimeVal>) -> Seq<u8> {
    match t {
        Some(t) => timeval_bytes(t),
        None => timeval_bytes(TimeVal { sec: 0, usec: 0 }),
    }
}

/// What a `setsockopt` of a TCP option asks of the stack.
#[derive(Clone, Copy, Debug, PartialEq, Eq, Structural)]
pub enum TcpEffect {
    /// Nothing.
    Nothing,
    /// Flush the stack socket's send buffer.
    Flush,
}

/// What a `setsockopt` of an IP option asks of the stack.
#[derive(Clone, Copy, Debug, PartialEq, Eq, Structural)]
pub enum IpEffect {
    /// Nothing.
    Nothing,
    /// Set the hop limit of the stack's UDP socket.
    SetTtl(u8),
    /// Join the multicast group on the local multicast interface; the
    /// interface address is accepted and not used.
    JoinGroup(IpAddr, IpAddr),
}

/// What `setsockopt` of an IP option with value `opt` asks of the stack of
/// a socket of kind `kind`. Multicast options act on UDP sockets only.
pub open spec fn ip_set_spec(o: IpOption, kind: SocketKind, opt: Seq<u8>) -> Result<IpEffect, NetError> {
    match o {
        IpOption::IP_MULTICAST_IF => Ok(IpEffect::Nothing),
        IpOption::IP_MULTICAST_LOOP => Ok(IpEffect::Nothing),
        IpOption::IP_MULTICAST_TTL => if kind != SocketKind::Udp {
            Err(NetError::Unsupported)
        } else if opt.len() < 1 || opt[0] == 0 {
            Err(NetError::InvalidInput)
        } else {
            Ok(IpEffect::SetTtl(opt[0]))
        },
        IpOption::IP_ADD_MEMBERSHIP => if opt.len() < 8 {
            Err(NetError::InvalidInput)
        } else if kind != SocketKind::Udp {
            Err(NetError::Unsupported)
        } else {
            Ok(
                IpEffect::JoinGroup(
                    IpAddr(opt[0], opt[1], opt[2], opt[3]),
                    IpAddr(opt[4], opt[5], opt[6], opt[7]),
                ),
            )
        },
    }
}

impl IpOption {
    /// `setsockopt` at level `IP`: checks the value and says what the stack
    /// must do.
    pub fn set(&self, socket: &Socket, opt: &[u8]) -> (r: Result<IpEffect, NetError>)
        ensures
            r == ip_set_spec(*self, socket@.kind, opt@),
    {
        match self {
            IpOption::IP_MULTICAST_IF => Ok(IpEffect::Nothing),
            IpOption::IP_MULTICAST_LOOP => Ok(IpEffect::Nothing),
            IpOption::IP_MULTICAST_TTL => {
                if socket.kind() != SocketKind::Udp {
                    return Err(NetError::Unsupported);
                }
                if opt.len() < 1 || opt[0] == 0 {
                    return Err(NetError::InvalidInput);
                }
                Ok(IpEffect::SetTtl(opt[0]))
            },
            IpOption::IP_ADD_MEMBERSHIP => {
                if opt.len() < 8 {
                    return Err(NetError::InvalidInput);
                }
                if socket.kind() != SocketKind::Udp {
                    return Err(NetError::Unsupported);
                }
                Ok(
                    IpEffect::JoinGroup(
                        IpAddr(opt[0], opt[1], opt[2], opt[3]),
                        IpAddr(opt[4], opt[5], opt[6], opt[7]),
                    ),
                )
            },
        }
    }
}

/// Writes `bytes` as an option value and reports its length.
fn write_option(buf: &mut [u8], opt_len: &mut u32, bytes: &[u8])
    requires
        bytes@.len() <= *old(opt_len) <= old(buf)@.len(),
    ensures
        *final(opt_len) == bytes@.len(),
        final(buf)@.len() == old(buf)@.len(),
        forall|i: int| 0 <= i < bytes@.len() ==> final(buf)@[i] == bytes@[i],
        forall|i: int| bytes@.len() <= i < old(buf)@.len() ==> final(buf)@[i] == old(buf)@[i],
{
    let cap = bytes.len();
    copy_prefix(buf, bytes, cap);
    *opt_len = cap as u32;
}

/// What `getsockopt` leaves in the value buffer and the length: for an
/// error or no value, both as they were; else the value, and its length.
pub open spec fn get_outcome(
    spec_r: Result<Option<Seq<u8>>, NetError>,
    r: Result<(), NetError>,
    old_buf: Seq<u8>,
    new_buf: Seq<u8>,
    old_len: u32,
    new_len: u32,
) -> bool {
    &&& new_buf.len() == old_buf.len()
    &&& match spec_r {
        Err(e) => r == Err::<(), NetError>(e) && new_buf == old_buf && new_len == old_len,
        Ok(None) => r == Ok::<(), NetError>(()) && new_buf == old_buf && new_len == old_len,
        Ok(Some(b)) => {
            &&& r == Ok::<(), NetError>(())
            &&& new_len == b.len()
            &&& forall|i: int| 0 <= i < b.len() ==> new_buf[i] == b[i]
            &&& forall|i: int| b.len() <= i < old_buf.len() ==> new_buf[i] == old_buf[i]
        },
    }
}

impl SocketOption {
    /// The socket after `setsockopt` of this option with value `opt`, or
    /// the error. Integer values are four little-endian bytes, a timeout is
    /// a `timeval` where zero means none; a short value is refused.
    pub open spec fn set_spec(self, v: SocketView, opt: Seq<u8>) -> Result<SocketView, NetError> {
        let short = opt.len() < INT_OPT_LEN;
        let val = le_u32(opt, 0);
        match self {
            SocketOption::SO_REUSEADDR => if short {
                Err(NetError::InvalidInput)
            } else if v.kind != SocketKind::Udp {
                Err(NetError::Unsupported)
            } else {
                Ok(SocketView { reuse_addr: val != 0, ..v })
            },
            SocketOption::SO_DONTROUTE => if short {
                Err(NetError::InvalidInput)
            } else {
                Ok(SocketView { dont_route: val != 0, ..v })
            },
            SocketOption::SO_SNDBUF => if short {
                Err(NetError::InvalidInput)
            } else {
                Ok(SocketView { send_buf_size: val, ..v })
            },
            SocketOption::SO_RCVBUF => if short {
                Err(NetError::InvalidInput)
            } else {
                Ok(SocketView { recv_buf_size: val, ..v })
            },
            SocketOption::SO_KEEPALIVE => if short {
                Err(NetError::InvalidInput)
            } else {
                match v.kind {
                    SocketKind::Udp => Ok(v),
                    SocketKind::Tcp => Ok(
                        SocketView {
                            keep_alive: if val != 0 {
                                Some(KEEP_ALIVE_SECS)
                            } else {
                                None
                            },
                            ..v
                        },
                    ),
                    SocketKind::Netlink => Err(NetError::Unsupported),
                }
            },
            SocketOption::SO_RCVTIMEO => if opt.len() < TIMEVAL_LEN {
                Err(NetError::InvalidInput)
            } else {
                let t = decode_timeval(opt);
                Ok(
                    SocketView {
                        recv_timeout: if t.sec == 0 && t.usec == 0 {
                            None
                        } else {
                            Some(t)
                        },
                        ..v
                    },
                )
            },
            SocketOption::SO_ERROR => Err(NetError::Unsupported),
            SocketOption::SO_SNDTIMEO => Err(NetError::PermissionDenied),
        }
    }

    /// The value `getsockopt` of this option reports into a buffer of `cap`
    /// bytes: `None` for no value, an error for a buffer shorter than the
    /// value.
    pub open spec fn get_spec(self, v: SocketView, cap: nat) -> Result<Option<Seq<u8>>, NetError> {
        let short = cap < INT_OPT_LEN;
        match self {
            SocketOption::SO_REUSEADDR => if v.kind != SocketKind::Udp {
                Err(NetError::Unsupported)
            } else if short {
                Err(NetError::InvalidInput)
            } else {
                Ok(Some(flag_bytes(v.reuse_addr)))
            },
            SocketOption::SO_DONTROUTE => if short {
                Err(NetError::InvalidInput)
            } else {
                Ok(Some(flag_bytes(v.dont_route)))
            },
            SocketOption::SO_SNDBUF => if short {
                Err(NetError::InvalidInput)
            } else {
                Ok(Some(u32_le(v.send_buf_size)))
            },
            SocketOption::SO_RCVBUF => if short {
                Err(NetError::InvalidInput)
            } else {
                Ok(Some(u32_le(v.recv_buf_size)))
            },
            SocketOption::SO_KEEPALIVE => if short {
                Err(NetError::InvalidInput)
            } else {
                match v.kind {
                    SocketKind::Udp => Ok(Some(flag_bytes(false))),
                    SocketKind::Tcp => Ok(Some(flag_bytes(v.keep_alive is Some))),
                    SocketKind::Netlink => Err(NetError::Unsupported),
                }
            },
            SocketOption::SO_RCVTIMEO => if cap < TIMEVAL_LEN {
                Err(NetError::InvalidInput)
            } else {
                Ok(Some(timeout_bytes(v.recv_timeout)))
            },
            SocketOption::SO_ERROR => Ok(None),
            SocketOption::SO_SNDTIMEO => Err(NetError::Unsupported),
        }
    }

    /// `setsockopt` at level `Socket`.
    pub fn set(&self, socket: &mut Socket, opt: &[u8]) -> (r: Result<(), NetError>)
        ensures
            match self.set_spec(old(socket)@, opt@) {
                Ok(v) => r == Ok::<(), NetError>(()) && final(socket)@ == v,
                Err(e) => r == Err::<(), NetError>(e) && final(socket)@ == old(socket)@,
            },
    {
        let short = opt.len() < INT_OPT_LEN;
        match self {
            SocketOption::SO_REUSEADDR => {
                if short {
                    return Err(NetError::InvalidInput);
                }
                let val = read_le_u32(opt, 0);
                socket.set_reuse_addr(val != 0)
            },
            SocketOption::SO_DONTROUTE => {
                if short {
                    return Err(NetError::InvalidInput);
                }
                let val = read_le_u32(opt, 0);
                socket.set_dont_route(val != 0);
                Ok(())
            },
            SocketOption::SO_SNDBUF => {
                if short {
                    return Err(NetError::InvalidInput);
                }
                let val = read_le_u32(opt, 0);
                socket.set_send_buf_size(val);
                Ok(())
            },
            SocketOption::SO_RCVBUF => {
                if short {
                    return Err(NetError::InvalidInput);
                }
                let val = read_le_u32(opt, 0);
                socket.set_recv_buf_size(val);
                Ok(())
            },
            SocketOption::SO_KEEPALIVE => {
                if short {
                    return Err(NetError::InvalidInput);
                }
                let val = read_le_u32(opt, 0);
                match socket.kind() {
                    SocketKind::Udp => Ok(()),
                    SocketKind::Tcp => socket.set_keep_alive(val != 0),
                    SocketKind::Netlink => Err(NetError::Unsupported),
                }
            },
            SocketOption::SO_RCVTIMEO => {
                if opt.len() < TIMEVAL_LEN {
                    return Err(NetError::InvalidInput);
                }
                let t = read_timeval(opt);
                if t.sec == 0 && t.usec == 0 {
                    socket.set_recv_timeout(None);
                } else {
                    socket.set_recv_timeout(Some(t));
                }
                Ok(())
            },
            SocketOption::SO_ERROR => Err(NetError::Unsupported),
            SocketOption::SO_SNDTIMEO => Err(NetError::PermissionDenied),
        }
    }

    /// `getsockopt` at level `Socket`: writes the value into `buf`, within
    /// the capacity `*opt_len` the caller declared, and reports its length
    /// in `*opt_len`.
    pub fn get(&self, socket: &Socket, buf: &mut [u8], opt_len: &mut u32) -> (r: Result<(), NetError>)
        requires
            *old(opt_len) as int <= old(buf)@.len(),
        ensures
            get_outcome(
                self.get_spec(socket@, *old(opt_len) as nat),
                r,
                old(buf)@,
                final(buf)@,
                *old(opt_len),
                *final(opt_len),
            ),
    {
        let cap = *opt_len as usize;
        let short = cap < INT_OPT_LEN;
        let bytes = match self {
            SocketOption::SO_REUSEADDR => {
                let reuse = socket.get_reuse_addr()?;
                if short {
                    return Err(NetError::InvalidInput);
                }
                u32_to_le(if reuse { 1 } else { 0 })
            },
            SocketOption::SO_DONTROUTE => {
                if short {
                    return Err(NetError::InvalidInput);
                }
                u32_to_le(if socket.dont_route() { 1 } else { 0 })
            },
            SocketOption::SO_SNDBUF => {
                if short {
                    return Err(NetError::InvalidInput);
                }
                u32_to_le(socket.send_buf_size())
            },
            SocketOption::SO_RCVBUF => {
                if short {
                    return Err(NetError::InvalidInput);
                }
                u32_to_le(socket.recv_buf_size())
            },
            SocketOption::SO_KEEPALIVE => {
                if short {
                    return Err(NetError::InvalidInput);
                }
                match socket.kind() {
                    SocketKind::Udp => u32_to_le(0),
                    SocketKind::Tcp => u32_to_le(if socket.keep_alive().is_some() { 1 } else { 0 }),
                    SocketKind::Netlink => {
                        return Err(NetError::Unsupported);
                    },
                }
            },
            SocketOption::SO_RCVTIMEO => {
                if cap < TIMEVAL_LEN {
                    return Err(NetError::InvalidInput);
                }
                match socket.recv_timeout() {
                    Some(t) => timeval_to_bytes(t),
                    None => timeval_to_bytes(TimeVal { sec: 0, usec: 0 }),
                }
            },
            SocketOption::SO_ERROR => {
                return Ok(());
            },
            SocketOption::SO_SNDTIMEO => {
                return Err(NetError::Unsupported);
            },
        };
        write_option(buf, opt_len, bytes.as_slice());
        Ok(())
    }
}

impl TcpSocketOption {
    /// The socket after `setsockopt` of this option with value `opt`, or
    /// the error. TCP options need a TCP socket.
    pub open spec fn set_spec(self, v: SocketView, opt: Seq<u8>) -> Result<SocketView, NetError> {
        if v.kind != SocketKind::Tcp {
            Err(NetError::Unsupported)
        } else {
            match self {
                TcpSocketOption::TCP_NODELAY => if opt.len() < INT_OPT_LEN {
                    Err(NetError::InvalidInput)
                } else {
                    Ok(SocketView { nagle: le_u32(opt, 0) == 0, ..v })
                },
                TcpSocketOption::TCP_CONGESTION => Ok(SocketView { congestion: opt, ..v }),
                TcpSocketOption::TCP_MAXSEG => Err(NetError::Unsupported),
                TcpSocketOption::TCP_INFO => Err(NetError::Unsupported),
            }
        }
    }

    /// The value `getsockopt` of this option reports into a buffer of `cap`
    /// bytes; the congestion tag is cut to the buffer.
    pub open spec fn get_spec(self, v: SocketView, cap: nat) -> Result<Option<Seq<u8>>, NetError> {
        if v.kind != SocketKind::Tcp {
            Err(NetError::Unsupported)
        } else {
            match self {
                TcpSocketOption::TCP_NODELAY => if cap < INT_OPT_LEN {
                    Err(NetError::InvalidInput)
                } else {
                    Ok(Some(flag_bytes(!v.nagle)))
                },
                TcpSocketOption::TCP_MAXSEG => if cap < MAXSEG_LEN {
                    Err(NetError::InvalidInput)
                } else {
                    Ok(Some(u64_le(TCP_MAXSEG_VALUE)))
                },
                TcpSocketOption::TCP_INFO => Ok(None),
                TcpSocketOption::TCP_CONGESTION => Ok(
                    Some(
                        v.congestion.subrange(
                            0,
                            if cap < v.congestion.len() {
                                cap as int
                            } else {
                                v.congestion.len() as int
                            },
                        ),
                    ),
                ),
            }
        }
    }

    /// `setsockopt` at level `Tcp`. A change of `TCP_NODELAY` asks the
    /// caller to flush the stack socket's send buffer.
    pub fn set(&self, socket: &mut Socket, opt: &[u8]) -> (r: Result<TcpEffect, NetError>)
        ensures
            match self.set_spec(old(socket)@, opt@) {
                Ok(v) => r == Ok::<TcpEffect, NetError>(
                    if *self == TcpSocketOption::TCP_NODELAY {
                        TcpEffect::Flush
                    } else {
                        TcpEffect::Nothing
                    },
                ) && final(socket)@ == v,
                Err(e) => r == Err::<TcpEffect, NetError>(e) && final(socket)@ == old(socket)@,
            },
    {
        if socket.kind() != SocketKind::Tcp {
            return Err(NetError::Unsupported);
        }
        match self {
            TcpSocketOption::TCP_NODELAY => {
                if opt.len() < INT_OPT_LEN {
                    return Err(NetError::InvalidInput);
                }
                let val = read_le_u32(opt, 0);
                socket.set_nagle_enabled(val == 0)?;
                Ok(TcpEffect::Flush)
            },
            TcpSocketOption::TCP_CONGESTION => {
                socket.set_congestion(opt);
                Ok(TcpEffect::Nothing)
            },
            TcpSocketOption::TCP_MAXSEG => Err(NetError::Unsupported),
            TcpSocketOption::TCP_INFO => Err(NetError::Unsupported),
        }
    }

    /// `getsockopt` at level `Tcp`.
    pub fn get(&self, socket: &Socket, buf: &mut [u8], opt_len: &mut u32) -> (r: Result<(), NetError>)
        requires
            *old(opt_len) as int <= old(buf)@.len(),
        ensures
            get_outcome(
                self.get_spec(socket@, *old(opt_len) as nat),
                r,
                old(buf)@,
                final(buf)@,
                *old(opt_len),
                *final(opt_len),
            ),
    {
        if socket.kind() != SocketKind::Tcp {
            return Err(NetError::Unsupported);
        }
        let cap = *opt_len as usize;
        match self {
            TcpSocketOption::TCP_NODELAY => {
                if cap < INT_OPT_LEN {
                    return Err(NetError::InvalidInput);
                }
                let bytes = u32_to_le(if socket.nagle_enabled() { 0 } else { 1 });
                write_option(buf, opt_len, bytes.as_slice());
                Ok(())
            },
            TcpSocketOption::TCP_MAXSEG => {
                if cap < MAXSEG_LEN {
                    return Err(NetError::InvalidInput);
                }
                let bytes = u64_to_le(TCP_MAXSEG_VALUE);
                write_option(buf, opt_len, bytes.as_slice());
                Ok(())
            },
            TcpSocketOption::TCP_INFO => Ok(()),
            TcpSocketOption::TCP_CONGESTION => {
                let tag = socket.congestion();
                let n = copy_prefix(buf, tag, cap);
                *opt_len = n as u32;
                Ok(())
            },
        }
    }
}

/// Setting a buffer size or the receive timeout and reading it back
/// reports the bytes that were set: the four bytes of a size, the sixteen
/// bytes of a `timeval`. An all-zero `timeval` leaves no timeout, and reads
/// back as zero.
pub proof fn lemma_option_round_trip(v: SocketView, b: Seq<u8>, cap: nat)
    ensures
        b.len() >= INT_OPT_LEN && cap >= INT_OPT_LEN ==> {
            &&& SocketOption::SO_SNDBUF.set_spec(v, b) is Ok
            &&& SocketOption::SO_SNDBUF.get_spec(SocketOption::SO_SNDBUF.set_spec(v, b)->Ok_0, cap)
                == Ok::<Option<Seq<u8>>, NetError>(Some(b.subrange(0, 4)))
            &&& SocketOption::SO_RCVBUF.set_spec(v, b) is Ok
            &&& SocketOption::SO_RCVBUF.get_spec(SocketOption::SO_RCVBUF.set_spec(v, b)->Ok_0, cap)
                == Ok::<Option<Seq<u8>>, NetError>(Some(b.subrange(0, 4)))
        },
        b.len() >= TIMEVAL_LEN && cap >= TIMEVAL_LEN ==> {
            &&& SocketOption::SO_RCVTIMEO.set_spec(v, b) is Ok
            &&& SocketOption::SO_RCVTIMEO.get_spec(
                SocketOption::SO_RCVTIMEO.set_spec(v, b)->Ok_0,
                cap,
            ) == Ok::<Option<Seq<u8>>, NetError>(Some(b.subrange(0, 16)))
            &&& (SocketOption::SO_RCVTIMEO.set_spec(v, b)->Ok_0.recv_timeout is None <==> b.subrange(
                0,
                16,
            ) == timeval_bytes(TimeVal { sec: 0, usec: 0 }))
        },
{
    if b.len() >= INT_OPT_LEN {
        lemma_le_u32_bytes(b, 0);
    }
    if b.len() >= TIMEVAL_LEN {
        lemma_le_u64_bytes(b, 0);
        lemma_le_u64_bytes(b, 8);
        assert(b.subrange(0, 16) =~= b.subrange(0, 8) + b.subrange(8, 16));
        let t = decode_timeval(b);
        if b.subrange(0, 16) == timeval_bytes(TimeVal { sec: 0, usec: 0 }) {
            assert(b.subrange(0, 8) =~= b.subrange(0, 16).subrange(0, 8));
            assert(b.subrange(8, 16) =~= b.subrange(0, 16).subrange(8, 16));
            assert(timeval_bytes(TimeVal { sec: 0, usec: 0 }).subrange(0, 8) =~= u64_le(0));
            assert(timeval_bytes(TimeVal { sec: 0, usec: 0 }).subrange(8, 16) =~= u64_le(0));
            assert(u64_le(t.sec) == u64_le(0));
            assert(u64_le(t.usec) == u64_le(0));
            lemma_u64_le_round_trip(t.sec);
            lemma_u64_le_round_trip(t.usec);
            lemma_u64_le_round_trip(0);
        }
    }
}

} // verus!
