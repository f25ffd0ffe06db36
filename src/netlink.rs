//! The NETLINK routing socket: link and address dump requests answered
//! with an empty, correctly framed result set.
use vstd::prelude::*;

use crate::bytes::{
    le_u16, le_u32, lemma_u16_le_round_trip, lemma_u32_le_round_trip, read_le_u16, read_le_u32,
    u16_le, u16_to_le, u32_le, u32_to_le,
};
use crate::error::NetError;
use crate::raw::RawNetlinkSocket;
use crate::table::{insert_at, is_first_free, NetlinkSockSetWrapper};

verus! {

/// Request to dump the links.
pub const RTM_GETLINK: u16 = 18;

/// Request to dump the addresses.
pub const RTM_GETADDR: u16 = 22;

/// Message type that ends a multi-part reply.
pub const NLMSG_DONE: u16 = 3;

/// Flag of a message that is part of a multi-part reply.
pub const NLM_F_MULTI: u16 = 2;

/// Length of a NETLINK message header.
pub const NETLINK_HEADER_LEN: usize = 16;

/// Length of a DONE message: a header and a 4-byte status code.
pub const DONE_MESSAGE_LEN: usize = 20;

/// The header at the front of every NETLINK message.
#[derive(Clone, Copy, Debug, PartialEq, Eq, Structural)]
pub struct NetlinkHeader {
    pub length: u32,
    pub message_type: u16,
    pub flags: u16,
    pub sequence_number: u32,
    pub port_number: u32,
}

/// The 16 bytes of a header: length, type, flags, sequence number and
/// port number, each little-endian.
pub open spec fn header_bytes(h: NetlinkHeader) -> Seq<u8> {
    u32_le(h.length) + u16_le(h.message_type) + u16_le(h.flags) + u32_le(h.sequence_number)
        + u32_le(h.port_number)
}

/// The header at the front of `b`, or `InvalidInput` when `b` is shorter
/// than a header.
pub open spec fn decode_header(b: Seq<u8>) -> Result<NetlinkHeader, NetError> {
    if b.len() < NETLINK_HEADER_LEN {
        Err(NetError::InvalidInput)
    } else {
        Ok(
            NetlinkHeader {
                length: le_u32(b, 0),
                message_type: le_u16(b, 4),
                flags: le_u16(b, 6),
                sequence_number: le_u32(b, 8),
                port_number: le_u32(b, 12),
            },
        )
    }
}

/// The DONE message that ends the reply to the request with header `h`:
/// the request's header with the DONE type and the multi-part flag,
/// followed by status code 0.
pub open spec fn done_message(h: NetlinkHeader) -> Seq<u8> {
    header_bytes(NetlinkHeader { message_type: NLMSG_DONE, flags: NLM_F_MULTI, ..h }) + u32_le(0)
}

/// The reply to a request: a DONE message for a link or address dump,
/// `Unsupported` for any other type.
pub open spec fn reply_to(req: Seq<u8>) -> Result<Seq<u8>, NetError> {
    match decode_header(req) {
        Err(e) => Err(e),
        Ok(h) => if h.message_type == RTM_GETLINK || h.message_type == RTM_GETADDR {
            Ok(done_message(h))
        } else {
            Err(NetError::Unsupported)
        },
    }
}

/// Reads the header at the front of `buf`.
pub fn parse_header(buf: &[u8]) -> (r: Result<NetlinkHeader, NetError>)
    ensures
        r == decode_header(buf@),
{
    if buf.len() < NETLINK_HEADER_LEN {
        return Err(NetError::InvalidInput);
    }
    Ok(
        NetlinkHeader {
            length: read_le_u32(buf, 0),
            message_type: read_le_u16(buf, 4),
            flags: read_le_u16(buf, 6),
            sequence_number: read_le_u32(buf, 8),
            port_number: read_le_u32(buf, 12),
        },
    )
}

/// The bytes of header `h`.
pub fn emit_header(h: &NetlinkHeader) -> (r: Vec<u8>)
    ensures
        r@ == header_bytes(*h),
{
    let mut r = u32_to_le(h.length);
    let mut t = u16_to_le(h.message_type);
    r.append(&mut t);
    let mut f = u16_to_le(h.flags);
    r.append(&mut f);
    let mut s = u32_to_le(h.sequence_number);
    r.append(&mut s);
    let mut p = u32_to_le(h.port_number);
    r.append(&mut p);
    assert(r@ =~= header_bytes(*h));
    r
}

/// The DONE message answering the request with header `h`.
pub fn build_done_message(h: &NetlinkHeader) -> (r: Vec<u8>)
    ensures
        r@ == done_message(*h),
{
    let done = NetlinkHeader { message_type: NLMSG_DONE, flags: NLM_F_MULTI, ..*h };
    let mut r = emit_header(&done);
    let mut code = u32_to_le(0);
    r.append(&mut code);
    r
}

/// A header written out and read back is the same header, whatever bytes
/// follow it.
pub proof fn lemma_header_round_trip(h: NetlinkHeader, rest: Seq<u8>)
    ensures
        header_bytes(h).len() == NETLINK_HEADER_LEN,
        decode_header(header_bytes(h) + rest) == Ok::<NetlinkHeader, NetError>(h),
{
    let b = header_bytes(h) + rest;
    lemma_u32_le_round_trip(h.length);
    lemma_u16_le_round_trip(h.message_type);
    lemma_u16_le_round_trip(h.flags);
    lemma_u32_le_round_trip(h.sequence_number);
    lemma_u32_le_round_trip(h.port_number);
    assert(b.subrange(0, 4) =~= u32_le(h.length));
    assert(b.subrange(4, 6) =~= u16_le(h.message_type));
    assert(b.subrange(6, 8) =~= u16_le(h.flags));
    assert(b.subrange(8, 12) =~= u32_le(h.sequence_number));
    assert(b.subrange(12, 16) =~= u32_le(h.port_number));
    assert(le_u32(b, 0) == le_u32(u32_le(h.length), 0));
    assert(le_u16(b, 4) == le_u16(u16_le(h.message_type), 0));
    assert(le_u16(b, 6) == le_u16(u16_le(h.flags), 0));
    assert(le_u32(b, 8) == le_u32(u32_le(h.sequence_number), 0));
    assert(le_u32(b, 12) == le_u32(u32_le(h.port_number), 0));
}

/// A link or address dump request is answered by one DONE message whose
/// header, read back, has the DONE type and the multi-part flag and keeps
/// the request's length, sequence and port numbers. Queued on an idle
/// channel, it is the one pending datagram, and once it is received
/// nothing is left.
pub proof fn lemma_dump_request_reply(req: Seq<u8>, s0: RawNetlinkSocket, s1: RawNetlinkSocket, s2: RawNetlinkSocket)
    requires
        req.len() >= NETLINK_HEADER_LEN,
        le_u16(req, 4) == RTM_GETLINK || le_u16(req, 4) == RTM_GETADDR,
        s0.pending().len() == 0,
        s1.pending() == s0.pending().push(done_message(decode_header(req)->Ok_0)),
        s2.pending() == s1.pending().drop_first(),
    ensures
        reply_to(req) is Ok,
        reply_to(req)->Ok_0.len() == DONE_MESSAGE_LEN,
        ({
            let h = decode_header(req)->Ok_0;
            let d = decode_header(reply_to(req)->Ok_0)->Ok_0;
            &&& decode_header(reply_to(req)->Ok_0) is Ok
            &&& d.message_type == NLMSG_DONE
            &&& d.flags == NLM_F_MULTI
            &&& d.length == h.length
            &&& d.sequence_number == h.sequence_number
            &&& d.port_number == h.port_number
        }),
        s1.pending() == seq![reply_to(req)->Ok_0],
        s2.pending().len() == 0,
{
    let h = decode_header(req)->Ok_0;
    lemma_header_round_trip(NetlinkHeader { message_type: NLMSG_DONE, flags: NLM_F_MULTI, ..h }, u32_le(0));
    assert(s1.pending() =~= seq![reply_to(req)->Ok_0]);
}

/// A NETLINK socket: a handle into the channel table, plus the sequence
/// counter and the owning process.
pub struct NetlinkSocket {
    handle: usize,
    seq: u32,
    pid: u64,
}

impl NetlinkSocket {
    pub closed spec fn spec_handle(&self) -> usize {
        self.handle
    }

    pub closed spec fn spec_pid(&self) -> u64 {
        self.pid
    }

    /// The handle of this socket's channel.
    #[verifier::when_used_as_spec(spec_handle)]
    pub fn handle(&self) -> (r: usize)
        ensures
            r == self.spec_handle(),
    {
        self.handle
    }

    /// The owning process.
    #[verifier::when_used_as_spec(spec_pid)]
    pub fn pid(&self) -> (r: u64)
        ensures
            r == self.spec_pid(),
    {
        self.pid
    }

    /// Opens a socket for process `pid`: an empty channel in the first free
    /// slot of `set`.
    pub fn new(set: &mut NetlinkSockSetWrapper, pid: u64) -> (r: NetlinkSocket)
        requires
            old(set).wf(),
            old(set).slots().len() < usize::MAX,
        ensures
            final(set).wf(),
            r.pid() == pid,
            is_first_free(old(set).slots(), r.handle() as int),
            final(set).slots() == insert_at(old(set).slots(), r.handle() as int, final(set).socket(r.handle())),
            final(set).is_live(r.handle()),
            final(set).socket(r.handle()).pending() == Seq::<Seq<u8>>::empty(),
    {
        let sock = NetlinkSockSetWrapper::new_netlink_socket();
        let handle = set.add(sock);
        NetlinkSocket { handle, seq: 0, pid }
    }

    /// Binding a NETLINK socket always succeeds and changes nothing.
    pub fn bind(&self) -> (r: Result<(), NetError>)
        ensures
            r == Ok::<(), NetError>(()),
    {
        Ok(())
    }

    /// Handles the request in `buf`: a link or address dump queues its
    /// DONE reply on this socket's channel and returns the reply's length.
    pub fn send(&self, set: &mut NetlinkSockSetWrapper, buf: &[u8]) -> (r: Result<usize, NetError>)
        requires
            old(set).wf(),
            old(set).is_live(self.handle()),
        ensures
            final(set).wf(),
            final(set).is_live(self.handle()),
            final(set).slots() == old(set).slots().update(
                self.handle() as int,
                Some(final(set).socket(self.handle())),
            ),
            match reply_to(buf@) {
                Err(e) => r == Err::<usize, NetError>(e) && final(set).slots() == old(set).slots(),
                Ok(m) => if m.len() <= old(set).socket(self.handle()).free_space() {
                    r == Ok::<usize, NetError>(m.len() as usize) && final(set).socket(
                        self.handle(),
                    ).pending() == old(set).socket(self.handle()).pending().push(m)
                } else {
                    r == Err::<usize, NetError>(NetError::NoMemory) && final(set).socket(
                        self.handle(),
                    ).pending() == old(set).socket(self.handle()).pending()
                },
            },
    {
        let header = parse_header(buf)?;
        if header.message_type == RTM_GETLINK || header.message_type == RTM_GETADDR {
            self.send_done(set, &header)
        } else {
            Err(NetError::Unsupported)
        }
    }

    /// Queues the DONE reply to the request with header `header`.
    fn send_done(&self, set: &mut NetlinkSockSetWrapper, header: &NetlinkHeader) -> (r: Result<
        usize,
        NetError,
    >)
        requires
            old(set).wf(),
            old(set).is_live(self.handle()),
        ensures
            final(set).wf(),
            final(set).is_live(self.handle()),
            final(set).slots() == old(set).slots().update(
                self.handle() as int,
                Some(final(set).socket(self.handle())),
            ),
            done_message(*header).len() <= old(set).socket(self.handle()).free_space() ==> r
                == Ok::<usize, NetError>(done_message(*header).len() as usize) && final(set).socket(
                self.handle(),
            ).pending() == old(set).socket(self.handle()).pending().push(done_message(*header)),
            done_message(*header).len() > old(set).socket(self.handle()).free_space() ==> r
                == Err::<usize, NetError>(NetError::NoMemory) && final(set).socket(
                self.handle(),
            ).pending() == old(set).socket(self.handle()).pending(),
    {
        let done = build_done_message(header);
        let ghost before = set.slots();
        let socket = set.with_socket_mut(self.handle);
        let r = socket.send(done.as_slice());
        proof {
            assert forall|i: int|
                0 <= i < set.slots().len() && #[trigger] set.slots()[i] is Some implies set.slots()[i]->Some_0.wf() by {
                if i != self.handle as int {
                    assert(set.slots()[i] == before[i]);
                }
            }
        }
        r
    }

    /// Takes the oldest reply on this socket's channel into `buf`; returns 0
    /// when none is pending. It never waits.
    pub fn recv(&self, set: &mut NetlinkSockSetWrapper, buf: &mut [u8]) -> (r: Result<usize, NetError>)
        requires
            old(set).wf(),
            old(set).is_live(self.handle()),
        ensures
            final(set).wf(),
            final(set).is_live(self.handle()),
            final(buf)@.len() == old(buf)@.len(),
            final(set).slots() == old(set).slots().update(
                self.handle() as int,
                Some(final(set).socket(self.handle())),
            ),
            old(set).socket(self.handle()).pending().len() == 0 ==> r == Ok::<usize, NetError>(0)
                && final(set).slots() == old(set).slots() && final(buf)@ == old(buf)@,
            old(set).socket(self.handle()).pending().len() > 0 ==> ({
                let m = old(set).socket(self.handle()).pending()[0];
                let n = if m.len() < old(buf)@.len() {
                    m.len() as int
                } else {
                    old(buf)@.len() as int
                };
                &&& r is Ok && r->Ok_0 as int == n
                &&& final(set).socket(self.handle()).pending() == old(set).socket(
                    self.handle(),
                ).pending().drop_first()
                &&& forall|i: int| 0 <= i < n ==> final(buf)@[i] == m[i]
                &&& forall|i: int| n <= i < old(buf)@.len() ==> final(buf)@[i] == old(buf)@[i]
            }),
    {
        let ghost before = set.slots();
        let socket = set.with_socket_mut(self.handle);
        let r = socket.recv(buf);
        proof {
            assert forall|i: int|
                0 <= i < set.slots().len() && #[trigger] set.slots()[i] is Some implies set.slots()[i]->Some_0.wf() by {
                if i != self.handle as int {
                    assert(set.slots()[i] == before[i]);
                }
            }
            if before[self.handle as int]->Some_0.pending().len() == 0 {
                assert(set.slots() =~= before);
            }
        }
        r
    }

    /// Closes the socket: its slot in `set` becomes free.
    pub fn close(self, set: &mut NetlinkSockSetWrapper)
        requires
            old(set).wf(),
            self.handle() < old(set).slots().len(),
        ensures
            final(set).wf(),
            final(set).slots() == old(set).slots().update(self.handle() as int, None),
    {
        set.remove(self.handle);
    }
}

} // verus!
