//! A bounded channel of framed datagrams over a byte ring.
use vstd::prelude::*;

use smoltcp::storage::RingBuffer;

use crate::bytes::copy_prefix;
use crate::error::NetError;
use crate::ring::{ring_bytes, ring_capacity, ring_dequeue, ring_enqueue, ring_new};

verus! {

/// Bytes a NETLINK channel can hold.
pub const NETLINK_BUFFER_SIZE: usize = 65536;

/// Sum of the lengths in `q`.
pub open spec fn sum_lens(q: Seq<usize>) -> int
    decreases q.len(),
{
    if q.len() == 0 {
        0
    } else {
        q[0] + sum_lens(q.drop_first())
    }
}

/// `bytes` cut into consecutive frames of the lengths in `q`.
pub open spec fn frames(bytes: Seq<u8>, q: Seq<usize>) -> Seq<Seq<u8>>
    decreases q.len(),
{
    if q.len() == 0 {
        Seq::empty()
    } else {
        seq![bytes.subrange(0, q[0] as int)] + frames(
            bytes.subrange(q[0] as int, bytes.len() as int),
            q.drop_first(),
        )
    }
}

/// Total length of a sequence of datagrams.
pub open spec fn total_len(m: Seq<Seq<u8>>) -> int
    decreases m.len(),
{
    if m.len() == 0 {
        0
    } else {
        m[0].len() + total_len(m.drop_first())
    }
}

proof fn lemma_sum_lens_nonneg(q: Seq<usize>)
    ensures
        sum_lens(q) >= 0,
    decreases q.len(),
{
    if q.len() > 0 {
        lemma_sum_lens_nonneg(q.drop_first());
    }
}

proof fn lemma_sum_lens_push(q: Seq<usize>, x: usize)
    ensures
        sum_lens(q.push(x)) == sum_lens(q) + x,
    decreases q.len(),
{
    if q.len() > 0 {
        assert(q.push(x).drop_first() =~= q.drop_first().push(x));
        assert(q.push(x)[0] == q[0]);
        lemma_sum_lens_push(q.drop_first(), x);
    } else {
        assert(q.push(x).drop_first() =~= Seq::<usize>::empty());
        assert(sum_lens(Seq::<usize>::empty()) == 0);
        assert(sum_lens(q.push(x)) == q.push(x)[0] + sum_lens(q.push(x).drop_first()));
    }
}

proof fn lemma_frames_push(bytes: Seq<u8>, q: Seq<usize>, d: Seq<u8>)
    requires
        sum_lens(q) == bytes.len(),
        d.len() <= usize::MAX,
    ensures
        frames(bytes + d, q.push(d.len() as usize)) == frames(bytes, q).push(d),
    decreases q.len(),
{
    let q2 = q.push(d.len() as usize);
    if q.len() == 0 {
        assert(bytes.len() == 0);
        assert(bytes + d =~= d);
        assert(q2.drop_first() =~= Seq::<usize>::empty());
        assert(d.subrange(d.len() as int, d.len() as int) =~= Seq::<u8>::empty());
        assert(d.subrange(0, d.len() as int) =~= d);
        assert(frames(d.subrange(d.len() as int, d.len() as int), Seq::<usize>::empty())
            == Seq::<Seq<u8>>::empty());
        assert(frames(bytes, q) == Seq::<Seq<u8>>::empty());
        assert(frames(bytes + d, q2) == seq![d] + Seq::<Seq<u8>>::empty());
        assert(frames(bytes + d, q2) =~= frames(bytes, q).push(d));
    } else {
        let k = q[0] as int;
        lemma_sum_lens_nonneg(q.drop_first());
        assert(q2.drop_first() =~= q.drop_first().push(d.len() as usize));
        let rest = bytes.subrange(k, bytes.len() as int);
        assert((bytes + d).subrange(k, (bytes + d).len() as int) =~= rest + d);
        assert((bytes + d).subrange(0, k) =~= bytes.subrange(0, k));
        lemma_frames_push(rest, q.drop_first(), d);
        assert(frames(bytes + d, q2) =~= frames(bytes, q).push(d));
    }
}

proof fn lemma_frames_total(bytes: Seq<u8>, q: Seq<usize>)
    requires
        sum_lens(q) == bytes.len(),
    ensures
        total_len(frames(bytes, q)) == bytes.len(),
        frames(bytes, q).len() == q.len(),
    decreases q.len(),
{
    if q.len() > 0 {
        lemma_sum_lens_nonneg(q.drop_first());
        let f = frames(bytes, q);
        let rest = bytes.subrange(q[0] as int, bytes.len() as int);
        lemma_frames_total(rest, q.drop_first());
        assert(f.drop_first() =~= frames(rest, q.drop_first()));
    }
}

/// A NETLINK channel: a byte ring plus the lengths of the datagrams queued
/// in it, oldest first, so that each receive returns one whole datagram.
pub struct RawNetlinkSocket {
    buffer: RingBuffer<'static, u8>,
    queue: Vec<usize>,
    stored: usize,
}

impl RawNetlinkSocket {
    /// The queued lengths cut the ring's bytes exactly.
    pub closed spec fn wf(&self) -> bool {
        &&& sum_lens(self.queue@) == ring_bytes(self.buffer).len()
        &&& self.stored == ring_bytes(self.buffer).len()
        &&& self.stored <= NETLINK_BUFFER_SIZE
        &&& ring_capacity(self.buffer) == NETLINK_BUFFER_SIZE
    }

    /// The datagrams waiting to be received, oldest first.
    pub closed spec fn pending(&self) -> Seq<Seq<u8>> {
        frames(ring_bytes(self.buffer), self.queue@)
    }

    /// Bytes still free for new datagrams.
    pub open spec fn free_space(&self) -> int {
        NETLINK_BUFFER_SIZE - total_len(self.pending())
    }

    /// An empty channel.
    pub fn new() -> (r: RawNetlinkSocket)
        ensures
            r.wf(),
            r.pending() == Seq::<Seq<u8>>::empty(),
    {
        RawNetlinkSocket { buffer: ring_new(NETLINK_BUFFER_SIZE), queue: Vec::new(), stored: 0 }
    }

    /// Queues `data` as one datagram, or reports `NoMemory` when the free
    /// space cannot hold all of it.
    pub fn send(&mut self, data: &[u8]) -> (r: Result<usize, NetError>)
        requires
            old(self).wf(),
        ensures
            final(self).wf(),
            data@.len() <= old(self).free_space() ==> r == Ok::<usize, NetError>(data@.len() as usize)
                && final(self).pending() == old(self).pending().push(data@),
            data@.len() > old(self).free_space() ==> r == Err::<usize, NetError>(NetError::NoMemory)
                && final(self).pending() == old(self).pending(),
    {
        proof {
            lemma_frames_total(ring_bytes(self.buffer), self.queue@);
        }
        if data.len() > NETLINK_BUFFER_SIZE - self.stored {
            return Err(NetError::NoMemory);
        }
        let ghost old_bytes = ring_bytes(self.buffer);
        let ghost old_queue = self.queue@;
        let n = ring_enqueue(&mut self.buffer, data);
        assert(data@.subrange(0, n as int) =~= data@);
        self.queue.push(n);
        self.stored = self.stored + n;
        proof {
            lemma_sum_lens_push(old_queue, n);
            lemma_frames_push(old_bytes, old_queue, data@);
        }
        Ok(n)
    }

    /// Takes the oldest datagram, copies as much of it as `data` holds and
    /// returns that length; returns 0 when nothing is pending.
    pub fn recv(&mut self, data: &mut [u8]) -> (r: Result<usize, NetError>)
        requires
            old(self).wf(),
        ensures
            final(self).wf(),
            final(data)@.len() == old(data)@.len(),
            old(self).pending().len() == 0 ==> r == Ok::<usize, NetError>(0) && *final(self)
                == *old(self) && final(data)@ == old(data)@,
            old(self).pending().len() > 0 ==> ({
                let m = old(self).pending()[0];
                let n = if m.len() < old(data)@.len() {
                    m.len() as int
                } else {
                    old(data)@.len() as int
                };
                &&& r is Ok && r->Ok_0 as int == n
                &&& final(self).pending() == old(self).pending().drop_first()
                &&& forall|i: int| 0 <= i < n ==> final(data)@[i] == m[i]
                &&& forall|i: int| n <= i < old(data)@.len() ==> final(data)@[i] == old(data)@[i]
            }),
    {
        proof {
            lemma_frames_total(ring_bytes(self.buffer), self.queue@);
        }
        if self.queue.len() == 0 {
            return Ok(0);
        }
        let ghost old_bytes = ring_bytes(self.buffer);
        let ghost old_queue = self.queue@;
        let len = self.queue.remove(0);
        proof {
            lemma_sum_lens_nonneg(old_queue.drop_first());
            assert(old_queue.drop_first() =~= self.queue@);
        }
        let msg = ring_dequeue(&mut self.buffer, len);
        self.stored = self.stored - len;
        let cap = data.len();
        let n = copy_prefix(data, msg.as_slice(), cap);
        Ok(n)
    }
}

} // verus!
