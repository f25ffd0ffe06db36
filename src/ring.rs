//! The byte ring of smoltcp that holds queued NETLINK replies.
use vstd::prelude::*;

use smoltcp::storage::RingBuffer;

verus! {

#[verifier::external_type_specification]
#[verifier::external_body]
#[verifier::reject_recursive_types(T)]
pub struct ExRingBuffer<'a, T: 'a>(RingBuffer<'a, T>);

/// The bytes a ring holds, oldest first.
pub uninterp spec fn ring_bytes(r: RingBuffer<'static, u8>) -> Seq<u8>;

/// The number of bytes a ring can hold.
pub uninterp spec fn ring_capacity(r: RingBuffer<'static, u8>) -> nat;

/// Relies on `RingBuffer::new`: a ring over `size` bytes of storage starts
/// empty, with capacity `size`.
#[verifier::external_body]
pub(crate) fn ring_new(size: usize) -> (r: RingBuffer<'static, u8>)
    ensures
        ring_bytes(r) == Seq::<u8>::empty(),
        ring_capacity(r) == size,
{
    RingBuffer::new(vec![0u8; size])
}

/// Relies on `RingBuffer::enqueue_slice`: it appends the longest prefix of
/// `data` that the free space holds and returns its length.
#[verifier::external_body]
pub(crate) fn ring_enqueue(r: &mut RingBuffer<'static, u8>, data: &[u8]) -> (n: usize)
    requires
        ring_bytes(*old(r)).len() <= ring_capacity(*old(r)),
    ensures
        n == if data@.len() <= ring_capacity(*old(r)) - ring_bytes(*old(r)).len() {
            data@.len() as int
        } else {
            ring_capacity(*old(r)) - ring_bytes(*old(r)).len()
        },
        ring_bytes(*final(r)) == ring_bytes(*old(r)) + data@.subrange(0, n as int),
        ring_capacity(*final(r)) == ring_capacity(*old(r)),
{
    r.enqueue_slice(data)
}

/// Relies on `RingBuffer::dequeue_slice`: with at least `count` bytes
/// stored, a slice of `count` bytes receives the `count` oldest ones, which
/// leave the ring.
#[verifier::external_body]
pub(crate) fn ring_dequeue(r: &mut RingBuffer<'static, u8>, count: usize) -> (v: Vec<u8>)
    requires
        count <= ring_bytes(*old(r)).len(),
    ensures
        v@ == ring_bytes(*old(r)).subrange(0, count as int),
        ring_bytes(*final(r)) == ring_bytes(*old(r)).subrange(
            count as int,
            ring_bytes(*old(r)).len() as int,
        ),
        ring_capacity(*final(r)) == ring_capacity(*old(r)),
{
    let mut v = vec![0u8; count];
    r.dequeue_slice(&mut v);
    v
}

} // verus!
