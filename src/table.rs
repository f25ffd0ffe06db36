//! The handle table that owns the NETLINK channels.
use vstd::prelude::*;

use crate::raw::RawNetlinkSocket;

verus! {

/// `h` is the slot an insertion into `s` takes: the first empty slot, or
/// one past the end when every slot is taken.
pub open spec fn is_first_free<T>(s: Seq<Option<T>>, h: int) -> bool {
    &&& 0 <= h <= s.len()
    &&& forall|i: int| 0 <= i < h ==> #[trigger] s[i] is Some
    &&& h < s.len() ==> s[h] is None
}

/// The slots after inserting `x` at the first free handle `h`.
pub open spec fn insert_at<T>(s: Seq<Option<T>>, h: int, x: T) -> Seq<Option<T>> {
    if h < s.len() {
        s.update(h, Some(x))
    } else {
        s.push(Some(x))
    }
}

/// At most one slot is the first free one.
pub proof fn lemma_first_free_unique<T>(s: Seq<Option<T>>, a: int, b: int)
    requires
        is_first_free(s, a),
        is_first_free(s, b),
    ensures
        a == b,
{
    if a < b {
        assert(s[a] is Some);
    } else if b < a {
        assert(s[b] is Some);
    }
}

/// In a table whose slots are all taken, removing handle `h` makes `h` the
/// handle of the next insertion, not the table's length.
pub proof fn lemma_handle_reuse<T>(s: Seq<Option<T>>, h: int)
    requires
        0 <= h < s.len(),
        forall|i: int| 0 <= i < s.len() ==> #[trigger] s[i] is Some,
    ensures
        is_first_free(s.update(h, None), h),
        forall|r: int| #[trigger] is_first_free(s.update(h, None), r) ==> r == h,
{
    let t = s.update(h, None);
    assert forall|i: int| 0 <= i < h implies #[trigger] t[i] is Some by {
        assert(t[i] == s[i]);
    }
    assert forall|r: int| #[trigger] is_first_free(t, r) implies r == h by {
        lemma_first_free_unique(t, r, h);
    }
}

/// The NETLINK table a network subsystem starts with: empty.
pub fn init() -> (r: NetlinkSockSetWrapper)
    ensures
        r.wf(),
        r.slots() == Seq::<Option<RawNetlinkSocket>>::empty(),
{
    NetlinkSockSetWrapper::new()
}

/// The table of NETLINK channels, indexed by handle. A removed slot is
/// empty and is the first candidate for the next insertion.
pub struct NetlinkSockSetWrapper {
    slots: Vec<Option<RawNetlinkSocket>>,
}

impl NetlinkSockSetWrapper {
    /// The slots, indexed by handle.
    pub closed spec fn slots(&self) -> Seq<Option<RawNetlinkSocket>> {
        self.slots@
    }

    /// Every live channel is well formed.
    pub open spec fn wf(&self) -> bool {
        forall|i: int|
            0 <= i < self.slots().len() && #[trigger] self.slots()[i] is Some ==> self.slots()[i]->Some_0.wf()
    }

    /// Whether `h` names a live channel.
    pub open spec fn is_live(&self, h: usize) -> bool {
        h < self.slots().len() && self.slots()[h as int] is Some
    }

    /// The live channel at `h`.
    pub open spec fn socket(&self, h: usize) -> RawNetlinkSocket {
        self.slots()[h as int]->Some_0
    }

    /// An empty table.
    pub fn new() -> (r: NetlinkSockSetWrapper)
        ensures
            r.wf(),
            r.slots() == Seq::<Option<RawNetlinkSocket>>::empty(),
    {
        NetlinkSockSetWrapper { slots: Vec::new() }
    }

    /// A fresh, empty channel to insert.
    pub fn new_netlink_socket() -> (r: RawNetlinkSocket)
        ensures
            r.wf(),
            r.pending() == Seq::<Seq<u8>>::empty(),
    {
        RawNetlinkSocket::new()
    }

    /// Stores `socket` in the first empty slot, or after the last one, and
    /// returns its handle.
    pub fn add(&mut self, socket: RawNetlinkSocket) -> (h: usize)
        requires
            old(self).wf(),
            socket.wf(),
            old(self).slots().len() < usize::MAX,
        ensures
            final(self).wf(),
            is_first_free(old(self).slots(), h as int),
            final(self).slots() == insert_at(old(self).slots(), h as int, socket),
    {
        let mut i: usize = 0;
        while i < self.slots.len()
            invariant
                self.slots@ == old(self).slots@,
                self.wf(),
                socket.wf(),
                i <= self.slots@.len(),
                forall|k: int| 0 <= k < i ==> #[trigger] self.slots@[k] is Some,
            decreases self.slots@.len() - i,
        {
            if self.slots[i].is_none() {
                self.slots.set(i, Some(socket));
                return i;
            }
            i = i + 1;
        }
        self.slots.push(Some(socket));
        i
    }

    /// The number of slots, empty ones included.
    pub fn len(&self) -> (r: usize)
        ensures
            r == self.slots().len(),
    {
        self.slots.len()
    }

    /// Scoped shared access to the live channel at `handle`.
    pub fn with_socket(&self, handle: usize) -> (r: &RawNetlinkSocket)
        requires
            self.is_live(handle),
        ensures
            *r == self.socket(handle),
    {
        self.slots[handle].as_ref().unwrap()
    }

    /// Scoped exclusive access to the live channel at `handle`; what the
    /// caller leaves in it is stored back.
    pub fn with_socket_mut(&mut self, handle: usize) -> (r: &mut RawNetlinkSocket)
        requires
            old(self).is_live(handle),
        ensures
            *r == old(self).socket(handle),
            final(self).slots() == old(self).slots().update(handle as int, Some(*final(r))),
    {
        self.slots[handle].as_mut().unwrap()
    }

    /// Empties the slot at `handle`.
    pub fn remove(&mut self, handle: usize)
        requires
            old(self).wf(),
            handle < old(self).slots().len(),
        ensures
            final(self).wf(),
            final(self).slots() == old(self).slots().update(handle as int, None),
    {
        self.slots.set(handle, None);
    }
}

} // verus!
