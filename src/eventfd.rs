//! The eventfd counter.
use vstd::prelude::*;

use std::sync::Arc;

use crate::bytes::{le_u64, read_le_u64, u64_le, u64_to_le, copy_prefix};
use crate::error::NetError;

verus! {

/// Flag: the eventfd does not block.
pub const EFD_NONBLOCK: i32 = 0x800;

/// Flag: close the descriptor on exec.
pub const EFD_CLOEXEC: i32 = 0x80000;

/// Flag: semaphore semantics.
pub const EFD_SEMAPHORE: i32 = 1;

/// Width of the counter in reads and writes.
pub const EVENTFD_VALUE_LEN: usize = 8;

/// The flags of an eventfd.
#[derive(Clone, Copy, Debug, PartialEq, Eq, Structural)]
pub struct EventFdFlag {
    pub bits: i32,
}

impl EventFdFlag {
    pub fn from_bits(bits: i32) -> (r: EventFdFlag)
        ensures
            r.bits == bits,
    {
        EventFdFlag { bits }
    }

    /// Whether every bit of `flag` is set.
    pub fn contains(&self, flag: i32) -> (r: bool)
        ensures
            r == (self.bits & flag == flag),
    {
        self.bits & flag == flag
    }
}

/// The counter a write adds `cnt` to, wrapping around.
pub open spec fn counter_after_write(count: u64, cnt: u64) -> u64 {
    if count + cnt > u64::MAX {
        (count + cnt - u64::MAX - 1) as u64
    } else {
        (count + cnt) as u64
    }
}

/// An eventfd: a 64-bit counter and its flags.
pub struct EventFdCtx {
    count: u64,
    flag: EventFdFlag,
}

impl EventFdCtx {
    /// The counter.
    pub closed spec fn value(&self) -> u64 {
        self.count
    }

    pub closed spec fn spec_flag(&self) -> EventFdFlag {
        self.flag
    }

    /// An eventfd whose counter starts at `init_value`.
    pub fn new(init_value: u64, flag: EventFdFlag) -> (r: EventFdCtx)
        ensures
            r.value() == init_value,
            r.spec_flag() == flag,
    {
        EventFdCtx { count: init_value, flag }
    }

    #[verifier::when_used_as_spec(spec_flag)]
    pub fn flag(&self) -> (r: EventFdFlag)
        ensures
            r == self.spec_flag(),
    {
        self.flag
    }

    /// Takes the counter: writes it as eight little-endian bytes to the
    /// front of `buf` and resets it. A zero counter would block; a buffer
    /// shorter than eight bytes is refused.
    pub fn read(&mut self, buf: &mut [u8]) -> (r: Result<usize, NetError>)
        ensures
            final(self).spec_flag() == old(self).spec_flag(),
            final(buf)@.len() == old(buf)@.len(),
            old(self).value() == 0 ==> r == Err::<usize, NetError>(NetError::WouldBlock)
                && final(self).value() == 0 && final(buf)@ == old(buf)@,
            old(self).value() != 0 && old(buf)@.len() < EVENTFD_VALUE_LEN ==> r == Err::<
                usize,
                NetError,
            >(NetError::InvalidInput) && final(self).value() == old(self).value() && final(buf)@
                == old(buf)@,
            old(self).value() != 0 && old(buf)@.len() >= EVENTFD_VALUE_LEN ==> r == Ok::<
                usize,
                NetError,
            >(EVENTFD_VALUE_LEN) && final(self).value() == 0 && final(buf)@.subrange(0, 8)
                == u64_le(old(self).value()) && final(buf)@.subrange(8, old(buf)@.len() as int)
                == old(buf)@.subrange(8, old(buf)@.len() as int),
    {
        if self.count == 0 {
            return Err(NetError::WouldBlock);
        }
        if buf.len() < EVENTFD_VALUE_LEN {
            return Err(NetError::InvalidInput);
        }
        let bytes = u64_to_le(self.count);
        copy_prefix(buf, bytes.as_slice(), EVENTFD_VALUE_LEN);
        assert(buf@.subrange(0, 8) =~= u64_le(self.count));
        assert(buf@.subrange(8, buf@.len() as int) =~= old(buf)@.subrange(8, old(buf)@.len() as int));
        self.count = 0;
        Ok(EVENTFD_VALUE_LEN)
    }

    /// Adds the eight little-endian bytes of `buf` to the counter, wrapping
    /// around; a value of another length is refused.
    pub fn write(&mut self, buf: &[u8]) -> (r: Result<usize, NetError>)
        ensures
            final(self).spec_flag() == old(self).spec_flag(),
            buf@.len() != EVENTFD_VALUE_LEN ==> r == Err::<usize, NetError>(NetError::InvalidInput)
                && final(self).value() == old(self).value(),
            buf@.len() == EVENTFD_VALUE_LEN ==> r == Ok::<usize, NetError>(EVENTFD_VALUE_LEN)
                && final(self).value() == counter_after_write(old(self).value(), le_u64(buf@, 0)),
    {
        if buf.len() != EVENTFD_VALUE_LEN {
            return Err(NetError::InvalidInput);
        }
        let cnt = read_le_u64(buf, 0);
        self.count = self.count.wrapping_add(cnt);
        Ok(EVENTFD_VALUE_LEN)
    }

    /// Whether a read would not block.
    pub fn readable(&self) -> (r: bool)
        ensures
            r == (self.value() != 0),
    {
        self.count != 0
    }

    /// Writes never block.
    pub fn writable(&self) -> (r: bool)
        ensures
            r,
    {
        true
    }
}

/// A shared eventfd whose counter starts at `init_value`.
pub fn make_eventctx(init_value: u64, flag: EventFdFlag) -> (r: Arc<EventFdCtx>)
    ensures
        r.value() == init_value,
        r.spec_flag() == flag,
{
    Arc::new(EventFdCtx::new(init_value, flag))
}

} // verus!
