//! Model of the host memory manager gateway.
//!
//! In the host process every variable-length payload (UTF-16 string or blob)
//! lives in a buffer that the host's own allocator hands out, and the host
//! frees those buffers with the same allocator.  This module models that
//! gateway: each allocation gets a fresh nonzero address, the gateway tracks
//! which addresses are live and what their buffers hold, and it records every
//! allocate / write / free call in an event log.  The log is what lets the
//! marshaling engine state, in its contracts, that an old buffer is freed
//! exactly once and only after the new buffer has been fully written.
//!
//! An allocation limit can be set so that tests can drive the engine through
//! allocation failure and check that no partial mutation is observable.

use vstd::pervasive::VecAdditionalExecFns;
use vstd::prelude::*;

use crate::errors::MemoryError;

verus! {

/// Error returned when the gateway cannot allocate a buffer.
#[derive(Debug, Clone, Copy, PartialEq, Eq, Structural)]
pub struct AllocationError {
    /// The size, in elements, of the buffer that could not be allocated.
    pub size: usize,
}

impl From<AllocationError> for MemoryError {
    fn from(e: AllocationError) -> (r: MemoryError) {
        MemoryError::AllocationFailed { size: e.size }
    }
}

impl vstd::std_specs::convert::FromSpecImpl<AllocationError> for MemoryError {
    open spec fn obeys_from_spec() -> bool {
        true
    }

    open spec fn from_spec(e: AllocationError) -> MemoryError {
        MemoryError::AllocationFailed { size: e.size }
    }
}

/// One entry of the gateway's event log.
#[derive(Debug, Clone, Copy, PartialEq, Eq, Structural)]
pub enum MemEvent {
    /// A buffer was allocated at this address.
    Alloc { addr: usize },
    /// The buffer at this address was written in full.
    Write { addr: usize },
    /// The buffer at this address was freed.
    Free { addr: usize },
}

/// Contents of one host buffer: UTF-16 code units or raw bytes.
#[derive(Debug, Clone, PartialEq)]
enum BufferData {
    Str(Vec<u16>),
    Blob(Vec<u8>),
}

/// Number of `false` entries in a sequence of liveness flags.
spec fn dead_count(s: Seq<bool>) -> int
    decreases s.len(),
{
    if s.len() == 0 {
        0
    } else {
        dead_count(s.drop_last()) + (if s.last() {
            0int
        } else {
            1int
        })
    }
}

/// A sequence with a `true` entry has fewer dead entries than its length.
proof fn lemma_dead_count_lt(s: Seq<bool>, i: int)
    requires
        0 <= i < s.len(),
        s[i],
    ensures
        dead_count(s) < s.len(),
    decreases s.len(),
{
    if i == s.len() - 1 {
        lemma_dead_count_le(s.drop_last());
    } else {
        lemma_dead_count_lt(s.drop_last(), i);
    }
}

/// Dead entries never outnumber the entries.
proof fn lemma_dead_count_le(s: Seq<bool>)
    ensures
        dead_count(s) <= s.len(),
    decreases s.len(),
{
    if s.len() > 0 {
        lemma_dead_count_le(s.drop_last());
    }
}

/// Clearing a live flag raises the dead count by exactly one.
proof fn lemma_dead_count_update(s: Seq<bool>, i: int)
    requires
        0 <= i < s.len(),
        s[i],
    ensures
        dead_count(s.update(i, false)) == dead_count(s) + 1,
    decreases s.len(),
{
    let t = s.update(i, false);
    if i == s.len() - 1 {
        assert(t.drop_last() =~= s.drop_last());
    } else {
        assert(t.drop_last() =~= s.drop_last().update(i, false));
        lemma_dead_count_update(s.drop_last(), i);
    }
}

/// Model of the host's memory manager.
///
/// Addresses are handed out densely starting at 1; address 0 plays the role
/// of the null pointer and is never allocated.
pub struct MemoryManager {
    live_flags: Vec<bool>,
    datas: Vec<BufferData>,
    events: Vec<MemEvent>,
    limit: usize,
    allocated: u64,
    freed: u64,
}

impl MemoryManager {
    /// Number of allocations made so far; addresses 1..=count() have been handed out.
    pub closed spec fn count(&self) -> int {
        self.datas@.len() as int
    }

    /// Whether this address has ever been handed out.
    pub open spec fn addr_valid(&self, addr: usize) -> bool {
        1 <= addr && addr <= self.count()
    }

    /// Whether the buffer at this address is currently owned by some holder.
    pub closed spec fn live(&self, addr: usize) -> bool {
        self.addr_valid(addr) && self.live_flags@[addr - 1]
    }

    /// Whether the buffer at this address holds UTF-16 code units.
    pub closed spec fn is_str(&self, addr: usize) -> bool {
        self.addr_valid(addr) && self.datas@[addr - 1] is Str
    }

    /// Whether the buffer at this address holds raw bytes.
    pub closed spec fn is_blob(&self, addr: usize) -> bool {
        self.addr_valid(addr) && self.datas@[addr - 1] is Blob
    }

    /// The UTF-16 code units stored at this address (empty for byte buffers).
    pub closed spec fn words(&self, addr: usize) -> Seq<u16> {
        match self.datas@[addr - 1] {
            BufferData::Str(w) => w@,
            BufferData::Blob(_) => Seq::empty(),
        }
    }

    /// The bytes stored at this address (empty for UTF-16 buffers).
    pub closed spec fn bytes(&self, addr: usize) -> Seq<u8> {
        match self.datas@[addr - 1] {
            BufferData::Str(_) => Seq::empty(),
            BufferData::Blob(b) => b@,
        }
    }

    /// The gateway's event log, oldest first.
    pub closed spec fn log(&self) -> Seq<MemEvent> {
        self.events@
    }

    /// Maximum number of allocations this gateway will serve.
    pub closed spec fn limit_spec(&self) -> int {
        self.limit as int
    }

    /// Number of allocations served.
    pub closed spec fn alloc_count(&self) -> int {
        self.allocated as int
    }

    /// Number of frees served.
    pub closed spec fn free_count(&self) -> int {
        self.freed as int
    }

    /// Internal consistency of the model.
    pub closed spec fn wf(&self) -> bool {
        &&& self.live_flags@.len() == self.datas@.len()
        &&& self.allocated == self.datas@.len()
        &&& self.freed == dead_count(self.live_flags@)
        &&& self.freed <= self.allocated
    }

    /// Whether one more allocation can be served.
    pub open spec fn can_alloc(&self) -> bool {
        self.count() < self.limit_spec() && self.count() < usize::MAX
    }

    /// The address the next successful allocation will get.
    pub open spec fn next_addr(&self) -> int {
        self.count() + 1
    }

    /// A live UTF-16 buffer holding exactly these code units.
    pub open spec fn live_str(&self, addr: usize, w: Seq<u16>) -> bool {
        self.live(addr) && self.is_str(addr) && self.words(addr) == w
    }

    /// A live byte buffer holding exactly these bytes.
    pub open spec fn live_blob(&self, addr: usize, b: Seq<u8>) -> bool {
        self.live(addr) && self.is_blob(addr) && self.bytes(addr) == b
    }

    /// The buffer at this address is the same in both states.
    pub open spec fn same_buffer(&self, other: Self, addr: usize) -> bool {
        &&& self.addr_valid(addr) == other.addr_valid(addr)
        &&& self.live(addr) == other.live(addr)
        &&& self.is_str(addr) == other.is_str(addr)
        &&& self.is_blob(addr) == other.is_blob(addr)
        &&& self.words(addr) == other.words(addr)
        &&& self.bytes(addr) == other.bytes(addr)
    }

    /// Liveness and kind information exist only for handed-out addresses.
    pub broadcast proof fn lemma_buffer_facts(&self, addr: usize)
        ensures
            #[trigger] self.live(addr) ==> self.addr_valid(addr),
            #[trigger] self.is_str(addr) ==> self.addr_valid(addr),
            #[trigger] self.is_blob(addr) ==> self.addr_valid(addr),
            self.is_str(addr) ==> !self.is_blob(addr),
    {
    }

    /// A gateway with no allocations and no effective limit.
    pub fn new() -> (r: Self)
        ensures
            r.wf(),
            r.count() == 0,
            r.log() == Seq::<MemEvent>::empty(),
            r.limit_spec() == usize::MAX as int,
            r.alloc_count() == 0,
            r.free_count() == 0,
    {
        MemoryManager {
            live_flags: Vec::new(),
            datas: Vec::new(),
            events: Vec::new(),
            limit: usize::MAX,
            allocated: 0,
            freed: 0,
        }
    }

    /// A gateway that will serve at most `limit` allocations, so that tests
    /// can drive callers through allocation failure.
    pub fn with_allocation_limit(limit: usize) -> (r: Self)
        ensures
            r.wf(),
            r.count() == 0,
            r.log() == Seq::<MemEvent>::empty(),
            r.limit_spec() == limit as int,
            r.alloc_count() == 0,
            r.free_count() == 0,
    {
        MemoryManager {
            live_flags: Vec::new(),
            datas: Vec::new(),
            events: Vec::new(),
            limit,
            allocated: 0,
            freed: 0,
        }
    }

    /// Allocates a zero-filled buffer of `len` UTF-16 code units.
    pub fn alloc_str(&mut self, len: usize) -> (r: Result<usize, AllocationError>)
        requires
            old(self).wf(),
        ensures
            final(self).wf(),
            final(self).limit_spec() == old(self).limit_spec(),
            !old(self).can_alloc() ==> r == Err::<usize, AllocationError>(
                AllocationError { size: len },
            ) && *final(self) == *old(self),
            old(self).can_alloc() ==> ({
                let a = old(self).next_addr() as usize;
                &&& r == Ok::<usize, AllocationError>(a)
                &&& final(self).count() == old(self).count() + 1
                &&& final(self).live_str(a, Seq::<u16>::new(len as nat, |i: int| 0u16))
                &&& final(self).log() == old(self).log().push(MemEvent::Alloc { addr: a })
                &&& final(self).alloc_count() == old(self).alloc_count() + 1
                &&& final(self).free_count() == old(self).free_count()
                &&& forall|x: usize|
                    old(self).addr_valid(x) ==> #[trigger] final(self).same_buffer(*old(self), x)
            }),
    {
        if self.datas.len() < self.limit && self.datas.len() < usize::MAX {
            let addr: usize = self.datas.len() + 1;
            let mut w: Vec<u16> = Vec::new();
            let mut i: usize = 0;
            while i < len
                invariant
                    i <= len,
                    w@ =~= Seq::<u16>::new(i as nat, |k: int| 0u16),
                decreases len - i,
            {
                w.push(0u16);
                i = i + 1;
            }
            assert(w@ =~= Seq::<u16>::new(len as nat, |k: int| 0u16));
            self.live_flags.push(true);
            self.datas.push(BufferData::Str(w));
            self.events.push(MemEvent::Alloc { addr });
            self.allocated = self.allocated + 1;
            proof {
                assert(self.live_flags@.drop_last() =~= old(self).live_flags@);
            }
            Ok(addr)
        } else {
            Err(AllocationError { size: len })
        }
    }

    /// Allocates a zero-filled buffer of `len` bytes.
    pub fn alloc_blob(&mut self, len: usize) -> (r: Result<usize, AllocationError>)
        requires
            old(self).wf(),
        ensures
            final(self).wf(),
            final(self).limit_spec() == old(self).limit_spec(),
            !old(self).can_alloc() ==> r == Err::<usize, AllocationError>(
                AllocationError { size: len },
            ) && *final(self) == *old(self),
            old(self).can_alloc() ==> ({
                let a = old(self).next_addr() as usize;
                &&& r == Ok::<usize, AllocationError>(a)
                &&& final(self).count() == old(self).count() + 1
                &&& final(self).live_blob(a, Seq::<u8>::new(len as nat, |i: int| 0u8))
                &&& final(self).log() == old(self).log().push(MemEvent::Alloc { addr: a })
                &&& final(self).alloc_count() == old(self).alloc_count() + 1
                &&& final(self).free_count() == old(self).free_count()
                &&& forall|x: usize|
                    old(self).addr_valid(x) ==> #[trigger] final(self).same_buffer(*old(self), x)
            }),
    {
        if self.datas.len() < self.limit && self.datas.len() < usize::MAX {
            let addr: usize = self.datas.len() + 1;
            let mut b: Vec<u8> = Vec::new();
            let mut i: usize = 0;
            while i < len
                invariant
                    i <= len,
                    b@ =~= Seq::<u8>::new(i as nat, |k: int| 0u8),
                decreases len - i,
            {
                b.push(0u8);
                i = i + 1;
            }
            assert(b@ =~= Seq::<u8>::new(len as nat, |k: int| 0u8));
            self.live_flags.push(true);
            self.datas.push(BufferData::Blob(b));
            self.events.push(MemEvent::Alloc { addr });
            self.allocated = self.allocated + 1;
            proof {
                assert(self.live_flags@.drop_last() =~= old(self).live_flags@);
            }
            Ok(addr)
        } else {
            Err(AllocationError { size: len })
        }
    }

    /// Writes `data` over the whole UTF-16 buffer at `addr`.
    pub fn write_str(&mut self, addr: usize, data: &[u16])
        requires
            old(self).wf(),
            old(self).live(addr),
            old(self).is_str(addr),
            old(self).words(addr).len() == data@.len(),
        ensures
            final(self).wf(),
            final(self).limit_spec() == old(self).limit_spec(),
            final(self).count() == old(self).count(),
            final(self).alloc_count() == old(self).alloc_count(),
            final(self).free_count() == old(self).free_count(),
            final(self).live_str(addr, data@),
            final(self).log() == old(self).log().push(MemEvent::Write { addr }),
            forall|x: usize|
                old(self).addr_valid(x) && x != addr ==> #[trigger] final(self).same_buffer(
                    *old(self),
                    x,
                ),
    {
        let mut w: Vec<u16> = Vec::new();
        let mut i: usize = 0;
        while i < data.len()
            invariant
                i <= data@.len(),
                w@ =~= data@.subrange(0, i as int),
            decreases data@.len() - i,
        {
            w.push(data[i]);
            i = i + 1;
        }
        assert(w@ =~= data@);
        self.datas.set(addr - 1, BufferData::Str(w));
        self.events.push(MemEvent::Write { addr });
    }

    /// Writes `data` over the whole byte buffer at `addr`.
    pub fn write_blob(&mut self, addr: usize, data: &[u8])
        requires
            old(self).wf(),
            old(self).live(addr),
            old(self).is_blob(addr),
            old(self).bytes(addr).len() == data@.len(),
        ensures
            final(self).wf(),
            final(self).limit_spec() == old(self).limit_spec(),
            final(self).count() == old(self).count(),
            final(self).alloc_count() == old(self).alloc_count(),
            final(self).free_count() == old(self).free_count(),
            final(self).live_blob(addr, data@),
            final(self).log() == old(self).log().push(MemEvent::Write { addr }),
            forall|x: usize|
                old(self).addr_valid(x) && x != addr ==> #[trigger] final(self).same_buffer(
                    *old(self),
                    x,
                ),
    {
        let mut b: Vec<u8> = Vec::new();
        let mut i: usize = 0;
        while i < data.len()
            invariant
                i <= data@.len(),
                b@ =~= data@.subrange(0, i as int),
            decreases data@.len() - i,
        {
            b.push(data[i]);
            i = i + 1;
        }
        assert(b@ =~= data@);
        self.datas.set(addr - 1, BufferData::Blob(b));
        self.events.push(MemEvent::Write { addr });
    }

    /// The code units stored in the live UTF-16 buffer at `addr`.
    pub fn str_contents(&self, addr: usize) -> (r: Vec<u16>)
        requires
            self.live(addr),
            self.is_str(addr),
        ensures
            r@ == self.words(addr),
    {
        match &self.datas[addr - 1] {
            BufferData::Str(w) => {
                let mut r: Vec<u16> = Vec::new();
                let mut i: usize = 0;
                while i < w.len()
                    invariant
                        i <= w@.len(),
                        r@ =~= w@.subrange(0, i as int),
                    decreases w@.len() - i,
                {
                    r.push(w[i]);
                    i = i + 1;
                }
                assert(r@ =~= w@);
                r
            },
            BufferData::Blob(_) => Vec::new(),
        }
    }

    /// The bytes stored in the live byte buffer at `addr`.
    pub fn blob_contents(&self, addr: usize) -> (r: Vec<u8>)
        requires
            self.live(addr),
            self.is_blob(addr),
        ensures
            r@ == self.bytes(addr),
    {
        match &self.datas[addr - 1] {
            BufferData::Blob(b) => {
                let mut r: Vec<u8> = Vec::new();
                let mut i: usize = 0;
                while i < b.len()
                    invariant
                        i <= b@.len(),
                        r@ =~= b@.subrange(0, i as int),
                    decreases b@.len() - i,
                {
                    r.push(b[i]);
                    i = i + 1;
                }
                assert(r@ =~= b@);
                r
            },
            BufferData::Str(_) => Vec::new(),
        }
    }

    /// Returns ownership of the buffer at `addr` to the host.
    ///
    /// A holder must free a buffer exactly once; the model therefore demands
    /// a live buffer, and a freed address never becomes live again.
    pub fn free_memory(&mut self, addr: usize)
        requires
            old(self).wf(),
            old(self).live(addr),
        ensures
            final(self).wf(),
            final(self).limit_spec() == old(self).limit_spec(),
            final(self).count() == old(self).count(),
            final(self).alloc_count() == old(self).alloc_count(),
            final(self).free_count() == old(self).free_count() + 1,
            !final(self).live(addr),
            final(self).is_str(addr) == old(self).is_str(addr),
            final(self).is_blob(addr) == old(self).is_blob(addr),
            final(self).words(addr) == old(self).words(addr),
            final(self).bytes(addr) == old(self).bytes(addr),
            final(self).log() == old(self).log().push(MemEvent::Free { addr }),
            forall|x: usize|
                old(self).addr_valid(x) && x != addr ==> #[trigger] final(self).same_buffer(
                    *old(self),
                    x,
                ),
    {
        proof {
            lemma_dead_count_lt(self.live_flags@, addr - 1);
            lemma_dead_count_update(self.live_flags@, addr - 1);
        }
        self.live_flags.set(addr - 1, false);
        self.events.push(MemEvent::Free { addr });
        self.freed = self.freed + 1;
    }

    /// Whether the buffer at `addr` is currently live; false for addresses
    /// that were never handed out.
    pub fn live_at(&self, addr: usize) -> (r: bool)
        requires
            self.wf(),
        ensures
            r == self.live(addr),
    {
        1 <= addr && addr <= self.live_flags.len() && self.live_flags[addr - 1]
    }

    /// Number of allocations this gateway has served.
    pub fn allocations(&self) -> (r: u64)
        ensures
            r == self.alloc_count(),
    {
        self.allocated
    }

    /// Number of frees this gateway has served.
    pub fn frees(&self) -> (r: u64)
        ensures
            r == self.free_count(),
    {
        self.freed
    }

    /// Number of buffers handed out and not yet freed.
    pub fn live_buffers(&self) -> (r: u64)
        requires
            self.wf(),
        ensures
            r == self.alloc_count() - self.free_count(),
    {
        self.allocated - self.freed
    }
}

} // verus!
