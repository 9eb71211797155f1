//! The ring of staged transfer payloads for one direction.
//!
//! An `IoBufferQueue` owns (outside this crate) one memory-mapped shared
//! region and the data socket of its direction; here it is modeled by the
//! region's capacity and the write cursor. `allocate_buffer` hands out byte
//! ranges for in-flight transfers; it deliberately does not track which
//! earlier ranges are still outstanding, so issuing a second transfer before
//! the first completes may yield overlapping ranges. That is a documented
//! property of the allocator, upheld by the callers' usage contract.

use vstd::prelude::*;

use crate::errors::Error;

verus! {

/// A bounds-checked range of the mapped region. The unverified shell turns it
/// into a slice of the real mapping.
#[derive(Clone, Copy, Debug, PartialEq, Eq, Structural)]
pub struct BufferView {
    pub offset: usize,
    pub len: usize,
}

/// Capacity and write cursor of one direction's staging ring.
#[derive(Clone, Copy, Debug, PartialEq, Eq, Structural)]
pub struct IoBufferQueue {
    /// Total capacity of the mapped region, in bytes.
    pub size: usize,
    /// Offset at which the next allocation is attempted.
    pub next: usize,
}

impl IoBufferQueue {
    /// The cursor never leaves the region, and every offset of the region
    /// fits in the 32-bit offset field of a transfer message.
    pub open spec fn wf(self) -> bool {
        self.next <= self.size && self.size <= u32::MAX
    }

    /// Whether a payload of `size` bytes can be staged at all.
    pub open spec fn spec_alloc_fits(self, size: usize) -> bool {
        size <= self.size
    }

    /// Where a fitting payload of `size` bytes is placed: at the cursor when
    /// the tail of the region still holds `size` bytes, else back at the
    /// start of the region.
    pub open spec fn spec_alloc_offset(self, size: usize) -> usize {
        if size > self.size - self.next {
            0
        } else {
            self.next
        }
    }

    /// The queue after a fitting allocation of `size` bytes: the cursor sits
    /// right behind the range just handed out.
    pub open spec fn spec_allocate(self, size: usize) -> IoBufferQueue {
        IoBufferQueue { size: self.size, next: (self.spec_alloc_offset(size) + size) as usize }
    }

    /// A fresh ring over a mapped region of `size` bytes. Offsets are carried
    /// in 32-bit wire fields, so the region cannot be larger than that.
    pub fn new(size: usize) -> (q: IoBufferQueue)
        requires
            size <= u32::MAX,
        ensures
            q.size == size,
            q.next == 0,
            q.wf(),
    {
        IoBufferQueue { size, next: 0 }
    }

    /// Allocates a byte range for a payload of `size` bytes and advances the
    /// cursor. Fails exactly when the payload exceeds the region's total
    /// capacity; a payload that merely no longer fits at the tail is placed
    /// back at offset 0.
    pub fn allocate_buffer(&mut self, size: usize) -> (r: Result<usize, Error>)
        requires
            old(self).wf(),
        ensures
            final(self).wf(),
            final(self).size == old(self).size,
            match r {
                Ok(offset) => {
                    &&& old(self).spec_alloc_fits(size)
                    &&& offset == old(self).spec_alloc_offset(size)
                    &&& *final(self) == old(self).spec_allocate(size)
                    &&& offset + size <= old(self).size
                },
                Err(e) => {
                    &&& e == Error::OutOfSpace
                    &&& !old(self).spec_alloc_fits(size)
                    &&& *final(self) == *old(self)
                },
            },
    {
        if size > self.size {
            return Err(Error::OutOfSpace);
        }
        let offset: usize = if size > self.size - self.next {
            // The tail of the region cannot hold the payload: restart at the
            // beginning.
            0
        } else {
            self.next
        };
        self.next = offset + size;
        Ok(offset)
    }

    /// A bounds-checked view of `len` bytes of the mapped region starting at
    /// `offset`. Fails exactly when the range leaves the region.
    pub fn buffer_at(&self, offset: usize, len: usize) -> (r: Result<BufferView, Error>)
        ensures
            match r {
                Ok(v) => offset + len <= self.size && v.offset == offset && v.len == len,
                Err(e) => e == Error::VolatileMemoryError && offset + len > self.size,
            },
    {
        if offset > self.size || len > self.size - offset {
            Err(Error::VolatileMemoryError)
        } else {
            Ok(BufferView { offset, len })
        }
    }
}

/// On a fresh ring the first allocation lands at offset 0; a second
/// allocation whose size still fits behind the first lands right behind it;
/// and when the tail can no longer hold the next request, the allocation
/// wraps back to offset 0.
pub proof fn lemma_allocation_cursor_progression(q: IoBufferQueue, s1: usize, s2: usize)
    requires
        q.wf(),
        q.next == 0,
        s1 <= q.size,
    ensures
        q.spec_alloc_offset(s1) == 0,
        s1 + s2 <= q.size ==> q.spec_allocate(s1).spec_alloc_offset(s2) == s1,
        s2 <= q.size && s2 > q.size - s1 ==> q.spec_allocate(s1).spec_alloc_offset(s2) == 0,
{
}

/// Allocating more than the region's total capacity fails regardless of
/// where the cursor stands.
pub proof fn lemma_allocate_oversize_always_fails(capacity: usize, cursor: usize, size: usize)
    requires
        cursor <= capacity,
        size > capacity,
    ensures
        !((IoBufferQueue { size: capacity, next: cursor }).spec_alloc_fits(size)),
{
}

} // verus!
