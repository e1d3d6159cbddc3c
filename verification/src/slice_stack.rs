//! A stack borrowed from elsewhere, described by the address range of the
//! borrowed bytes.

use vstd::prelude::*;

use crate::arch::align_down_mut;
use crate::arch::STACK_ALIGNMENT;
use crate::stack::Stack;

verus! {

/// How far `addr` has to move up to reach the next multiple of the platform
/// stack alignment.
pub open spec fn align_up_offset(addr: usize) -> int {
    if addr % STACK_ALIGNMENT == 0 {
        0
    } else {
        STACK_ALIGNMENT - addr % STACK_ALIGNMENT
    }
}

/// SliceStack holds a non-guarded stack allocated elsewhere and provided as
/// a borrowed byte range, given by its start address and length. The range
/// is realigned at construction; the lender keeps the bytes alive and
/// writable for as long as the stack is in use.
#[derive(Clone, Copy, Debug)]
pub struct SliceStack {
    /// The realigned low end of the borrowed range.
    pub limit: usize,
    /// The realigned usable length.
    pub len: usize,
}

impl SliceStack {
    /// Creates a `SliceStack` from a borrowed byte range.
    ///
    /// The start of the range is rounded up and its length down to the
    /// platform stack alignment. A range too small to reach its own aligned
    /// start cannot be used, and the range comes from live bytes, which no
    /// allocation puts at address zero; the caller keeps both kinds of
    /// range out.
    pub fn new(start: usize, len: usize) -> (r: SliceStack)
        requires
            1 <= start,
            start + len <= usize::MAX,
            align_up_offset(start) <= len,
        ensures
            r.wf(),
            r.limit_spec() == start + align_up_offset(start),
            r.base_spec() - r.limit_spec() == (len - align_up_offset(start))
                - (len - align_up_offset(start)) % (STACK_ALIGNMENT as int),
    {
        let rem = start % STACK_ALIGNMENT;
        let offset = if rem == 0 {
            0
        } else {
            STACK_ALIGNMENT - rem
        };
        let adjusted_start = start + offset;
        let adjusted_len = align_down_mut(len - offset, STACK_ALIGNMENT);
        SliceStack { limit: adjusted_start, len: adjusted_len }
    }
}

impl Stack for SliceStack {
    open spec fn base_spec(&self) -> usize {
        (self.limit + self.len) as usize
    }

    open spec fn limit_spec(&self) -> usize {
        self.limit
    }

    open spec fn wf(&self) -> bool {
        &&& 1 <= self.limit
        &&& self.limit % STACK_ALIGNMENT == 0
        &&& self.len % STACK_ALIGNMENT == 0
        &&& self.limit + self.len <= usize::MAX
    }

    proof fn geometry(&self) {
    }

    fn base(&self) -> (r: usize) {
        self.limit + self.len
    }

    fn limit(&self) -> (r: usize) {
        self.limit
    }
}

} // verus!
