//! A non-guarded, heap-allocated stack.

use vstd::prelude::*;

use crate::arch::STACK_ALIGNMENT;
use crate::stack::Stack;

verus! {

/// Relies on `Vec::as_ptr` of std: the address of a vector's heap buffer.
/// An allocation is non-null and fits in the address space (std keeps every
/// object at most `isize::MAX` bytes, with all of it addressable), so the
/// address is at least one and the buffer does not wrap around.
#[verifier::external_body]
fn buf_addr(buf: &Vec<u8>) -> (r: usize)
    ensures
        1 <= r,
        r + buf@.len() <= usize::MAX,
{
    buf.as_ptr() as usize
}

/// OwnedStack holds a non-guarded, heap-allocated stack: the usable region
/// is carved, realigned, out of a buffer the stack owns.
#[derive(Debug)]
pub struct OwnedStack {
    /// The owned allocation backing the region.
    pub buf: Vec<u8>,
    /// The low end of the usable region, realigned inside the buffer.
    pub limit: usize,
    /// The usable length, a multiple of the platform stack alignment.
    pub len: usize,
}

impl OwnedStack {
    /// Allocates a new stack whose usable size is `size` rounded down to the
    /// platform stack alignment. The host allocator answers for allocation
    /// failure, as it does for any other heap allocation.
    ///
    /// The buffer clause pins the allocation down: the stack really owns
    /// one alignment unit more than the usable size, and the region was
    /// carved inside it. (That the carved range lies within the buffer's
    /// addresses cannot be stated — a vector's buffer has no spec-level
    /// address — but it follows from the address the trusted `buf_addr`
    /// reads and the realignment below.)
    pub fn new(size: usize) -> (r: OwnedStack)
        requires
            size + STACK_ALIGNMENT <= usize::MAX,
        ensures
            r.wf(),
            r.base_spec() - r.limit_spec() == size - size % STACK_ALIGNMENT,
            r.buf@.len() == size - size % STACK_ALIGNMENT + STACK_ALIGNMENT,
            1 <= r.limit_spec(),
    {
        let aligned_size = size - size % STACK_ALIGNMENT;
        let mut buf: Vec<u8> = Vec::new();
        // Over-allocate by one alignment unit so that an aligned region of
        // the full rounded size fits at whatever address the buffer got.
        let total = aligned_size + STACK_ALIGNMENT;
        let mut i: usize = 0;
        while i < total
            invariant
                i <= total,
                buf@.len() == i,
            decreases total - i,
        {
            buf.push(0);
            i = i + 1;
        }
        let addr = buf_addr(&buf);
        let rem = addr % STACK_ALIGNMENT;
        let limit = if rem == 0 {
            addr
        } else {
            addr + (STACK_ALIGNMENT - rem)
        };
        proof {
            assert((size - size % STACK_ALIGNMENT) % (STACK_ALIGNMENT as int) == 0)
                by (nonlinear_arith);
        }
        OwnedStack { buf, limit, len: aligned_size }
    }
}

impl Stack for OwnedStack {
    open spec fn base_spec(&self) -> usize {
        (self.limit + self.len) as usize
    }

    open spec fn limit_spec(&self) -> usize {
        self.limit
    }

    open spec fn wf(&self) -> bool {
        &&& 1 <= self.limit
        &&& self.limit % STACK_ALIGNMENT == 0
        &&& self.len % STACK_ALIGNMENT == 0
        &&& self.limit + self.len <= usize::MAX
    }

    proof fn geometry(&self) {
    }

    fn base(&self) -> (r: usize) {
        self.limit + self.len
    }

    fn limit(&self) -> (r: usize) {
        self.limit
    }
}

} // verus!
