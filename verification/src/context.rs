//! The bare context primitive: one stack, one saved stack pointer.
//!
//! A context is an execution thread of control parked in user space: while
//! it is suspended, everything it is lives in the saved frame its stack
//! pointer marks. The owner either switches into it — the register-level
//! half of that switch is the unverified driver's — or drops it. What is
//! verified here is the value's own discipline: the saved pointer always
//! sits inside the owned region, keeps the platform alignment, and starts
//! out exactly one initial frame below the base.

use vstd::prelude::*;

use crate::arch::StackPointer;
use crate::arch::STACK_ALIGNMENT;
use crate::arch::WORD_SIZE;
use crate::debug::StackId;
use crate::stack::Stack;

verus! {

/// Context holds a suspended thread of execution along with a stack.
///
/// The safety of actually entering the context — signature of the entry
/// function, single ownership, no re-entry after termination — is the
/// caller's, as it always was at this layer; the geometry below is not.
pub struct Context<S: Stack> {
    /// The stack the context runs on.
    pub stack: S,
    /// The registration of that stack with the memory-error detector.
    pub stack_id: StackId,
    /// Where the context is parked: the first live slot of its saved frame.
    pub stack_ptr: StackPointer,
}

impl<S: Stack> Context<S> {
    /// The invariant of a suspended context: its saved stack pointer is
    /// non-null, aligned, and lies within the owned region.
    pub open spec fn wf(&self) -> bool {
        &&& self.stack.wf()
        &&& 1 <= self.stack_ptr.addr
        &&& self.stack.limit_spec() <= self.stack_ptr.addr < self.stack.base_spec()
        &&& self.stack_ptr.addr % STACK_ALIGNMENT == 0
    }

    /// Creates a new context parked at the initial frame laid out by
    /// [`StackPointer::init`]: when first switched into, it enters `entry`
    /// through the two trampolines whose return addresses are given.
    pub fn new(stack: S, entry: usize, ret1: usize, ret2: usize) -> (r: Context<S>)
        requires
            stack.wf(),
            6 * WORD_SIZE <= stack.base_spec() - stack.limit_spec(),
        ensures
            r.wf(),
            r.stack == stack,
            r.stack_ptr.addr == stack.base_spec() - 6 * WORD_SIZE,
            r.stack_ptr.pushed@ =~= seq![
                0usize,
                entry,
                ret1,
                crate::arch::CFA_PLACEHOLDER,
                ret2,
                (stack.base_spec() - 4 * WORD_SIZE) as usize,
            ],
    {
        proof {
            stack.geometry();
        }
        let stack_id = StackId::register(&stack);
        let base = stack.base();
        let stack_ptr = StackPointer::init(base, entry, ret1, ret2);
        Context { stack, stack_id, stack_ptr }
    }

    /// Records where the context parked after a switch out of it: the
    /// driver hands back the stack pointer the switch saved, and the
    /// invariant demands it lie inside the region, aligned.
    pub fn park_at(&mut self, sp: usize)
        requires
            old(self).wf(),
            old(self).stack.limit_spec() <= sp < old(self).stack.base_spec(),
            sp % STACK_ALIGNMENT == 0,
        ensures
            final(self).wf(),
            final(self).stack == old(self).stack,
            final(self).stack_ptr.addr == sp,
    {
        proof {
            self.stack.geometry();
        }
        self.stack_ptr = StackPointer::new(sp);
    }

    /// Unwraps the context, returning the stack it contained.
    pub fn unwrap(self) -> (r: S)
        ensures
            r == self.stack,
    {
        let Context { stack, stack_id, stack_ptr } = self;
        stack
    }
}

} // verus!
