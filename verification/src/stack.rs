//! Traits for stacks.
//!
//! A stack is a contiguous byte range `[limit, base)`: `base` is the high
//! address (one past the top; stacks grow downwards on every supported
//! platform) and `limit` the low one. The region is described here by its
//! addresses; the memory behind those addresses is owned by the implementing
//! type or by whoever lent it the region.

use vstd::prelude::*;

use crate::arch::STACK_ALIGNMENT;

verus! {

/// A trait for objects that hold ownership of a stack region.
///
/// An implementation owes its callers the following contract:
///
///   * the base and the limit of the stack keep the platform stack alignment;
///   * every byte between the limit and the base is readable and writable by
///     whoever the region was obtained from.
///
/// The first half is stated — and proved, per implementation — through
/// [`Stack::geometry`]; the second is about the memory behind the addresses
/// and binds the unverified owner of that memory.
pub trait Stack: Sized {
    /// The base of the stack: the highest address of the region, one past
    /// its top.
    spec fn base_spec(&self) -> usize;

    /// The limit of the stack: the lowest address of the region.
    spec fn limit_spec(&self) -> usize;

    /// The region is well-formed; constructors establish this and every
    /// operation preserves it.
    spec fn wf(&self) -> bool;

    /// A well-formed region does not extend below its own base, never
    /// touches address zero, and both of its ends keep the platform stack
    /// alignment.
    proof fn geometry(&self)
        requires
            self.wf(),
        ensures
            self.limit_spec() <= self.base_spec(),
            1 <= self.limit_spec(),
            self.base_spec() % STACK_ALIGNMENT == 0,
            self.limit_spec() % STACK_ALIGNMENT == 0,
    ;

    /// Returns the base of the stack.
    fn base(&self) -> (r: usize)
        requires
            self.wf(),
        ensures
            r == self.base_spec(),
    ;

    /// Returns the limit of the stack.
    fn limit(&self) -> (r: usize)
        requires
            self.wf(),
        ensures
            r == self.limit_spec(),
    ;
}

/// A marker trait for [`Stack`] objects with a guard page.
///
/// An implementation asserts that any access to the 4096 bytes just below
/// `limit` abnormally terminates, at least, the thread performing the access.
/// Nothing verified can be said about faulting memory, so the marker carries
/// no further obligations here; it gates the safe generator constructor.
pub trait GuardedStack: Stack {

}

/// Every stack implementation answers for its geometry: the usable size is
/// exactly `base - limit`, never negative, the region sits above address
/// zero, and both ends keep the platform stack alignment.
pub proof fn lemma_stack_geometry<S: Stack>(s: &S)
    requires
        s.wf(),
    ensures
        s.base_spec() - s.limit_spec() >= 0,
        1 <= s.limit_spec(),
        s.base_spec() % STACK_ALIGNMENT == 0,
        s.limit_spec() % STACK_ALIGNMENT == 0,
        (s.base_spec() - s.limit_spec()) % (STACK_ALIGNMENT as int) == 0,
{
    s.geometry();
}

} // verus!
