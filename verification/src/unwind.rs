//! Forced unwinding across a stack switch: the payload and its routing.
//!
//! Dropping a still-suspended generator forces its context to unwind: a
//! payload keyed to that generator's stack base is thrown into the context,
//! and the catch shim at the context's root decides what to do with whatever
//! payload arrives. The throw and the catch are the unwinding runtime's; the
//! payload and the routing decision — swallow a payload meant for this
//! stack, pass every other one on so that nested generators unwind through
//! outer ones — are verified here.

use vstd::prelude::*;

verus! {

/// Whether the platform can propagate a panic across a stack switch as if
/// the switch were an ordinary call.
///
/// The ports modelled by this library unwind through DWARF call-frame
/// information, which supports this; ports with SEH- or EHABI-style
/// unwinding would answer no and leak the stack of a live generator that is
/// dropped instead.
pub fn have_cross_stack_unwind() -> (r: bool)
    ensures
        r,
{
    true
}

/// The marker thrown through a context to force it to unwind.
///
/// The stack base identifies the context the marker is intended for, so
/// that any number of nested generators between the thrower and the target
/// unwind through without swallowing it.
#[derive(Clone, Copy, Debug, PartialEq, Eq, Structural)]
pub struct UnwindMarker {
    /// The base address of the stack this marker is meant to unwind.
    pub stack_base: usize,
}

/// Builds the payload with which a generator over the stack based at
/// `stack_base` is forced to unwind.
pub fn unwind_arg(stack_base: usize) -> (m: UnwindMarker)
    ensures
        m.stack_base == stack_base,
{
    UnwindMarker { stack_base }
}

/// What the catch shim at a context's root does with an arriving unwind
/// marker.
#[derive(Clone, Copy, Debug, PartialEq, Eq, Structural)]
pub enum UnwindVerdict {
    /// The marker was meant for this context: swallow it and return into
    /// the parent normally, so the stack can be reclaimed.
    Swallow,
    /// The marker belongs to some context further out: re-raise it so the
    /// unwinding continues through this stack into the parent.
    Propagate,
}

/// Routes an unwind marker caught at the root of the context whose stack
/// base is `stack_base`: a marker is swallowed exactly when it was keyed to
/// this stack.
pub fn classify_unwind(marker: &UnwindMarker, stack_base: usize) -> (v: UnwindVerdict)
    ensures
        v == UnwindVerdict::Swallow <==> marker.stack_base == stack_base,
{
    if marker.stack_base == stack_base {
        UnwindVerdict::Swallow
    } else {
        UnwindVerdict::Propagate
    }
}

} // verus!
