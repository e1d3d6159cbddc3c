//! Debug annotations for stacks.
//!
//! A stack can be registered with an external memory-error detector so that
//! the detector follows execution as it moves between stacks. With the
//! detector hook disabled — the default, and the only configuration built
//! here — registration is a marker that keeps the registration points in the
//! owning types without doing anything.

use vstd::prelude::*;

use crate::stack::Stack;

verus! {

/// A handle for a stack registered with the memory-error detector.
/// With the detector hook disabled it records nothing; the owning stack
/// remains responsible for its memory either way.
#[derive(Debug)]
pub struct StackId;

impl StackId {
    /// Registers a stack region with the detector; a no-op marker here.
    pub fn register<S: Stack>(_stack: &S) -> (id: StackId) {
        StackId
    }
}

} // verus!
