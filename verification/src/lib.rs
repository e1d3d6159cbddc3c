//! A library of cooperatively scheduled execution contexts ("fibers") that
//! switch entirely in user space, together with a typed generator
//! (suspend/resume) abstraction layered on top of raw context switches.
//!
//! The machine-level half of the system — the per-architecture save/restore
//! sequences and the anonymous memory mappings backing guarded stacks — cannot
//! be expressed in verified code; an unverified driver owns those. What stands
//! here is everything the driver decides with: the stack-region geometry
//! (alignment, rounding, guard-page accounting), the initial stack-frame
//! layout a fresh context starts with, the word codec that marshals values
//! across a switch, the generator protocol (state transitions, value passing,
//! termination latching, unwind-marker matching), and the laws those obey.

mod arch;
mod context;
mod debug;
mod fat_args;
pub mod generator;
mod os;
mod owned_stack;
mod session;
mod slice_stack;
mod stack;
mod unwind;

pub use arch::align_down_mut;
pub use arch::initialise_call_frame;
pub use arch::offset_mut;
pub use arch::Registers;
pub use arch::StackPointer;
pub use arch::CFA_PLACEHOLDER;
pub use arch::STACK_ALIGNMENT;
pub use arch::WORD_SIZE;
pub use context::Context;
pub use debug::StackId;
pub use fat_args::from_regs;
pub use fat_args::from_regs_spec;
pub use fat_args::lemma_transfer_identity;
pub use fat_args::to_regs;
pub use fat_args::to_regs_spec;
pub use fat_args::Regs;
pub use fat_args::Transfer;
pub use generator::Generator;
pub use generator::State;
pub use generator::Yielder;
pub use os::os_stack_len;
pub use os::page_size;
pub use os::sanitize_page;
pub use os::usable_len;
pub use os::OsStack;
pub use os::PAGE_UNIT;
pub use owned_stack::OwnedStack;
pub use session::pack_args;
pub use session::Either;
pub use session::ExitedArgs;
pub use session::YieldedArgs;
pub use slice_stack::SliceStack;
pub use stack::lemma_stack_geometry;
pub use stack::GuardedStack;
pub use stack::Stack;
pub use unwind::classify_unwind;
pub use unwind::have_cross_stack_unwind;
pub use unwind::unwind_arg;
pub use unwind::UnwindMarker;
pub use unwind::UnwindVerdict;
