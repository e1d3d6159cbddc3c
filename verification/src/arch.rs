//! The architecture port, modelled at the level of addresses and stack words.
//!
//! The real port consists of three naked-assembly primitives per instruction
//! set: `init` (lay out the initial stack frame), `swap` (save the outgoing
//! register set, switch stacks, restore the incoming one) and `unwind` (enter
//! a context so that its next activation begins unwinding). The assembly
//! itself cannot be verified; what is verified here is the arithmetic those
//! primitives are built from — alignment, slot offsets, and the exact layout
//! of the frame a fresh context starts with, so that the first switch into it
//! is indistinguishable from a return out of an ordinary switch.
//!
//! Addresses are modelled as `usize` values. A [`StackPointer`] carries, next
//! to the live address, a ghost trace of every word pushed through it, so the
//! frame layout can be pinned down slot by slot.

use vstd::prelude::*;

verus! {

/// Minimum alignment of a stack base address on the target platform.
pub const STACK_ALIGNMENT: usize = 16;

/// Size in bytes of one stack word (one saved register slot).
pub const WORD_SIZE: usize = 8;

/// Placeholder stored in the parent-frame link slot of a freshly prepared
/// stack. Every switch into the context overwrites this slot with the address
/// of the bottom of the outgoing context's saved frame before the slot is
/// ever read, so the initial value only has to be recognizable.
pub const CFA_PLACEHOLDER: usize = 0x0cfa;

/// Rounds `sp` down to a multiple of `n`.
///
/// The port uses this to realign a stack pointer before pushing the first
/// slot of a synthetic frame.
pub fn align_down_mut(sp: usize, n: usize) -> (r: usize)
    requires
        1 <= n,
    ensures
        r == sp - sp % n,
        r % n == 0,
        r <= sp,
        sp - r < n,
{
    proof {
        assert(0 <= sp % n < n && sp % n <= sp && (sp - sp % n) % (n as int) == 0) by (nonlinear_arith)
            requires 1 <= n
        ;
    }
    sp - sp % n
}

/// Moves an address by `count` slots of `size` bytes each.
///
/// This is the signed pointer-offset computation of the port, written out on
/// plain addresses; the caller owes the absence of address-space wraparound.
pub fn offset_mut(ptr: usize, count: isize, size: usize) -> (r: usize)
    requires
        -(isize::MAX as int) <= count,
        0 <= ptr + count * size <= usize::MAX,
    ensures
        r == ptr + count * size,
{
    if count >= 0 {
        let slots: usize = count as usize;
        proof {
            assert(slots * size == count * size) by (nonlinear_arith)
                requires slots == count, count >= 0
            ;
        }
        ptr + slots * size
    } else {
        let slots: usize = (-count) as usize;
        proof {
            assert(slots * size == -(count * size)) by (nonlinear_arith)
                requires slots == -count, count < 0
            ;
        }
        ptr - slots * size
    }
}

/// A bare stack pointer: the address of the first live slot of a saved frame,
/// together with a ghost trace of every word pushed through this pointer
/// (oldest first). The word at address `addr + WORD_SIZE * k` is
/// `pushed[len - 1 - k]`: the last push lands at the live address.
pub struct StackPointer {
    /// Address of the most recently pushed word.
    pub addr: usize,
    /// Every word pushed through this pointer, in push order.
    pub pushed: Ghost<Seq<usize>>,
}

impl StackPointer {
    /// A stack pointer one past the top of a stack, with nothing pushed yet.
    pub fn new(addr: usize) -> (sp: StackPointer)
        ensures
            sp.addr == addr,
            sp.pushed@ =~= Seq::<usize>::empty(),
    {
        StackPointer { addr, pushed: Ghost(Seq::empty()) }
    }

    /// Pushes one word: the address moves down one slot and the word is
    /// recorded in the trace.
    pub fn push(&mut self, val: usize)
        requires
            WORD_SIZE <= old(self).addr,
        ensures
            final(self).addr == old(self).addr - WORD_SIZE,
            final(self).pushed@ =~= old(self).pushed@.push(val),
    {
        self.addr = self.addr - WORD_SIZE;
        proof {
            self.pushed@ = self.pushed@.push(val);
        }
    }

    /// Lays out the frame a fresh context starts with, so that the first
    /// switch into the context is indistinguishable — to the switch path and
    /// to an unwinder — from a return out of an ordinary switch.
    ///
    /// From `base` downward the frame holds, in push order: padding keeping
    /// the target ABI alignment; the entry function `entry` that the second
    /// trampoline calls; the return address `ret1` into the first trampoline;
    /// the parent-frame link slot (placeholder, overwritten on every switch);
    /// the return address `ret2` into the second trampoline; and the frame
    /// pointer, pointing at the link slot. The caller passes the trampoline
    /// addresses; the resulting pointer is one whole frame below `base` and
    /// keeps the platform stack alignment.
    pub fn init(base: usize, entry: usize, ret1: usize, ret2: usize) -> (sp: StackPointer)
        requires
            base % STACK_ALIGNMENT == 0,
            6 * WORD_SIZE <= base,
        ensures
            sp.addr == base - 6 * WORD_SIZE,
            sp.addr % STACK_ALIGNMENT == 0,
            sp.pushed@ =~= seq![
                0usize,
                entry,
                ret1,
                CFA_PLACEHOLDER,
                ret2,
                (base - 4 * WORD_SIZE) as usize,
            ],
    {
        let mut sp = StackPointer::new(base);
        sp.push(0); // padding keeping the ABI alignment after the synthetic call
        sp.push(entry);

        // Call frame for the second trampoline; the link slot is rewritten by
        // every switch to point at the outgoing context's saved frame.
        sp.push(ret1);
        sp.push(CFA_PLACEHOLDER);

        // Call frame for the switch path itself, its frame pointer aimed at
        // the link slot above.
        let frame = sp.addr;
        sp.push(ret2);
        sp.push(frame);
        sp
    }
}

/// Word-or-zero lookup used to describe how call arguments fill registers.
pub open spec fn arg_or_zero(args: Seq<u64>, i: int) -> u64 {
    if 0 <= i < args.len() {
        args[i]
    } else {
        0
    }
}

/// The callee-saved register file of the port, as laid down for a context
/// that has not run yet. The vector slots stand for the callee-saved SIMD
/// pairs the switch sequence preserves.
pub struct Registers {
    pub rbx: u64,
    pub rsp: u64,
    pub rbp: u64,
    pub rdi: u64,
    pub r12: u64,
    pub r13: u64,
    pub r14: u64,
    pub r15: u64,
    pub ip: u64,
    pub xmm: [u64; 12],
}

impl Registers {
    /// A register file that traps if it is ever restored without further
    /// preparation: every register is zero and the instruction pointer aims
    /// at the given aborting routine.
    pub fn new(abort_ip: u64) -> (r: Registers)
        ensures
            r.ip == abort_ip,
            r.rbx == 0 && r.rsp == 0 && r.rbp == 0 && r.rdi == 0,
            r.r12 == 0 && r.r13 == 0 && r.r14 == 0 && r.r15 == 0,
            forall|i: int| 0 <= i < 12 ==> r.xmm[i] == 0,
    {
        Registers {
            rbx: 0,
            rsp: 0,
            rbp: 0,
            rdi: 0,
            r12: 0,
            r13: 0,
            r14: 0,
            r15: 0,
            ip: abort_ip,
            xmm: [0; 12],
        }
    }
}

/// Prepares the register file with which a fresh context is entered for the
/// first time: the stack pointer is realigned below `stack_top` with one
/// zeroed return-address slot, the instruction pointer aims at the bootstrap
/// routine, the bootstrap target goes to `rbx`, and up to five call arguments
/// fill the argument and callee-saved registers in order.
pub fn initialise_call_frame(stack_top: usize, bootstrap: u64, init: u64, args: &[u64]) -> (r:
    Registers)
    requires
        STACK_ALIGNMENT <= stack_top,
        args@.len() <= 5,
    ensures
        r.rsp == stack_top - stack_top % STACK_ALIGNMENT - WORD_SIZE,
        r.ip == bootstrap,
        r.rbx == init,
        r.rbp == 0,
        r.rdi == arg_or_zero(args@, 0),
        r.r12 == arg_or_zero(args@, 1),
        r.r13 == arg_or_zero(args@, 2),
        r.r14 == arg_or_zero(args@, 3),
        r.r15 == arg_or_zero(args@, 4),
{
    let sp = align_down_mut(stack_top, STACK_ALIGNMENT);
    // One slot below the aligned top holds a zeroed return address; the
    // bootstrap routine never returns through it.
    let sp = sp - WORD_SIZE;

    let mut regs = Registers::new(0);
    regs.rsp = sp as u64;
    regs.ip = bootstrap;
    regs.rbx = init;
    if args.len() > 0 {
        regs.rdi = args[0];
    }
    if args.len() > 1 {
        regs.r12 = args[1];
    }
    if args.len() > 2 {
        regs.r13 = args[2];
    }
    if args.len() > 3 {
        regs.r14 = args[3];
    }
    if args.len() > 4 {
        regs.r15 = args[4];
    }
    regs
}

} // verus!
