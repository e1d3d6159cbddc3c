//! The address arithmetic and the initial frame layout of the port.

use fringe::{
    align_down_mut, offset_mut, Context, Registers, SliceStack, Stack, StackPointer,
    STACK_ALIGNMENT,
};

#[test]
fn align_down_exact() {
    assert_eq!(align_down_mut(1000, 16), 992);
    assert_eq!(align_down_mut(992, 16), 992);
    assert_eq!(align_down_mut(15, 16), 0);
    assert_eq!(align_down_mut(0x12345, 4096), 0x12000);
}

#[test]
fn offset_in_both_directions() {
    assert_eq!(offset_mut(0x1000, 3, 8), 0x1018);
    assert_eq!(offset_mut(0x1000, -2, 8), 0x0ff0);
    assert_eq!(offset_mut(0x1000, 0, 8), 0x1000);
    assert_eq!(offset_mut(0x1000, -1, 1), 0x0fff);
}

#[test]
fn stack_pointer_push_moves_down_one_word() {
    let mut sp = StackPointer::new(0x8000);
    sp.push(7);
    assert_eq!(sp.addr, 0x8000 - 8);
    sp.push(9);
    assert_eq!(sp.addr, 0x8000 - 16);
}

#[test]
fn initial_frame_is_one_frame_below_base() {
    let sp = StackPointer::init(0x40000, 0xa000, 0xb002, 0xc001);
    // Six slots: padding, entry, first trampoline return, link slot,
    // second trampoline return, frame pointer.
    assert_eq!(sp.addr, 0x40000 - 48);
    assert_eq!(sp.addr % STACK_ALIGNMENT, 0);
}

#[test]
fn registers_start_zeroed_at_abort() {
    let regs = Registers::new(0xdead);
    assert_eq!(regs.ip, 0xdead);
    assert_eq!(regs.rsp, 0);
    assert_eq!(regs.rbx, 0);
    assert_eq!(regs.r15, 0);
    assert_eq!(regs.xmm, [0; 12]);
}

#[test]
fn call_frame_fills_argument_registers_in_order() {
    let regs = fringe::initialise_call_frame(0x40000, 0xb00f, 0xf00d, &[10, 11, 12]);
    assert_eq!(regs.ip, 0xb00f);
    assert_eq!(regs.rbx, 0xf00d);
    assert_eq!(regs.rbp, 0);
    assert_eq!(regs.rsp, 0x40000 - 8);
    assert_eq!(regs.rdi, 10);
    assert_eq!(regs.r12, 11);
    assert_eq!(regs.r13, 12);
    assert_eq!(regs.r14, 0);
    assert_eq!(regs.r15, 0);
}

#[test]
fn call_frame_realigns_the_top() {
    let regs = fringe::initialise_call_frame(0x40007, 1, 2, &[]);
    assert_eq!(regs.rsp, 0x40000 - 8);
}

#[test]
fn context_parks_at_initial_frame() {
    let stack = SliceStack::new(0x30000, 4096);
    let base = stack.base();
    let mut ctx = Context::new(stack, 0xa000, 0xb002, 0xc001);
    assert_eq!(ctx.stack_ptr.addr, base - 48);

    // A later switch parks the context wherever its saved frame ended up.
    ctx.park_at(base - 256);
    assert_eq!(ctx.stack_ptr.addr, base - 256);

    let stack = ctx.unwrap();
    assert_eq!(stack.base(), base);
}
