//! Ownership discipline of the value-passing helper: whatever crosses,
//! exactly one side ever owns it, so its destructor runs exactly once.

use std::cell::Cell;
use std::rc::Rc;

use fringe::{from_regs, to_regs, Transfer};

/// A value that counts how many times it is dropped.
struct DropCounter(Rc<Cell<u32>>);

impl Drop for DropCounter {
    fn drop(&mut self) {
        self.0.set(self.0.get() + 1);
    }
}

impl Transfer for DropCounter {
    // The ghost half of the trait; erased from compiled code, never called.
    fn fits_word() -> bool {
        unreachable!()
    }
    fn to_word_spec(self) -> usize {
        unreachable!()
    }
    fn from_word_spec(_w: usize) -> Self {
        unreachable!()
    }
    fn round_trip(self) {
        unreachable!()
    }

    // A type with a destructor never travels packed in the word.
    fn fits() -> bool {
        false
    }
    fn to_word(self) -> usize {
        unreachable!()
    }
    fn from_word(_w: usize) -> Self {
        unreachable!()
    }
}

#[test]
fn receiver_drops_exactly_once() {
    let drops = Rc::new(Cell::new(0));
    let value = DropCounter(Rc::clone(&drops));
    let received = from_regs(to_regs(value));
    assert_eq!(drops.get(), 0);
    drop(received);
    assert_eq!(drops.get(), 1);
}

#[test]
fn transfer_does_not_drop_in_flight() {
    let drops = Rc::new(Cell::new(0));
    let value = DropCounter(Rc::clone(&drops));
    let in_flight = to_regs(value);
    assert_eq!(drops.get(), 0);
    drop(in_flight);
    assert_eq!(drops.get(), 1);
}
