//! The lazy-sequence interface of an input-less generator.

use fringe::generator::{Body, Generator};
use fringe::OsStack;

/// Yields the naturals, counting up from its current state forever.
struct Naturals(u64);

impl Body<(), u64> for Naturals {
    // The ghost half of the trait; erased from compiled code, never called.
    fn next_spec(self, _input: ()) -> (Self, Option<u64>) {
        unreachable!()
    }

    fn next(self, _input: ()) -> (Self, Option<u64>) {
        let Naturals(i) = self;
        (Naturals(i + 1), Some(i))
    }
}

#[test]
fn producer() {
    let stack = OsStack::from_mapping(0x10000, 5 * 4096, 4096);
    let mut gen = Generator::new(stack, Naturals(0));
    assert_eq!(gen.next(), Some(0));
    assert_eq!(gen.next(), Some(1));
    assert_eq!(gen.next(), Some(2));
    gen.unsafe_unwrap();
}

#[test]
fn producer_from_one() {
    let stack = OsStack::from_mapping(0x10000, 5 * 4096, 4096);
    let mut gen = Generator::new(stack, Naturals(1));
    assert_eq!(gen.next(), Some(1));
    assert_eq!(gen.next(), Some(2));
    assert_eq!(gen.next(), Some(3));
    gen.unsafe_unwrap();
}
