//! The generator protocol, driven through concrete bodies.

use fringe::generator::{Body, Generator, State, Yielder};
use fringe::{OsStack, OwnedStack, SliceStack};

/// The increment generator: yields `input + 1` until it is fed zero.
struct AddOne;

impl Body<i32, i32> for AddOne {
    // The ghost half of the trait; erased from compiled code, never called.
    fn next_spec(self, _input: i32) -> (Self, Option<i32>) {
        unreachable!()
    }

    fn next(self, input: i32) -> (Self, Option<i32>) {
        if input == 0 {
            (AddOne, None)
        } else {
            (AddOne, Some(input + 1))
        }
    }
}

fn os_test_stack() -> OsStack {
    // A synthetic mapping descriptor: one guard page below four data pages.
    OsStack::from_mapping(0x10000, 5 * 4096, 4096)
}

fn new_add_one() -> Generator<i32, i32, OsStack, AddOne> {
    Generator::new(os_test_stack(), AddOne)
}

#[test]
fn generator() {
    let mut add_one = new_add_one();
    assert_eq!(add_one.resume(1), Some(2));
    assert_eq!(add_one.resume(2), Some(3));
    assert_eq!(add_one.resume(0), None);
}

#[test]
fn increment_scenario() {
    let mut add_one = new_add_one();
    assert_eq!(add_one.resume(2), Some(3));
    assert_eq!(add_one.resume(3), Some(4));
    assert_eq!(add_one.resume(0), None);
}

#[test]
fn move_after_new() {
    let mut add_one = new_add_one();
    assert_eq!(add_one.resume(1), Some(2));

    fn run_moved(mut add_one: Generator<i32, i32, OsStack, AddOne>) {
        assert_eq!(add_one.resume(2), Some(3));
        assert_eq!(add_one.resume(3), Some(4));
        assert_eq!(add_one.resume(0), None);
    }
    run_moved(add_one);
}

#[test]
fn with_slice_stack() {
    let stack = SliceStack::new(0x4000, 1024);
    let mut add_one = Generator::unsafe_new(stack, AddOne);
    assert_eq!(add_one.resume(1), Some(2));
    assert_eq!(add_one.resume(2), Some(3));
    assert_eq!(add_one.resume(0), None);
}

#[test]
fn with_owned_stack() {
    let stack = OwnedStack::new(1024);
    let mut add_one = Generator::unsafe_new(stack, AddOne);
    assert_eq!(add_one.resume(1), Some(2));
    assert_eq!(add_one.resume(2), Some(3));
    assert_eq!(add_one.resume(0), None);
}

#[test]
fn resume_after_termination_stays_none() {
    let mut add_one = new_add_one();
    assert_eq!(add_one.state(), State::Runnable);
    assert_eq!(add_one.resume(0), None);
    assert_eq!(add_one.state(), State::Unavailable);
    assert_eq!(add_one.resume(7), None);
    assert_eq!(add_one.resume(1), None);
    assert_eq!(add_one.state(), State::Unavailable);
}

/// A body that returns the moment it is first entered.
struct ReturnsAtOnce;

impl Body<(), ()> for ReturnsAtOnce {
    // The ghost half of the trait; erased from compiled code, never called.
    fn next_spec(self, _input: ()) -> (Self, Option<()>) {
        unreachable!()
    }

    fn next(self, _input: ()) -> (Self, Option<()>) {
        (ReturnsAtOnce, None)
    }
}

#[test]
fn unwrap_returned() {
    let mut generator = Generator::new(os_test_stack(), ReturnsAtOnce);
    assert_eq!(generator.resume(()), None::<()>);
    let stack = generator.unwrap();
    assert_eq!(stack.ptr, 0x10000);
}

#[test]
fn unsafe_unwrap_running() {
    let mut generator = new_add_one();
    assert_eq!(generator.resume(1), Some(2));
    let stack = generator.unsafe_unwrap();
    assert_eq!(stack.ptr, 0x10000);
}

/// A body that must never run: entering it fails the test.
struct MustNotRun;

impl Body<(), ()> for MustNotRun {
    // The ghost half of the trait; erased from compiled code, never called.
    fn next_spec(self, _input: ()) -> (Self, Option<()>) {
        unreachable!()
    }

    fn next(self, _input: ()) -> (Self, Option<()>) {
        panic!("the body of an unresumed generator ran");
    }
}

#[test]
fn create_then_drop_runs_no_user_code() {
    let stack = OwnedStack::new(1024);
    let generator = Generator::unsafe_new(stack, MustNotRun);
    drop(generator);
}

/// Yields one drop-tracking value, then returns.
struct YieldsDropperOnce<'a> {
    flag: &'a std::cell::Cell<bool>,
    yielded: bool,
}

struct Dropper<'a>(&'a std::cell::Cell<bool>);

impl<'a> Drop for Dropper<'a> {
    fn drop(&mut self) {
        if self.0.get() {
            panic!("double drop!")
        }
        self.0.set(true);
    }
}

impl<'a> Body<(), Dropper<'a>> for YieldsDropperOnce<'a> {
    // The ghost half of the trait; erased from compiled code, never called.
    fn next_spec(self, _input: ()) -> (Self, Option<Dropper<'a>>) {
        unreachable!()
    }

    fn next(self, _input: ()) -> (Self, Option<Dropper<'a>>) {
        if self.yielded {
            (self, None)
        } else {
            let flag = self.flag;
            (YieldsDropperOnce { flag, yielded: true }, Some(Dropper(flag)))
        }
    }
}

#[test]
fn forget_yielded() {
    let flag = std::cell::Cell::new(false);
    let mut generator = Generator::unsafe_new(
        OwnedStack::new(1 << 10),
        YieldsDropperOnce { flag: &flag, yielded: false },
    );
    generator.resume(());
    generator.resume(());
}

/// Echoes every input it is resumed with.
struct Echo;

impl Body<[u64; 10], [u64; 10]> for Echo {
    // The ghost half of the trait; erased from compiled code, never called.
    fn next_spec(self, _input: [u64; 10]) -> (Self, Option<[u64; 10]>) {
        unreachable!()
    }

    fn next(self, input: [u64; 10]) -> (Self, Option<[u64; 10]>) {
        (Echo, Some(input))
    }
}

#[test]
fn yielder_tracks_a_moving_caller() {
    let mut y: Yielder<i32, i32> = Yielder::new(0x8000);
    let sp = y.take_for_suspend();
    assert_eq!(sp, 0x8000);
    // The owner moved between resumes; the slot follows it.
    y.finish_suspend(0x9000);
    let sp2 = y.take_for_suspend();
    assert_eq!(sp2, 0x9000);
}

#[test]
fn large_value_transfer() {
    let mut echo = Generator::new(os_test_stack(), Echo);
    for _ in 0..3 {
        let sent: [u64; 10] = rand::random();
        assert_eq!(echo.resume(sent), Some(sent));
    }
}
