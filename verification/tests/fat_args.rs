//! Round trips through the value-passing helper.

use fringe::{from_regs, to_regs, Transfer};
use rand::distr::{Distribution, StandardUniform};

fn simple_round_trip_test<T>()
where
    T: PartialEq + core::fmt::Debug + Copy + Transfer,
    StandardUniform: Distribution<T>,
{
    let data: T = rand::random();
    assert_eq!(data, from_regs(to_regs(data)));
}

#[test]
fn round_trip_u8() {
    simple_round_trip_test::<u8>();
}

#[test]
fn round_trip_u16() {
    simple_round_trip_test::<u16>();
}

#[test]
fn round_trip_u32() {
    simple_round_trip_test::<u32>();
}

#[test]
fn round_trip_u64() {
    simple_round_trip_test::<u64>();
}

#[test]
fn round_trip_max_by_value() {
    let data = [rand::random::<u64>() as usize, rand::random::<u64>() as usize];
    assert_eq!(data, from_regs(to_regs(data)));
}

#[test]
fn round_trip_big_array() {
    simple_round_trip_test::<[u64; 10]>();
}

#[test]
fn round_trip_unit() {
    assert_eq!((), from_regs(to_regs(())));
}

#[test]
fn round_trip_usize_exact() {
    assert_eq!(0usize, from_regs(to_regs(0usize)));
    assert_eq!(usize::MAX, from_regs(to_regs(usize::MAX)));
    assert_eq!(0x0cfausize, from_regs(to_regs(0x0cfausize)));
    let w = rand::random::<u64>() as usize;
    assert_eq!(w, from_regs(to_regs(w)));
}
