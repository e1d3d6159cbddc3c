//! The value-passing helper: marshalling values of any size across a switch.
//!
//! One machine word travels through the argument register of a switch. A
//! value whose bits fit that word with no stricter alignment is packed into
//! it directly; any other value stays where it is and only its address — its
//! ownership, in this model — crosses. In both directions the sender gives
//! the value up and the receiver takes it over whole, so destructors run
//! exactly once, on the receiver side.

use vstd::prelude::*;

verus! {

/// A value that can be marshalled across a context switch.
///
/// The trait fixes, per type, whether the value travels packed inside the
/// transfer word, and if so, what its word encoding is. Decoding an encoding
/// always gives the value back; [`Transfer::round_trip`] holds every
/// implementation to that.
pub trait Transfer: Sized {
    /// Whether values of this type fit the transfer word: size at most one
    /// machine word, alignment no stricter than the word's.
    spec fn fits_word() -> bool;

    /// The word encoding of this value.
    spec fn to_word_spec(self) -> usize;

    /// The value a word decodes to.
    spec fn from_word_spec(w: usize) -> Self;

    /// Tells whether this type travels packed in the word.
    fn fits() -> (b: bool)
        ensures
            b == Self::fits_word(),
    ;

    /// Packs this value into the transfer word.
    fn to_word(self) -> (w: usize)
        requires
            Self::fits_word(),
        ensures
            w == self.to_word_spec(),
    ;

    /// Unpacks a value from the transfer word.
    fn from_word(w: usize) -> (r: Self)
        requires
            Self::fits_word(),
        ensures
            r == Self::from_word_spec(w),
    ;

    /// Decoding an encoded value of a word-sized type gives the value back.
    proof fn round_trip(self)
        requires
            Self::fits_word(),
        ensures
            Self::from_word_spec(self.to_word_spec()) == self,
    ;
}

/// What actually crosses the switch for a value of type `T`: either the
/// packed transfer word, or the value itself, handed over whole where the
/// unverified transport would hand over its address.
pub enum Regs<T> {
    /// The value's bits, packed into the transfer word.
    Word(usize),
    /// The value itself, transferred by ownership.
    Owned(T),
}

/// What [`to_regs`] produces for a given value.
pub open spec fn to_regs_spec<T: Transfer>(data: T) -> Regs<T> {
    if T::fits_word() {
        Regs::Word(data.to_word_spec())
    } else {
        Regs::Owned(data)
    }
}

/// What [`from_regs`] hands back for a given transfer.
pub open spec fn from_regs_spec<T: Transfer>(regs: Regs<T>) -> T {
    match regs {
        Regs::Word(w) => T::from_word_spec(w),
        Regs::Owned(data) => data,
    }
}

/// Marshals a value for a switch: word-sized values are packed into the
/// transfer word, larger or stricter-aligned ones cross by ownership. The
/// sender keeps no copy either way.
pub fn to_regs<T: Transfer>(data: T) -> (r: Regs<T>)
    ensures
        r == to_regs_spec(data),
{
    if T::fits() {
        Regs::Word(data.to_word())
    } else {
        Regs::Owned(data)
    }
}

/// Takes delivery of a marshalled value on the far side of a switch.
pub fn from_regs<T: Transfer>(regs: Regs<T>) -> (r: T)
    requires
        (regs matches Regs::Word(_)) ==> T::fits_word(),
    ensures
        r == from_regs_spec(regs),
{
    match regs {
        Regs::Word(w) => T::from_word(w),
        Regs::Owned(data) => data,
    }
}

/// Marshalling a value over and unmarshalling it on arrival is the
/// identity, whether the value travels packed in the transfer word or by
/// ownership.
pub proof fn lemma_transfer_identity<T: Transfer>(data: T)
    ensures
        from_regs_spec(to_regs_spec(data)) == data,
{
    if T::fits_word() {
        data.round_trip();
    }
}

impl Transfer for () {
    open spec fn fits_word() -> bool {
        true
    }

    open spec fn to_word_spec(self) -> usize {
        0
    }

    open spec fn from_word_spec(w: usize) -> Self {
        ()
    }

    fn fits() -> (b: bool) {
        true
    }

    fn to_word(self) -> (w: usize) {
        0
    }

    fn from_word(w: usize) -> (r: Self) {
        ()
    }

    proof fn round_trip(self) {
    }
}

impl Transfer for u8 {
    open spec fn fits_word() -> bool {
        true
    }

    open spec fn to_word_spec(self) -> usize {
        self as usize
    }

    open spec fn from_word_spec(w: usize) -> Self {
        w as u8
    }

    fn fits() -> (b: bool) {
        true
    }

    fn to_word(self) -> (w: usize) {
        self as usize
    }

    fn from_word(w: usize) -> (r: Self) {
        #[verifier::truncate] (w as u8)
    }

    proof fn round_trip(self) {
    }
}

impl Transfer for u16 {
    open spec fn fits_word() -> bool {
        true
    }

    open spec fn to_word_spec(self) -> usize {
        self as usize
    }

    open spec fn from_word_spec(w: usize) -> Self {
        w as u16
    }

    fn fits() -> (b: bool) {
        true
    }

    fn to_word(self) -> (w: usize) {
        self as usize
    }

    fn from_word(w: usize) -> (r: Self) {
        #[verifier::truncate] (w as u16)
    }

    proof fn round_trip(self) {
    }
}

impl Transfer for u32 {
    open spec fn fits_word() -> bool {
        true
    }

    open spec fn to_word_spec(self) -> usize {
        self as usize
    }

    open spec fn from_word_spec(w: usize) -> Self {
        w as u32
    }

    fn fits() -> (b: bool) {
        true
    }

    fn to_word(self) -> (w: usize) {
        self as usize
    }

    fn from_word(w: usize) -> (r: Self) {
        #[verifier::truncate] (w as u32)
    }

    proof fn round_trip(self) {
    }
}

impl Transfer for usize {
    open spec fn fits_word() -> bool {
        true
    }

    open spec fn to_word_spec(self) -> usize {
        self
    }

    open spec fn from_word_spec(w: usize) -> Self {
        w
    }

    fn fits() -> (b: bool) {
        true
    }

    fn to_word(self) -> (w: usize) {
        self
    }

    fn from_word(w: usize) -> (r: Self) {
        w
    }

    proof fn round_trip(self) {
    }
}

impl Transfer for u64 {
    /// A 64-bit value fits the transfer word only where the word itself is
    /// 64 bits wide.
    open spec fn fits_word() -> bool {
        usize::BITS == 64
    }

    open spec fn to_word_spec(self) -> usize {
        self as usize
    }

    open spec fn from_word_spec(w: usize) -> Self {
        w as u64
    }

    fn fits() -> (b: bool) {
        usize::BITS == 64
    }

    fn to_word(self) -> (w: usize) {
        #[verifier::truncate] (self as usize)
    }

    fn from_word(w: usize) -> (r: Self) {
        w as u64
    }

    proof fn round_trip(self) {
    }
}

impl Transfer for [usize; 2] {
    /// Two words do not fit one; values of this type cross by ownership.
    open spec fn fits_word() -> bool {
        false
    }

    open spec fn to_word_spec(self) -> usize {
        0
    }

    open spec fn from_word_spec(w: usize) -> Self {
        vstd::pervasive::arbitrary()
    }

    fn fits() -> (b: bool) {
        false
    }

    fn to_word(self) -> (w: usize) {
        0
    }

    fn from_word(w: usize) -> (r: Self) {
        [0, 0]
    }

    proof fn round_trip(self) {
    }
}

impl Transfer for [u64; 10] {
    /// Far wider than the transfer word; values of this type cross by
    /// ownership.
    open spec fn fits_word() -> bool {
        false
    }

    open spec fn to_word_spec(self) -> usize {
        0
    }

    open spec fn from_word_spec(w: usize) -> Self {
        vstd::pervasive::arbitrary()
    }

    fn fits() -> (b: bool) {
        false
    }

    fn to_word(self) -> (w: usize) {
        0
    }

    fn from_word(w: usize) -> (r: Self) {
        [0; 10]
    }

    proof fn round_trip(self) {
    }
}

} // verus!
