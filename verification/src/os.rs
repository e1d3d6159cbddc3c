//! The guarded, OS-mapped stack: page-size discovery and the region layout.
//!
//! The anonymous mapping itself, the no-access protection of the guard page
//! and the final unmapping are system calls an unverified driver performs.
//! Everything the driver decides with is here: how large the mapping has to
//! be for a requested usable size, where the guard page and the usable range
//! sit inside it, and when a mapping is acceptable as a stack.

use vstd::prelude::*;

use crate::arch::STACK_ALIGNMENT;
use crate::stack::GuardedStack;
use crate::stack::Stack;

verus! {

/// The size of one guard page, and the granularity every OS-mapped stack is
/// laid out in.
pub const PAGE_UNIT: usize = 4096;

/// Relies on `page_size::get` of the page_size crate: the memory page size
/// of the running system, read once through `sysconf` and cached by that
/// crate for later calls.
#[verifier::external_body]
fn sys_page_size() -> (r: usize) {
    page_size::get()
}

/// Returns the page granularity used for OS-mapped stacks.
///
/// This is the system's page size whenever that is a positive multiple of
/// 4096 bytes — on every platform this library's ports cover it is — and
/// one 4096-byte unit otherwise, so that a guard page is never thinner than
/// the contract of [`GuardedStack`] demands.
pub fn page_size() -> (r: usize)
    ensures
        PAGE_UNIT <= r,
        r % PAGE_UNIT == 0,
{
    sanitize_page(sys_page_size())
}

/// The acceptance decision behind [`page_size`], on the value alone: a
/// reported page size is used as it stands when it is a positive multiple
/// of one 4096-byte unit, and replaced by that unit otherwise. Every
/// machine this library's ports cover reports such a multiple, so the
/// replacement only defends the guard-page contract against a degenerate
/// answer.
pub fn sanitize_page(raw: usize) -> (r: usize)
    ensures
        r == (if PAGE_UNIT <= raw && raw % PAGE_UNIT == 0 {
            raw
        } else {
            PAGE_UNIT
        }),
{
    if raw >= PAGE_UNIT && raw % PAGE_UNIT == 0 {
        raw
    } else {
        PAGE_UNIT
    }
}

/// The usable length an OS-mapped stack of requested size `size` gets:
/// a zero request is bumped to 16 KiB (the frame budget of the unwinder that
/// may have to run on the smallest stack), and the result is rounded up to
/// whole pages.
pub open spec fn usable_len(size: usize, page: usize) -> int
    recommends
        1 <= page,
{
    let wanted: int = if size == 0 {
        16384
    } else {
        size as int
    };
    ((wanted + page - 1) / (page as int)) * (page as int)
}

/// Computes the total mapping length for an OS-mapped stack of requested
/// size `size`: the usable length of [`usable_len`], plus one page for the
/// guard. The caller keeps requests small enough for this arithmetic to fit
/// an address.
pub fn os_stack_len(size: usize, page: usize) -> (r: usize)
    requires
        PAGE_UNIT <= page,
        size + 2 * page + 16384 <= usize::MAX,
    ensures
        r == usable_len(size, page) + page,
        (r as int) % (page as int) == 0,
        page <= usable_len(size, page),
        size <= usable_len(size, page),
        size == 0 ==> 16384 <= usable_len(size, page),
{
    let wanted = if size == 0 {
        16384
    } else {
        size
    };
    proof {
        lemma_round_up_to_page(wanted as int, page as int);
        lemma_mod_sum_zero(
            ((wanted + page - 1) / (page as int)) * (page as int),
            page as int,
            page as int,
        );
    }
    let rounded = ((wanted + page - 1) / page) * page;
    rounded + page
}

/// Rounding up to a page multiple lands on or above the requested length,
/// overshoots by less than one page, and is itself a page multiple.
proof fn lemma_round_up_to_page(wanted: int, page: int)
    requires
        1 <= page,
        0 <= wanted,
    ensures
        wanted <= ((wanted + page - 1) / page) * page < wanted + page,
        (((wanted + page - 1) / page) * page) % page == 0,
        1 <= wanted ==> page <= ((wanted + page - 1) / page) * page,
{
    let q = (wanted + page - 1) / page;
    assert(wanted <= q * page < wanted + page && (q * page) % page == 0 && (1 <= wanted
        ==> page <= q * page)) by (nonlinear_arith)
        requires 1 <= page, 0 <= wanted, q == (wanted + page - 1) / page
    ;
}

/// OsStack holds a guarded stack carved out of an anonymous memory mapping:
/// the lowest page of the mapping is the no-access guard, everything above
/// it is usable. The mapping and unmapping are the driver's; this value
/// describes the region and answers for its geometry.
#[derive(Clone, Copy, Debug)]
pub struct OsStack {
    /// The page-aligned start of the mapping (the bottom of the guard page).
    pub ptr: usize,
    /// The total length of the mapping, guard page included.
    pub len: usize,
    /// The page granularity the mapping was laid out with.
    pub page: usize,
}

impl OsStack {
    /// Describes a fresh anonymous mapping as a guarded stack.
    ///
    /// `ptr` and `len` are the mapping as the system returned it — mappings
    /// are page-aligned and page-granular — and `page` is the granularity of
    /// [`page_size`]. The lowest page must already have been made
    /// inaccessible; from here on the region above it is the usable stack.
    pub fn from_mapping(ptr: usize, len: usize, page: usize) -> (r: OsStack)
        requires
            PAGE_UNIT <= page,
            page % PAGE_UNIT == 0,
            (ptr as int) % (page as int) == 0,
            (len as int) % (page as int) == 0,
            1 <= ptr,
            2 * page <= len,
            ptr + len <= usize::MAX,
        ensures
            r.wf(),
            r == (OsStack { ptr, len, page }),
            r.limit_spec() == ptr + page,
            r.base_spec() == ptr + len,
    {
        OsStack { ptr, len, page }
    }
}

/// The sum of two multiples of `m` is a multiple of `m`.
proof fn lemma_mod_sum_zero(a: int, b: int, m: int)
    requires
        1 <= m,
        0 <= a,
        0 <= b,
        a % m == 0,
        b % m == 0,
    ensures
        (a + b) % m == 0,
{
    vstd::arithmetic::div_mod::lemma_add_mod_noop(a, b, m);
    vstd::arithmetic::div_mod::lemma_small_mod(0nat, m as nat);
}

/// A multiple of the page granularity keeps the platform stack alignment,
/// because the granularity is a multiple of one 4096-byte page.
proof fn lemma_page_multiples_are_aligned(v: int, page: int)
    requires
        PAGE_UNIT <= page,
        page % (PAGE_UNIT as int) == 0,
        0 <= v,
        v % page == 0,
    ensures
        v % (STACK_ALIGNMENT as int) == 0,
{
    vstd::arithmetic::div_mod::lemma_fundamental_div_mod(v, page);
    vstd::arithmetic::div_mod::lemma_fundamental_div_mod(page, PAGE_UNIT as int);
    let a = v / page;
    let b = page / (PAGE_UNIT as int);
    assert(v == (256 * b * a) * (STACK_ALIGNMENT as int)) by (nonlinear_arith)
        requires v == page * a, page == (PAGE_UNIT as int) * b
    ;
    vstd::arithmetic::div_mod::lemma_mod_multiples_basic(256 * b * a, STACK_ALIGNMENT as int);
}

impl Stack for OsStack {
    open spec fn base_spec(&self) -> usize {
        (self.ptr + self.len) as usize
    }

    open spec fn limit_spec(&self) -> usize {
        (self.ptr + self.page) as usize
    }

    open spec fn wf(&self) -> bool {
        &&& 1 <= self.ptr
        &&& PAGE_UNIT <= self.page
        &&& self.page % PAGE_UNIT == 0
        &&& (self.ptr as int) % (self.page as int) == 0
        &&& (self.len as int) % (self.page as int) == 0
        &&& 2 * self.page <= self.len
        &&& self.ptr + self.len <= usize::MAX
    }

    proof fn geometry(&self) {
        lemma_mod_sum_zero(self.ptr as int, self.len as int, self.page as int);
        lemma_mod_sum_zero(self.ptr as int, self.page as int, self.page as int);
        lemma_page_multiples_are_aligned((self.ptr + self.len) as int, self.page as int);
        lemma_page_multiples_are_aligned((self.ptr + self.page) as int, self.page as int);
    }

    fn base(&self) -> (r: usize) {
        self.ptr + self.len
    }

    fn limit(&self) -> (r: usize) {
        self.ptr + self.page
    }
}

/// The page below `limit` — the lowest page of the mapping — is no-access:
/// the driver protected it before the region was accepted as a stack.
impl GuardedStack for OsStack {

}

} // verus!
