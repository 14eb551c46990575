use vstd::prelude::*;

use crate::errors::MemoryBoundsError;
use vstd::arithmetic::div_mod::{
    lemma_div_is_ordered, lemma_div_multiples_vanish, lemma_fundamental_div_mod,
    lemma_mod_division_less_than_divisor,
};
use vstd::arithmetic::mul::lemma_mul_inequality;

verus! {

/// Division rounding towards positive infinity.
pub open spec fn ceil_div(x: int, d: int) -> int
    recommends
        x >= 0,
        d >= 1,
{
    if x % d == 0 {
        x / d
    } else {
        x / d + 1
    }
}

/// The end address of an access, with additions past the address space
/// clamped to the largest address instead of wrapping around.
pub open spec fn saturated_end(pointer: u32, length: u32) -> int {
    if pointer + length > u32::MAX {
        u32::MAX as int
    } else {
        pointer + length
    }
}

/// The page-granularity bounds policy: an access is permitted exactly when
/// the last page it touches lies within the memory's current page count.
/// The end address saturates, so a pointer/length pair that would overflow
/// the address space lands on the highest page instead of wrapping to a
/// small, spuriously valid one.
pub open spec fn access_allowed(pointer: u32, length: u32, pages: u32, page_size: u32) -> bool
    recommends
        page_size >= 1,
{
    ceil_div(saturated_end(pointer, length), page_size as int) <= pages
}

/// `ceil_div(x, d) <= p` says exactly that `x` fits into `p` blocks of `d`.
pub proof fn lemma_ceil_div_le(x: int, d: int, p: int)
    requires
        x >= 0,
        d >= 1,
        p >= 0,
    ensures
        ceil_div(x, d) <= p <==> x <= p * d,
{
    lemma_fundamental_div_mod(x, d);
    lemma_mod_division_less_than_divisor(x, d);
    assert(x == d * (x / d) + x % d);
    assert(0 <= x % d < d);
    if ceil_div(x, d) <= p {
        if x % d == 0 {
            lemma_mul_inequality(x / d, p, d);
            assert(d * (x / d) == (x / d) * d) by (nonlinear_arith);
        } else {
            lemma_mul_inequality(x / d + 1, p, d);
            assert((x / d + 1) * d == d * (x / d) + d) by (nonlinear_arith);
        }
        assert(x <= p * d);
    }
    if x <= p * d {
        lemma_div_is_ordered(x, p * d, d);
        lemma_div_multiples_vanish(p, d);
        assert(p * d == d * p) by (nonlinear_arith);
        assert(x / d <= p);
        if x % d != 0 && x / d + 1 > p {
            lemma_mul_inequality(p, x / d, d);
            assert(d * (x / d) == (x / d) * d) by (nonlinear_arith);
            assert(false);
        }
        assert(ceil_div(x, d) <= p);
    }
}

/// Decides whether a guest memory access of `length` bytes starting at
/// `pointer` stays within a linear memory of `pages` pages of `page_size`
/// bytes each. This check is consulted before every guest memory read or
/// write; the raw access primitives themselves check nothing.
pub fn check(pointer: u32, length: u32, pages: u32, page_size: u32) -> (r: Result<
    (),
    MemoryBoundsError,
>)
    requires
        page_size >= 1,
    ensures
        r is Ok <==> access_allowed(pointer, length, pages, page_size),
        r is Err ==> r == Err::<(), MemoryBoundsError>(MemoryBoundsError),
{
    let sum: u64 = pointer as u64 + length as u64;
    let end: u64 = if sum > u32::MAX as u64 {
        u32::MAX as u64
    } else {
        sum
    };
    let ps: u64 = page_size as u64;
    let full: u64 = end / ps;
    let last_page: u64 = if end % ps == 0 {
        full
    } else {
        full + 1
    };
    if last_page <= pages as u64 {
        Ok(())
    } else {
        Err(MemoryBoundsError)
    }
}

/// For pairs whose end address does not overflow, the policy is exactly
/// "the access ends within the first `pages * page_size` bytes".
pub proof fn lemma_check_exact(pointer: u32, length: u32, pages: u32, page_size: u32)
    requires
        page_size >= 1,
        pointer + length <= u32::MAX,
    ensures
        access_allowed(pointer, length, pages, page_size) <==> pointer + length <= pages
            * page_size,
{
    lemma_ceil_div_le(pointer + length, page_size as int, pages as int);
}

/// An access that ends exactly on the memory's last byte boundary is allowed.
pub proof fn lemma_check_boundary(pointer: u32, length: u32, pages: u32, page_size: u32)
    requires
        page_size >= 1,
        pointer + length <= u32::MAX,
        pointer + length == pages * page_size,
    ensures
        access_allowed(pointer, length, pages, page_size),
{
    lemma_check_exact(pointer, length, pages, page_size);
}

/// A pointer/length pair whose sum overflows the address space is rejected,
/// provided the memory itself does not span the whole address space.
pub proof fn lemma_check_overflow_rejected(pointer: u32, length: u32, pages: u32, page_size: u32)
    requires
        page_size >= 1,
        pointer + length > u32::MAX,
        pages * page_size < u32::MAX,
    ensures
        !access_allowed(pointer, length, pages, page_size),
{
    lemma_ceil_div_le(u32::MAX as int, page_size as int, pages as int);
}

} // verus!
