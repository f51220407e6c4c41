//! Sizing a remote allocation: its alignment and its length.
use vstd::prelude::*;

verus! {

/// The alignment requested for a remote allocation holding values aligned
/// to `type_align`: at least the system's allocation granularity.
pub fn allocation_alignment(type_align: usize, granularity: usize) -> (a: usize)
    ensures
        a == if type_align >= granularity { type_align } else { granularity },
        a >= type_align,
        a >= granularity,
{
    if type_align >= granularity { type_align } else { granularity }
}

/// `size` rounded up to a whole number of pages.
pub open spec fn round_up(size: nat, page: nat) -> nat
    recommends
        page > 0,
{
    if size % page == 0 { size } else { (size + (page - size % page)) as nat }
}

/// The length of a remote allocation for `size` bytes: the next multiple of
/// the page size (allocations are made in whole pages).
pub fn allocation_size(size: usize, page_size: usize) -> (n: usize)
    requires
        page_size > 0,
        round_up(size as nat, page_size as nat) <= usize::MAX,
    ensures
        n == round_up(size as nat, page_size as nat),
        n % page_size == 0,
        size <= n < size + page_size,
{
    let r = size % page_size;
    if r == 0 {
        size
    } else {
        let n = size + (page_size - r);
        assert((size + (page_size - size % page_size)) % (page_size as int) == 0) by (nonlinear_arith)
            requires
                page_size > 0,
                size % page_size != 0;
        n
    }
}

} // verus!
