//! Size arithmetic for the parameter and result areas.

use vstd::prelude::*;

verus! {

/// The smallest multiple of `align_value` that is not below `initial_size`.
pub open spec fn aligned_size(initial_size: int, align_value: int) -> int
    recommends
        0 <= initial_size,
        0 < align_value,
{
    if initial_size % align_value == 0 {
        initial_size
    } else {
        (initial_size / align_value + 1) * align_value
    }
}

/// Rounding up never shrinks a size, adds less than one alignment unit and
/// lands on a multiple of the alignment.
pub proof fn lemma_aligned_size_bounds(initial_size: int, align_value: int)
    requires
        0 <= initial_size,
        0 < align_value,
    ensures
        initial_size <= aligned_size(initial_size, align_value) < initial_size + align_value,
        aligned_size(initial_size, align_value) % align_value == 0,
{
    let q = initial_size / align_value;
    let r = initial_size % align_value;
    assert(initial_size == q * align_value + r) by {
        vstd::arithmetic::div_mod::lemma_fundamental_div_mod(initial_size, align_value);
    }
    if r != 0 {
        assert((q + 1) * align_value == q * align_value + align_value) by (nonlinear_arith);
        assert(((q + 1) * align_value) % align_value == 0) by {
            vstd::arithmetic::div_mod::lemma_mod_multiples_basic(q + 1, align_value);
        }
    }
}

/// Rounds `initial_size` up to the next multiple of `align_value`, so that
/// 2000 aligned to 1024 gives 2048.
pub fn align_size_to(initial_size: usize, align_value: usize) -> (aligned: usize)
    requires
        align_value > 0,
        aligned_size(initial_size as int, align_value as int) <= usize::MAX,
    ensures
        aligned == aligned_size(initial_size as int, align_value as int),
{
    let ceil: usize = initial_size / align_value;
    let remainder: usize = initial_size % align_value;
    if remainder == 0 {
        initial_size
    } else {
        proof {
            lemma_aligned_size_bounds(initial_size as int, align_value as int);
            assert((ceil + 1) * align_value == aligned_size(initial_size as int, align_value as int));
        }
        (ceil + 1) * align_value
    }
}

/// The largest size that one area may have.
pub open spec fn max_area_size() -> int {
    isize::MAX as int
}

/// The sum of the sizes.
pub open spec fn total_size(sizes: Seq<usize>) -> int
    decreases sizes.len(),
{
    if sizes.len() == 0 {
        0
    } else {
        total_size(sizes.drop_last()) + sizes.last()
    }
}

/// The sum of the first `count` sizes: the offset of the slot at that
/// position among slots laid out one after the other.
pub open spec fn offset_of(sizes: Seq<usize>, count: int) -> int {
    total_size(sizes.take(count))
}

/// The sizes before a position sum to no more than all of them, and each
/// further size adds itself.
pub proof fn lemma_offset_of_step(sizes: Seq<usize>, count: int)
    requires
        0 <= count < sizes.len(),
    ensures
        offset_of(sizes, 0) == 0,
        offset_of(sizes, count + 1) == offset_of(sizes, count) + sizes[count],
        0 <= offset_of(sizes, count) <= offset_of(sizes, count + 1),
        offset_of(sizes, count + 1) <= total_size(sizes),
        offset_of(sizes, sizes.len() as int) == total_size(sizes),
    decreases sizes.len() - count,
{
    assert(sizes.take(0).len() == 0);
    assert(sizes.take(count + 1).drop_last() =~= sizes.take(count));
    assert(sizes.take(sizes.len() as int) =~= sizes);
    lemma_total_size_nonnegative(sizes.take(count));
    if count + 1 < sizes.len() {
        lemma_offset_of_step(sizes, count + 1);
    }
}

/// A sum of sizes is never negative.
pub proof fn lemma_total_size_nonnegative(sizes: Seq<usize>)
    ensures
        0 <= total_size(sizes),
    decreases sizes.len(),
{
    if sizes.len() > 0 {
        lemma_total_size_nonnegative(sizes.drop_last());
    }
}

/// Rounds up like `align_size_to`, and gives `None` where the result would
/// exceed the largest area size.
pub fn align_checked(initial_size: usize, align_value: usize) -> (aligned: Option<usize>)
    requires
        0 < align_value <= 256,
    ensures
        aligned == (if aligned_size(initial_size as int, align_value as int) <= max_area_size() {
            Some(aligned_size(initial_size as int, align_value as int) as usize)
        } else {
            None
        }),
{
    proof {
        lemma_aligned_size_bounds(initial_size as int, align_value as int);
    }
    if initial_size > isize::MAX as usize {
        return None;
    }
    let aligned = align_size_to(initial_size, align_value);
    if aligned > isize::MAX as usize {
        None
    } else {
        Some(aligned)
    }
}

/// Offsets grow with the position.
pub proof fn lemma_offset_of_monotonic(sizes: Seq<usize>, low: int, high: int)
    requires
        0 <= low <= high <= sizes.len(),
    ensures
        0 <= offset_of(sizes, low) <= offset_of(sizes, high) <= total_size(sizes),
    decreases high - low,
{
    if low < high {
        lemma_offset_of_step(sizes, low);
        lemma_offset_of_monotonic(sizes, low + 1, high);
    } else if high < sizes.len() {
        lemma_offset_of_step(sizes, high);
    } else {
        assert(sizes.take(high) =~= sizes);
        lemma_total_size_nonnegative(sizes);
    }
}

} // verus!
