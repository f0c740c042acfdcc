//! How positions in a reversed view correspond to positions in the slice
//! underneath.
//!
//! A view of length `len` shows the element at position `len - 1 - i` of its
//! slice at position `i`. A boundary between elements (the end of a range, the
//! point of a split) moves from `i` to `len - i`.

use vstd::prelude::*;
use core::ops::Range;

verus! {

/// Whether `index` names an element of a view of length `len`.
pub open spec fn index_in_bounds(len: nat, index: int) -> bool {
    0 <= index < len
}

/// Whether a view of length `len` can be split at `mid`.
pub open spec fn split_in_bounds(len: nat, mid: int) -> bool {
    0 <= mid <= len
}

/// Whether `start..end` is a range of a view of length `len`.
pub open spec fn range_in_bounds(len: nat, start: int, end: int) -> bool {
    0 <= start <= end <= len
}

/// The position in the slice of the element that a view of length `len`
/// shows at `index`.
pub open spec fn flipped_index(len: nat, index: int) -> int {
    len - 1 - index
}

/// The boundary in the slice that a view of length `len` shows at `fencepost`.
pub open spec fn flipped_fencepost(len: nat, fencepost: int) -> int {
    len - fencepost
}

/// Flips the position of an element.
pub fn flip_index(len: usize, index: usize) -> (flipped: usize)
    requires
        index_in_bounds(len as nat, index as int),
    ensures
        flipped == flipped_index(len as nat, index as int),
        index_in_bounds(len as nat, flipped as int),
{
    len - (index + 1)
}

/// Flips a boundary between elements.
pub fn flip_fencepost(len: usize, fencepost: usize) -> (flipped: usize)
    requires
        split_in_bounds(len as nat, fencepost as int),
    ensures
        flipped == flipped_fencepost(len as nat, fencepost as int),
        split_in_bounds(len as nat, flipped as int),
{
    len - fencepost
}

/// Flips a range: its two boundaries, which change places.
pub fn flip_range(len: usize, range: Range<usize>) -> (flipped: Range<usize>)
    requires
        range_in_bounds(len as nat, range.start as int, range.end as int),
    ensures
        flipped.start == flipped_fencepost(len as nat, range.end as int),
        flipped.end == flipped_fencepost(len as nat, range.start as int),
        range_in_bounds(len as nat, flipped.start as int, flipped.end as int),
        flipped.end - flipped.start == range.end - range.start,
{
    flip_fencepost(len, range.end)..flip_fencepost(len, range.start)
}

} // verus!
