//! Row and item indices exchanged with native list controls (`NSInteger` on
//! the native side, `usize` on ours).

use vstd::prelude::*;

verus! {

/// The row a native list selects for a requested index: the index clamped to
/// the rows, where an index too large for `NSInteger` reads as negative and so
/// selects the first row; no selection at all when the list has no rows.
pub open spec fn clamped_native_row(index: usize, count: i64) -> Option<i64> {
    if count <= 0 {
        None
    } else if index > i64::MAX {
        Some(0)
    } else if index <= count - 1 {
        Some(index as i64)
    } else {
        Some((count - 1) as i64)
    }
}

/// The native row to select for a requested index among `count` rows.
pub fn clamp_native_row(index: usize, count: i64) -> (r: Option<i64>)
    ensures
        r == clamped_native_row(index, count),
{
    if count <= 0 {
        None
    } else if (index as u64) > (i64::MAX as u64) {
        Some(0)
    } else {
        let i = index as i64;
        if i <= count - 1 {
            Some(i)
        } else {
            Some(count - 1)
        }
    }
}

/// The item a native index reported by a list names, if it names one of `len`.
pub fn native_index_in(index: i64, len: usize) -> (r: Option<usize>)
    ensures
        r == (if 0 <= index && index < len { Some(index as usize) } else { None::<usize> }),
{
    if index < 0 {
        None
    } else if (index as u64) >= (len as u64) {
        None
    } else {
        Some(index as usize)
    }
}

/// A selected row always exists: it lies within the rows.
pub proof fn lemma_clamped_native_row_in_range(index: usize, count: i64)
    ensures
        clamped_native_row(index, count) matches Some(r) ==> 0 <= r < count,
        count > 0 ==> clamped_native_row(index, count) is Some,
        (count > 0 && index < count) ==> clamped_native_row(index, count) == Some(index as i64),
{
}

} // verus!
