//! Intrinsic sizes, in whole pixels, that elements request when their style
//! leaves width or height automatic.

use vstd::prelude::*;
use vstd::utf8::encode_utf8;

verus! {

/// The number of UTF-8 bytes of a label.
pub open spec fn byte_len(label: Seq<char>) -> nat {
    encode_utf8(label).len()
}

/// `x`, or `u64::MAX` where `x` does not fit.
pub open spec fn saturate(x: int) -> u64 {
    if x > u64::MAX { u64::MAX } else { x as u64 }
}

/// Width of a control sized to its label: eight pixels per label byte plus
/// `padding`, and never below `min`.
pub open spec fn label_width(len: nat, padding: nat, min: u64) -> u64 {
    let w = saturate((len * 8 + padding) as int);
    if w >= min { w } else { min }
}

/// Width of a control sized to its label, as [`label_width`] states it over the
/// label's UTF-8 length.
pub fn fit_label_width(label: &str, padding: u64, min: u64) -> (w: u64)
    ensures
        w == label_width(byte_len(label@), padding as nat, min),
{
    let len = label.as_bytes().len();
    let wide: u128 = (len as u128) * 8 + (padding as u128);
    let w: u64 = if wide > (u64::MAX as u128) { u64::MAX } else { wide as u64 };
    if w >= min { w } else { min }
}

} // verus!
