//! Sliders (`NSSlider`): the tick-mark settings handed to the native slider.
//! The range and value are held and normalised by the platform glue.

use vstd::prelude::*;

verus! {

/// The tick marks of a slider as the native slider takes them: the count
/// (zero without tick marks, the count converted to `i64` as a cast does) and
/// whether values snap to them, which they do only where there are tick marks.
pub fn slider_ticks(tick_marks: Option<usize>, snap_to_ticks: bool) -> (r: (i64, bool))
    ensures
        r.0 == (match tick_marks {
            Some(n) => n as i64,
            None => 0i64,
        }),
        r.1 == (snap_to_ticks && tick_marks is Some),
{
    let count: i64 = match tick_marks {
        Some(n) => n as i64,
        None => 0,
    };
    (count, snap_to_ticks && tick_marks.is_some())
}

} // verus!
