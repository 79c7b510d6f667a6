//! Progress indicators (`NSProgressIndicator`): the native value of the style,
//! the size it implies and how the indicator runs.

use vstd::prelude::*;

verus! {

/// Bar or spinner.
#[derive(Clone, Copy, Debug, PartialEq, Eq, Structural)]
pub enum NativeProgressStyle {
    /// A horizontal bar.
    Bar,
    /// A spinning wheel.
    Spinner,
}

impl Default for NativeProgressStyle {
    fn default() -> (s: Self)
        ensures
            s == NativeProgressStyle::Bar,
    {
        NativeProgressStyle::Bar
    }
}

/// The `NSProgressIndicatorStyle` value.
pub open spec fn progress_style_raw(s: NativeProgressStyle) -> i64 {
    match s {
        NativeProgressStyle::Bar => 0,
        NativeProgressStyle::Spinner => 1,
    }
}

impl NativeProgressStyle {
    /// The `NSProgressIndicatorStyle` value.
    pub fn to_raw(self) -> (r: i64)
        ensures
            r == progress_style_raw(self),
    {
        match self {
            NativeProgressStyle::Bar => 0,
            NativeProgressStyle::Spinner => 1,
        }
    }
}

/// Width and height a progress indicator requests where the style leaves them
/// automatic: a 32 by 32 spinner, or a 200 by 20 bar.
pub fn progress_intrinsic_size(style: NativeProgressStyle) -> (size: (u64, u64))
    ensures
        size == (match style {
            NativeProgressStyle::Spinner => (32u64, 32u64),
            NativeProgressStyle::Bar => (200u64, 20u64),
        }),
{
    match style {
        NativeProgressStyle::Spinner => (32, 32),
        NativeProgressStyle::Bar => (200, 20),
    }
}

/// How the native indicator runs: indeterminate when the element has no value
/// or is a spinner, and animating exactly when indeterminate.
#[derive(Clone, Copy, Debug, PartialEq, Eq, Structural)]
pub struct ProgressMode {
    pub indeterminate: bool,
    pub animating: bool,
}

/// The mode of an indicator with or without a value, in the given style.
pub fn progress_mode(has_value: bool, style: NativeProgressStyle) -> (m: ProgressMode)
    ensures
        m.indeterminate == (!has_value || style == NativeProgressStyle::Spinner),
        m.animating == m.indeterminate,
{
    let spinner = match style {
        NativeProgressStyle::Spinner => true,
        NativeProgressStyle::Bar => false,
    };
    let indeterminate = !has_value || spinner;
    let animating = indeterminate || spinner;
    ProgressMode { indeterminate, animating }
}

} // verus!
