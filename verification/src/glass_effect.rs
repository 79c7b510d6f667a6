//! Glass effect views (`NSGlassEffectView`): the native value of the glass style.

use vstd::prelude::*;

verus! {

/// Glass style.
#[derive(Clone, Copy, Debug, PartialEq, Eq, Structural)]
pub enum NativeGlassEffectStyle {
    /// Standard glass.
    Regular,
    /// High transparency, minimal effect.
    Clear,
}

impl Default for NativeGlassEffectStyle {
    fn default() -> (s: Self)
        ensures
            s == NativeGlassEffectStyle::Regular,
    {
        NativeGlassEffectStyle::Regular
    }
}

/// The native glass style value.
pub open spec fn glass_style_raw(s: NativeGlassEffectStyle) -> i64 {
    match s {
        NativeGlassEffectStyle::Regular => 0,
        NativeGlassEffectStyle::Clear => 1,
    }
}

impl NativeGlassEffectStyle {
    /// The native glass style value.
    pub fn to_raw(self) -> (r: i64)
        ensures
            r == glass_style_raw(self),
    {
        match self {
            NativeGlassEffectStyle::Regular => 0,
            NativeGlassEffectStyle::Clear => 1,
        }
    }
}

} // verus!
