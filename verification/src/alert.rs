//! Alerts (`NSAlert`): the native value of the alert style.

use vstd::prelude::*;

verus! {

/// Alert style.
#[derive(Clone, Copy, Debug, PartialEq, Eq, Structural)]
pub enum NativeAlertStyleRaw {
    /// A warning.
    Warning,
    /// Information.
    Informational,
    /// A critical alert.
    Critical,
}

/// The `NSAlertStyle` value.
pub open spec fn alert_style_raw(s: NativeAlertStyleRaw) -> u64 {
    match s {
        NativeAlertStyleRaw::Warning => 0,
        NativeAlertStyleRaw::Informational => 1,
        NativeAlertStyleRaw::Critical => 2,
    }
}

impl NativeAlertStyleRaw {
    /// The `NSAlertStyle` value.
    pub fn to_raw(self) -> (r: u64)
        ensures
            r == alert_style_raw(self),
    {
        match self {
            NativeAlertStyleRaw::Warning => 0,
            NativeAlertStyleRaw::Informational => 1,
            NativeAlertStyleRaw::Critical => 2,
        }
    }
}

} // verus!
