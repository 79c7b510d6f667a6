//! Steppers (`NSStepper`): the steps that create or update the native stepper
//! on each paint. The stepper's numbers (range, value and increment) are held
//! and compared by the platform glue; the library decides what is written.

use vstd::prelude::*;
use crate::paint_plan::{push_if, lemma_fold_push, lemma_fold_push_if, lemma_fold_single};

verus! {

/// The settings of a stepper that are compared between paints.
#[derive(Clone, Copy, Debug, PartialEq, Eq, Structural)]
pub struct StepperSettings {
    /// Whether values wrap around at the ends of the range.
    pub wraps: bool,
    /// Whether press-and-hold repeats.
    pub autorepeat: bool,
}

/// Which of the stepper's numbers differ from those remembered from the
/// previous paint, as the glue compared them.
#[derive(Clone, Copy, Debug, PartialEq, Eq, Structural)]
pub struct StepperNumberChanges {
    pub min: bool,
    pub max: bool,
    pub value: bool,
    pub increment: bool,
}

/// One operation on the native stepper, performed in order by the glue.
#[derive(Clone, Copy, Debug, PartialEq, Eq, Structural)]
pub enum StepperStep {
    /// Create a new native stepper with the element's range, value and increment.
    Create,
    /// Write the lower end of the range.
    SetMin,
    /// Write the upper end of the range.
    SetMax,
    /// Write the value.
    SetValue,
    /// Write the increment.
    SetIncrement,
    /// Write whether values wrap.
    SetWraps(bool),
    /// Write whether press-and-hold repeats.
    SetAutorepeat(bool),
    /// Write the enabled state.
    SetEnabled(bool),
    /// Add the stepper to the parent view.
    Attach,
    /// Move the stepper to the element's bounds.
    SetFrame,
    /// Release the action target bound on an earlier paint.
    ReleaseAction,
    /// Bind the element's listener as the stepper's action.
    BindAction,
}

/// The steps of one paint, given the settings remembered from the previous one
/// (none for a stepper not yet created).
pub open spec fn stepper_steps(
    prev: Option<StepperSettings>,
    desired: StepperSettings,
    numbers: StepperNumberChanges,
    disabled: bool,
    has_listener: bool,
) -> Seq<StepperStep> {
    let wraps = StepperStep::SetWraps(desired.wraps);
    let autorepeat = StepperStep::SetAutorepeat(desired.autorepeat);
    let enabled = StepperStep::SetEnabled(!disabled);
    match prev {
        Some(p) => {
            let s1 = push_if(seq![StepperStep::SetFrame], numbers.min, StepperStep::SetMin);
            let s2 = push_if(s1, numbers.max, StepperStep::SetMax);
            let s3 = push_if(s2, numbers.value, StepperStep::SetValue);
            let s4 = push_if(s3, numbers.increment, StepperStep::SetIncrement);
            let s5 = push_if(s4, p.wraps != desired.wraps, wraps);
            let s6 = push_if(s5, p.autorepeat != desired.autorepeat, autorepeat).push(enabled);
            push_if(push_if(s6, has_listener, StepperStep::ReleaseAction), has_listener, StepperStep::BindAction)
        },
        None => {
            let s = seq![
                StepperStep::Create,
                wraps,
                autorepeat,
                enabled,
                StepperStep::Attach,
                StepperStep::SetFrame,
            ];
            push_if(s, has_listener, StepperStep::BindAction)
        },
    }
}

/// The steps of one paint of a stepper and the settings to remember for the
/// next one.
pub struct StepperPaint {
    pub steps: Vec<StepperStep>,
    pub settings: StepperSettings,
}

/// Plans one paint of a stepper: the steps that bring the native stepper (new,
/// or remembered as `prev`) in line with the element, and the settings the
/// stepper shows afterwards, to remember for the next paint.
pub fn stepper_paint(
    prev: Option<StepperSettings>,
    desired: StepperSettings,
    numbers: StepperNumberChanges,
    disabled: bool,
    has_listener: bool,
) -> (p: StepperPaint)
    ensures
        p.steps@ == stepper_steps(prev, desired, numbers, disabled, has_listener),
        p.settings == desired,
{
    let mut steps: Vec<StepperStep> = Vec::new();
    match prev {
        Some(p) => {
            steps.push(StepperStep::SetFrame);
            if numbers.min {
                steps.push(StepperStep::SetMin);
            }
            if numbers.max {
                steps.push(StepperStep::SetMax);
            }
            if numbers.value {
                steps.push(StepperStep::SetValue);
            }
            if numbers.increment {
                steps.push(StepperStep::SetIncrement);
            }
            if p.wraps != desired.wraps {
                steps.push(StepperStep::SetWraps(desired.wraps));
            }
            if p.autorepeat != desired.autorepeat {
                steps.push(StepperStep::SetAutorepeat(desired.autorepeat));
            }
            steps.push(StepperStep::SetEnabled(!disabled));
            if has_listener {
                steps.push(StepperStep::ReleaseAction);
                steps.push(StepperStep::BindAction);
            }
        },
        None => {
            steps.push(StepperStep::Create);
            steps.push(StepperStep::SetWraps(desired.wraps));
            steps.push(StepperStep::SetAutorepeat(desired.autorepeat));
            steps.push(StepperStep::SetEnabled(!disabled));
            steps.push(StepperStep::Attach);
            steps.push(StepperStep::SetFrame);
            if has_listener {
                steps.push(StepperStep::BindAction);
            }
        },
    }
    assert(steps@ =~= stepper_steps(prev, desired, numbers, disabled, has_listener));
    StepperPaint { steps, settings: desired }
}

/// What a native stepper shows: whether each of its numbers is the element's,
/// its flags, and whether the element's listener is its bound action.
pub struct StepperNative {
    pub min_current: bool,
    pub max_current: bool,
    pub value_current: bool,
    pub increment_current: bool,
    pub wraps: bool,
    pub autorepeat: bool,
    pub enabled: bool,
    pub listener_bound: bool,
}

/// What one step does to the native stepper. A new stepper is created with the
/// element's numbers.
pub open spec fn stepper_apply(n: StepperNative, step: StepperStep) -> StepperNative {
    match step {
        StepperStep::Create => StepperNative {
            min_current: true,
            max_current: true,
            value_current: true,
            increment_current: true,
            ..n
        },
        StepperStep::SetMin => StepperNative { min_current: true, ..n },
        StepperStep::SetMax => StepperNative { max_current: true, ..n },
        StepperStep::SetValue => StepperNative { value_current: true, ..n },
        StepperStep::SetIncrement => StepperNative { increment_current: true, ..n },
        StepperStep::SetWraps(w) => StepperNative { wraps: w, ..n },
        StepperStep::SetAutorepeat(a) => StepperNative { autorepeat: a, ..n },
        StepperStep::SetEnabled(e) => StepperNative { enabled: e, ..n },
        StepperStep::ReleaseAction => StepperNative { listener_bound: false, ..n },
        StepperStep::BindAction => StepperNative { listener_bound: true, ..n },
        _ => n,
    }
}

/// The native stepper after the steps, in order.
pub open spec fn stepper_apply_all(n: StepperNative, steps: Seq<StepperStep>) -> StepperNative {
    steps.fold_left(n, |m: StepperNative, s: StepperStep| stepper_apply(m, s))
}

/// After the steps of a paint, the native stepper shows the element's numbers,
/// flags and enabled state: a new stepper whatever it started with, an existing
/// one when it showed the remembered settings and the numbers the glue found
/// unchanged. A listener the element has is bound as the action.
pub proof fn lemma_stepper_paint_applies(
    prev: Option<StepperSettings>,
    desired: StepperSettings,
    numbers: StepperNumberChanges,
    disabled: bool,
    has_listener: bool,
    start: StepperNative,
)
    requires
        prev is Some ==> {
            &&& start.wraps == prev->0.wraps
            &&& start.autorepeat == prev->0.autorepeat
            &&& start.min_current == !numbers.min
            &&& start.max_current == !numbers.max
            &&& start.value_current == !numbers.value
            &&& start.increment_current == !numbers.increment
        },
    ensures
        ({
            let end = stepper_apply_all(start, stepper_steps(prev, desired, numbers, disabled, has_listener));
            &&& end.min_current && end.max_current && end.value_current && end.increment_current
            &&& end.wraps == desired.wraps
            &&& end.autorepeat == desired.autorepeat
            &&& end.enabled == !disabled
            &&& has_listener ==> end.listener_bound
        }),
{
    let f = |m: StepperNative, s: StepperStep| stepper_apply(m, s);
    let wraps = StepperStep::SetWraps(desired.wraps);
    let autorepeat = StepperStep::SetAutorepeat(desired.autorepeat);
    let enabled = StepperStep::SetEnabled(!disabled);
    match prev {
        Some(p) => {
            let s0 = seq![StepperStep::SetFrame];
            lemma_fold_single(StepperStep::SetFrame, start, f);
            lemma_fold_push_if(s0, numbers.min, StepperStep::SetMin, start, f);
            let s1 = push_if(s0, numbers.min, StepperStep::SetMin);
            lemma_fold_push_if(s1, numbers.max, StepperStep::SetMax, start, f);
            let s2 = push_if(s1, numbers.max, StepperStep::SetMax);
            lemma_fold_push_if(s2, numbers.value, StepperStep::SetValue, start, f);
            let s3 = push_if(s2, numbers.value, StepperStep::SetValue);
            lemma_fold_push_if(s3, numbers.increment, StepperStep::SetIncrement, start, f);
            let s4 = push_if(s3, numbers.increment, StepperStep::SetIncrement);
            lemma_fold_push_if(s4, p.wraps != desired.wraps, wraps, start, f);
            let s5 = push_if(s4, p.wraps != desired.wraps, wraps);
            lemma_fold_push_if(s5, p.autorepeat != desired.autorepeat, autorepeat, start, f);
            let s5a = push_if(s5, p.autorepeat != desired.autorepeat, autorepeat);
            lemma_fold_push(s5a, enabled, start, f);
            let s6 = s5a.push(enabled);
            lemma_fold_push_if(s6, has_listener, StepperStep::ReleaseAction, start, f);
            let s7 = push_if(s6, has_listener, StepperStep::ReleaseAction);
            lemma_fold_push_if(s7, has_listener, StepperStep::BindAction, start, f);
        },
        None => {
            let s0 = seq![StepperStep::Create];
            lemma_fold_single(StepperStep::Create, start, f);
            lemma_fold_push(s0, wraps, start, f);
            let s1 = s0.push(wraps);
            lemma_fold_push(s1, autorepeat, start, f);
            let s2 = s1.push(autorepeat);
            lemma_fold_push(s2, enabled, start, f);
            let s3 = s2.push(enabled);
            lemma_fold_push(s3, StepperStep::Attach, start, f);
            let s4 = s3.push(StepperStep::Attach);
            lemma_fold_push(s4, StepperStep::SetFrame, start, f);
            let s5 = s4.push(StepperStep::SetFrame);
            assert(s5 =~= seq![
                StepperStep::Create,
                wraps,
                autorepeat,
                enabled,
                StepperStep::Attach,
                StepperStep::SetFrame,
            ]);
            lemma_fold_push_if(s5, has_listener, StepperStep::BindAction, start, f);
        },
    }
}

/// A repaint of a stepper whose settings and numbers did not change, without a
/// listener, only moves it and writes its enabled state.
pub proof fn lemma_stepper_repaint_unchanged(settings: StepperSettings, disabled: bool)
    ensures
        stepper_steps(
            Some(settings),
            settings,
            StepperNumberChanges { min: false, max: false, value: false, increment: false },
            disabled,
            false,
        ) == seq![StepperStep::SetFrame, StepperStep::SetEnabled(!disabled)],
{
}

} // verus!
