//! Visual effect views (`NSVisualEffectView`): the native values of material,
//! blending mode and state, and the steps that create or update the native view
//! on each paint.

use vstd::prelude::*;
use crate::paint_plan::{OpaqueSetting, push_if, lemma_fold_push, lemma_fold_push_if, lemma_fold_single};

verus! {

/// Vibrancy material.
#[derive(Clone, Copy, Debug, PartialEq, Eq, Structural)]
pub enum NativeVisualEffectMaterial {
    /// A window's title bar.
    Titlebar,
    /// Selected content.
    Selection,
    /// Menus.
    Menu,
    /// Popovers.
    Popover,
    /// A source-list sidebar.
    Sidebar,
    /// A header view.
    HeaderView,
    /// A sheet.
    Sheet,
    /// A window background.
    WindowBackground,
    /// A HUD window.
    HudWindow,
    /// Full-screen interface.
    FullScreenUI,
    /// A tooltip.
    ToolTip,
    /// Content backgrounds.
    ContentBackground,
    /// What lies under the window.
    UnderWindow,
    /// What lies under the page.
    UnderPage,
}

impl Default for NativeVisualEffectMaterial {
    fn default() -> (s: Self)
        ensures
            s == NativeVisualEffectMaterial::Sidebar,
    {
        NativeVisualEffectMaterial::Sidebar
    }
}

/// The `NSVisualEffectMaterial` value.
pub open spec fn visual_effect_material_raw(s: NativeVisualEffectMaterial) -> i64 {
    match s {
        NativeVisualEffectMaterial::Titlebar => 3,
        NativeVisualEffectMaterial::Selection => 4,
        NativeVisualEffectMaterial::Menu => 5,
        NativeVisualEffectMaterial::Popover => 6,
        NativeVisualEffectMaterial::Sidebar => 7,
        NativeVisualEffectMaterial::HeaderView => 10,
        NativeVisualEffectMaterial::Sheet => 11,
        NativeVisualEffectMaterial::WindowBackground => 12,
        NativeVisualEffectMaterial::HudWindow => 13,
        NativeVisualEffectMaterial::FullScreenUI => 15,
        NativeVisualEffectMaterial::ToolTip => 17,
        NativeVisualEffectMaterial::ContentBackground => 18,
        NativeVisualEffectMaterial::UnderWindow => 21,
        NativeVisualEffectMaterial::UnderPage => 22,
    }
}

impl NativeVisualEffectMaterial {
    /// The `NSVisualEffectMaterial` value.
    pub fn to_raw(self) -> (r: i64)
        ensures
            r == visual_effect_material_raw(self),
    {
        match self {
            NativeVisualEffectMaterial::Titlebar => 3,
            NativeVisualEffectMaterial::Selection => 4,
            NativeVisualEffectMaterial::Menu => 5,
            NativeVisualEffectMaterial::Popover => 6,
            NativeVisualEffectMaterial::Sidebar => 7,
            NativeVisualEffectMaterial::HeaderView => 10,
            NativeVisualEffectMaterial::Sheet => 11,
            NativeVisualEffectMaterial::WindowBackground => 12,
            NativeVisualEffectMaterial::HudWindow => 13,
            NativeVisualEffectMaterial::FullScreenUI => 15,
            NativeVisualEffectMaterial::ToolTip => 17,
            NativeVisualEffectMaterial::ContentBackground => 18,
            NativeVisualEffectMaterial::UnderWindow => 21,
            NativeVisualEffectMaterial::UnderPage => 22,
        }
    }
}

/// What the effect blends with.
#[derive(Clone, Copy, Debug, PartialEq, Eq, Structural)]
pub enum NativeVisualEffectBlendingMode {
    /// Content behind the window.
    BehindWindow,
    /// Content within the window.
    WithinWindow,
}

impl Default for NativeVisualEffectBlendingMode {
    fn default() -> (s: Self)
        ensures
            s == NativeVisualEffectBlendingMode::BehindWindow,
    {
        NativeVisualEffectBlendingMode::BehindWindow
    }
}

/// The `NSVisualEffectBlendingMode` value.
pub open spec fn visual_effect_blending_raw(s: NativeVisualEffectBlendingMode) -> i64 {
    match s {
        NativeVisualEffectBlendingMode::BehindWindow => 0,
        NativeVisualEffectBlendingMode::WithinWindow => 1,
    }
}

impl NativeVisualEffectBlendingMode {
    /// The `NSVisualEffectBlendingMode` value.
    pub fn to_raw(self) -> (r: i64)
        ensures
            r == visual_effect_blending_raw(self),
    {
        match self {
            NativeVisualEffectBlendingMode::BehindWindow => 0,
            NativeVisualEffectBlendingMode::WithinWindow => 1,
        }
    }
}

/// When the effect is active.
#[derive(Clone, Copy, Debug, PartialEq, Eq, Structural)]
pub enum NativeVisualEffectState {
    /// As the window is active.
    FollowsWindowActiveState,
    /// Always.
    Active,
    /// Never.
    Inactive,
}

impl Default for NativeVisualEffectState {
    fn default() -> (s: Self)
        ensures
            s == NativeVisualEffectState::FollowsWindowActiveState,
    {
        NativeVisualEffectState::FollowsWindowActiveState
    }
}

/// The `NSVisualEffectState` value.
pub open spec fn visual_effect_state_raw(s: NativeVisualEffectState) -> i64 {
    match s {
        NativeVisualEffectState::FollowsWindowActiveState => 0,
        NativeVisualEffectState::Active => 1,
        NativeVisualEffectState::Inactive => 2,
    }
}

impl NativeVisualEffectState {
    /// The `NSVisualEffectState` value.
    pub fn to_raw(self) -> (r: i64)
        ensures
            r == visual_effect_state_raw(self),
    {
        match self {
            NativeVisualEffectState::FollowsWindowActiveState => 0,
            NativeVisualEffectState::Active => 1,
            NativeVisualEffectState::Inactive => 2,
        }
    }
}

/// The settings of a visual effect view that are compared between paints.
#[derive(Clone, Copy, Debug, PartialEq, Eq, Structural)]
pub struct VisualEffectSettings {
    pub material: NativeVisualEffectMaterial,
    pub blending_mode: NativeVisualEffectBlendingMode,
    pub state: NativeVisualEffectState,
    pub emphasized: bool,
}

/// One operation on the native visual effect view, performed in order by the glue.
#[derive(Clone, Copy, Debug, PartialEq, Eq, Structural)]
pub enum VisualEffectStep {
    /// Create a new native view.
    Create,
    /// Write the `NSVisualEffectMaterial` value.
    SetMaterial(i64),
    /// Write the `NSVisualEffectBlendingMode` value.
    SetBlendingMode(i64),
    /// Write the `NSVisualEffectState` value.
    SetState(i64),
    /// Write whether the view is emphasized.
    SetEmphasized(bool),
    /// Write the element's corner radius to the backing layer.
    SetCornerRadius,
    /// Add the view to the parent view.
    Attach,
    /// Move the view to the element's bounds.
    SetFrame,
}

/// The steps of one paint, given the settings remembered from the previous one
/// (none for a view not yet created).
pub open spec fn visual_effect_steps(
    prev: Option<VisualEffectSettings>,
    desired: VisualEffectSettings,
    corner_radius: OpaqueSetting,
) -> Seq<VisualEffectStep> {
    let material = VisualEffectStep::SetMaterial(visual_effect_material_raw(desired.material));
    let blending = VisualEffectStep::SetBlendingMode(visual_effect_blending_raw(desired.blending_mode));
    let state = VisualEffectStep::SetState(visual_effect_state_raw(desired.state));
    let emphasized = VisualEffectStep::SetEmphasized(desired.emphasized);
    match prev {
        Some(p) => {
            let s2 = push_if(seq![VisualEffectStep::SetFrame], p.material != desired.material, material);
            let s3 = push_if(s2, p.blending_mode != desired.blending_mode, blending);
            let s4 = push_if(s3, p.state != desired.state, state);
            let s5 = push_if(s4, p.emphasized != desired.emphasized, emphasized);
            push_if(s5, corner_radius.changed && corner_radius.present, VisualEffectStep::SetCornerRadius)
        },
        None => {
            let s = seq![VisualEffectStep::Create, material, blending, state, emphasized];
            push_if(s, corner_radius.present, VisualEffectStep::SetCornerRadius).push(
                VisualEffectStep::Attach,
            ).push(VisualEffectStep::SetFrame)
        },
    }
}

/// The steps of one paint of a visual effect view and the settings to remember
/// for the next one.
pub struct VisualEffectPaint {
    pub steps: Vec<VisualEffectStep>,
    pub settings: VisualEffectSettings,
}

/// Plans one paint of a visual effect view: the steps that bring the native
/// view (new, or remembered as `prev`) in line with `desired`, and the settings
/// the view shows afterwards, to remember for the next paint.
pub fn visual_effect_paint(
    prev: Option<VisualEffectSettings>,
    desired: VisualEffectSettings,
    corner_radius: OpaqueSetting,
) -> (p: VisualEffectPaint)
    ensures
        p.steps@ == visual_effect_steps(prev, desired, corner_radius),
        p.settings == desired,
{
    let mut steps: Vec<VisualEffectStep> = Vec::new();
    match prev {
        Some(p) => {
            steps.push(VisualEffectStep::SetFrame);
            if p.material != desired.material {
                steps.push(VisualEffectStep::SetMaterial(desired.material.to_raw()));
            }
            if p.blending_mode != desired.blending_mode {
                steps.push(VisualEffectStep::SetBlendingMode(desired.blending_mode.to_raw()));
            }
            if p.state != desired.state {
                steps.push(VisualEffectStep::SetState(desired.state.to_raw()));
            }
            if p.emphasized != desired.emphasized {
                steps.push(VisualEffectStep::SetEmphasized(desired.emphasized));
            }
            if corner_radius.changed && corner_radius.present {
                steps.push(VisualEffectStep::SetCornerRadius);
            }
        },
        None => {
            steps.push(VisualEffectStep::Create);
            steps.push(VisualEffectStep::SetMaterial(desired.material.to_raw()));
            steps.push(VisualEffectStep::SetBlendingMode(desired.blending_mode.to_raw()));
            steps.push(VisualEffectStep::SetState(desired.state.to_raw()));
            steps.push(VisualEffectStep::SetEmphasized(desired.emphasized));
            if corner_radius.present {
                steps.push(VisualEffectStep::SetCornerRadius);
            }
            steps.push(VisualEffectStep::Attach);
            steps.push(VisualEffectStep::SetFrame);
        },
    }
    assert(steps@ =~= visual_effect_steps(prev, desired, corner_radius));
    VisualEffectPaint { steps, settings: desired }
}

/// What a native visual effect view shows: its raw settings, and whether its
/// corner radius is the element's.
pub struct VisualEffectNative {
    pub material: i64,
    pub blending_mode: i64,
    pub state: i64,
    pub emphasized: bool,
    pub radius_current: bool,
}

/// The native view that shows `s`.
pub open spec fn visual_effect_native_of(s: VisualEffectSettings, radius_current: bool) -> VisualEffectNative {
    VisualEffectNative {
        material: visual_effect_material_raw(s.material),
        blending_mode: visual_effect_blending_raw(s.blending_mode),
        state: visual_effect_state_raw(s.state),
        emphasized: s.emphasized,
        radius_current,
    }
}

/// What one step does to the native view. Creating a view yields one whose
/// settings are unknown, so `Create` leaves the model as it is.
pub open spec fn visual_effect_apply(n: VisualEffectNative, step: VisualEffectStep) -> VisualEffectNative {
    match step {
        VisualEffectStep::SetMaterial(m) => VisualEffectNative { material: m, ..n },
        VisualEffectStep::SetBlendingMode(b) => VisualEffectNative { blending_mode: b, ..n },
        VisualEffectStep::SetState(v) => VisualEffectNative { state: v, ..n },
        VisualEffectStep::SetEmphasized(e) => VisualEffectNative { emphasized: e, ..n },
        VisualEffectStep::SetCornerRadius => VisualEffectNative { radius_current: true, ..n },
        _ => n,
    }
}

/// The native view after the steps, in order.
pub open spec fn visual_effect_apply_all(n: VisualEffectNative, steps: Seq<VisualEffectStep>) -> VisualEffectNative {
    steps.fold_left(n, |m: VisualEffectNative, s: VisualEffectStep| visual_effect_apply(m, s))
}

/// After the steps of a paint, the native view shows the element's settings:
/// a new view whatever it started with, an existing view when it showed the
/// remembered settings. A corner radius the element sets is current afterwards
/// (written when it changed or the view is new); a radius the element no
/// longer sets is not written, so the view keeps the one it had.
pub proof fn lemma_visual_effect_paint_applies(
    prev: Option<VisualEffectSettings>,
    desired: VisualEffectSettings,
    corner_radius: OpaqueSetting,
    start: VisualEffectNative,
)
    requires
        prev is Some ==> start == visual_effect_native_of(prev->0, !corner_radius.changed),
    ensures
        ({
            let end = visual_effect_apply_all(start, visual_effect_steps(prev, desired, corner_radius));
            &&& end.material == visual_effect_material_raw(desired.material)
            &&& end.blending_mode == visual_effect_blending_raw(desired.blending_mode)
            &&& end.state == visual_effect_state_raw(desired.state)
            &&& end.emphasized == desired.emphasized
            &&& corner_radius.present ==> end.radius_current
        }),
{
    let f = |m: VisualEffectNative, s: VisualEffectStep| visual_effect_apply(m, s);
    let material = VisualEffectStep::SetMaterial(visual_effect_material_raw(desired.material));
    let blending = VisualEffectStep::SetBlendingMode(visual_effect_blending_raw(desired.blending_mode));
    let state = VisualEffectStep::SetState(visual_effect_state_raw(desired.state));
    let emphasized = VisualEffectStep::SetEmphasized(desired.emphasized);
    match prev {
        Some(p) => {
            let s1 = seq![VisualEffectStep::SetFrame];
            lemma_fold_single(VisualEffectStep::SetFrame, start, f);
            let s2 = push_if(s1, p.material != desired.material, material);
            lemma_fold_push_if(s1, p.material != desired.material, material, start, f);
            let s3 = push_if(s2, p.blending_mode != desired.blending_mode, blending);
            lemma_fold_push_if(s2, p.blending_mode != desired.blending_mode, blending, start, f);
            let s4 = push_if(s3, p.state != desired.state, state);
            lemma_fold_push_if(s3, p.state != desired.state, state, start, f);
            let s5 = push_if(s4, p.emphasized != desired.emphasized, emphasized);
            lemma_fold_push_if(s4, p.emphasized != desired.emphasized, emphasized, start, f);
            lemma_fold_push_if(
                s5,
                corner_radius.changed && corner_radius.present,
                VisualEffectStep::SetCornerRadius,
                start,
                f,
            );
        },
        None => {
            let s1 = seq![VisualEffectStep::Create];
            lemma_fold_single(VisualEffectStep::Create, start, f);
            lemma_fold_push(s1, material, start, f);
            let s2 = s1.push(material);
            lemma_fold_push(s2, blending, start, f);
            let s3 = s2.push(blending);
            lemma_fold_push(s3, state, start, f);
            let s4 = s3.push(state);
            lemma_fold_push(s4, emphasized, start, f);
            let s5 = s4.push(emphasized);
            assert(s5 =~= seq![VisualEffectStep::Create, material, blending, state, emphasized]);
            lemma_fold_push_if(s5, corner_radius.present, VisualEffectStep::SetCornerRadius, start, f);
            let s6 = push_if(s5, corner_radius.present, VisualEffectStep::SetCornerRadius);
            lemma_fold_push(s6, VisualEffectStep::Attach, start, f);
            lemma_fold_push(s6.push(VisualEffectStep::Attach), VisualEffectStep::SetFrame, start, f);
        },
    }
}

/// A repaint of a view whose settings did not change only moves the view.
pub proof fn lemma_visual_effect_repaint_unchanged(settings: VisualEffectSettings, present: bool)
    ensures
        visual_effect_steps(Some(settings), settings, OpaqueSetting { present, changed: false })
            == seq![VisualEffectStep::SetFrame],
{
}

} // verus!
