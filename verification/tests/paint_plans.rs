use gpui_native::paint_plan::OpaqueSetting;
use gpui_native::collection::collection_selection;
use gpui_native::sidebar::{
    ensure_sidebar_toggle_items, sidebar_paint, SidebarPaintState, SidebarStep, SidebarToolbarItem,
    SidebarWidthChanges,
};
use gpui_native::slider::slider_ticks;
use gpui_native::stack_view::{
    stack_view_paint, NativeStackAlignment, NativeStackDistribution, NativeStackOrientation,
    StackViewSettings, StackViewStep,
};
use gpui_native::stepper::{stepper_paint, StepperNumberChanges, StepperSettings, StepperStep};
use gpui_native::visual_effect::{
    visual_effect_paint, NativeVisualEffectBlendingMode, NativeVisualEffectMaterial,
    NativeVisualEffectState, VisualEffectSettings, VisualEffectStep,
};

fn absent() -> OpaqueSetting {
    OpaqueSetting { present: false, changed: false }
}

fn effect(material: NativeVisualEffectMaterial, emphasized: bool) -> VisualEffectSettings {
    VisualEffectSettings {
        material,
        blending_mode: NativeVisualEffectBlendingMode::BehindWindow,
        state: NativeVisualEffectState::FollowsWindowActiveState,
        emphasized,
    }
}

#[test]
fn visual_effect_new_view_gets_every_setting() {
    let desired = effect(NativeVisualEffectMaterial::HudWindow, true);
    let radius = OpaqueSetting { present: true, changed: true };
    let steps = visual_effect_paint(None, desired, radius).steps;
    assert_eq!(
        steps,
        vec![
            VisualEffectStep::Create,
            VisualEffectStep::SetMaterial(13),
            VisualEffectStep::SetBlendingMode(0),
            VisualEffectStep::SetState(0),
            VisualEffectStep::SetEmphasized(true),
            VisualEffectStep::SetCornerRadius,
            VisualEffectStep::Attach,
            VisualEffectStep::SetFrame,
        ]
    );
}

#[test]
fn visual_effect_repaint_writes_only_changes() {
    let before = effect(NativeVisualEffectMaterial::Sidebar, false);
    let after = effect(NativeVisualEffectMaterial::Menu, false);
    let plan = visual_effect_paint(Some(before), after, absent());
    assert_eq!(plan.settings, after);
    let steps = plan.steps;
    assert_eq!(steps, vec![VisualEffectStep::SetFrame, VisualEffectStep::SetMaterial(5)]);
    let same = visual_effect_paint(Some(after), after, OpaqueSetting { present: true, changed: false }).steps;
    assert_eq!(same, vec![VisualEffectStep::SetFrame]);
    // A radius that was removed is not written.
    let removed = visual_effect_paint(Some(after), after, OpaqueSetting { present: false, changed: true }).steps;
    assert_eq!(removed, vec![VisualEffectStep::SetFrame]);
}

#[test]
fn stack_view_new_and_repaint() {
    let settings = StackViewSettings {
        distribution: NativeStackDistribution::FillEqually,
        alignment: NativeStackAlignment::Leading,
    };
    let spacing = OpaqueSetting { present: true, changed: true };
    let steps = stack_view_paint(None, NativeStackOrientation::Vertical, settings, spacing, absent()).steps;
    assert_eq!(
        steps,
        vec![
            StackViewStep::Create(1),
            StackViewStep::SetSpacing,
            StackViewStep::SetDistribution(4),
            StackViewStep::SetAlignment(5),
            StackViewStep::Attach,
            StackViewStep::SetFrame,
        ]
    );
    let moved = StackViewSettings { alignment: NativeStackAlignment::CenterX, ..settings };
    let insets = OpaqueSetting { present: true, changed: true };
    let plan = stack_view_paint(Some(settings), NativeStackOrientation::Vertical, moved, absent(), insets);
    assert_eq!(plan.settings, moved);
    let steps = plan.steps;
    assert_eq!(
        steps,
        vec![StackViewStep::SetFrame, StackViewStep::SetAlignment(9), StackViewStep::SetEdgeInsets]
    );
}

#[test]
fn stepper_new_and_repaint() {
    let settings = StepperSettings { wraps: false, autorepeat: true };
    let none = StepperNumberChanges { min: false, max: false, value: false, increment: false };
    let steps = stepper_paint(None, settings, none, false, true).steps;
    assert_eq!(
        steps,
        vec![
            StepperStep::Create,
            StepperStep::SetWraps(false),
            StepperStep::SetAutorepeat(true),
            StepperStep::SetEnabled(true),
            StepperStep::Attach,
            StepperStep::SetFrame,
            StepperStep::BindAction,
        ]
    );
    let wrapping = StepperSettings { wraps: true, autorepeat: true };
    let value = StepperNumberChanges { value: true, ..none };
    let plan = stepper_paint(Some(settings), wrapping, value, true, false);
    assert_eq!(plan.settings, wrapping);
    let steps = plan.steps;
    assert_eq!(
        steps,
        vec![
            StepperStep::SetFrame,
            StepperStep::SetValue,
            StepperStep::SetWraps(true),
            StepperStep::SetEnabled(false),
        ]
    );
    let steps = stepper_paint(Some(wrapping), wrapping, none, false, true).steps;
    assert_eq!(
        steps,
        vec![
            StepperStep::SetFrame,
            StepperStep::SetEnabled(true),
            StepperStep::ReleaseAction,
            StepperStep::BindAction,
        ]
    );
}

fn names(items: &[&str]) -> Vec<String> {
    items.iter().map(|s| s.to_string()).collect()
}

#[test]
fn sidebar_new_collapsed() {
    let items = names(&["Inbox", "Sent"]);
    let widths = SidebarWidthChanges { width: false, min_max: false };
    let p = sidebar_paint(None, &items, Some(1), true, widths, false);
    assert_eq!(
        p.steps,
        vec![
            SidebarStep::Create,
            SidebarStep::SetItems,
            SidebarStep::SetCollapsed(true),
            SidebarStep::ConfigureWindow,
        ]
    );
    assert_eq!(p.state.items, items);
    assert_eq!(p.state.selected_index, Some(1));
    assert!(p.state.collapsed);
}

#[test]
fn sidebar_repaint_rebinds_only_when_needed() {
    let items = names(&["Inbox", "Sent"]);
    let prev = SidebarPaintState { items: items.clone(), selected_index: Some(0), collapsed: false };
    let unchanged = SidebarWidthChanges { width: false, min_max: false };
    let p = sidebar_paint(Some(&prev), &items, Some(0), false, unchanged, false);
    assert_eq!(p.steps, vec![SidebarStep::ConfigureWindow]);

    let p = sidebar_paint(Some(&prev), &items, Some(1), false, unchanged, false);
    assert_eq!(
        p.steps,
        vec![SidebarStep::ConfigureWindow, SidebarStep::ReleaseTarget, SidebarStep::SetItems]
    );

    let wider = SidebarWidthChanges { width: true, min_max: false };
    let p = sidebar_paint(Some(&prev), &items, Some(0), false, wider, false);
    assert_eq!(p.steps, vec![SidebarStep::ConfigureWindow, SidebarStep::SetWidth]);

    // While collapsing, a new width is not applied.
    let p = sidebar_paint(Some(&prev), &items, Some(0), true, wider, false);
    assert_eq!(p.steps, vec![SidebarStep::ConfigureWindow, SidebarStep::SetCollapsed(true)]);

    let limits = SidebarWidthChanges { width: false, min_max: true };
    let renamed = names(&["Inbox", "Drafts"]);
    let p = sidebar_paint(Some(&prev), &renamed, Some(0), false, limits, false);
    assert_eq!(
        p.steps,
        vec![
            SidebarStep::ConfigureWindow,
            SidebarStep::SetWidth,
            SidebarStep::ReleaseTarget,
            SidebarStep::SetItems,
        ]
    );
    assert_eq!(p.state.items, renamed);
}

#[test]
fn slider_tick_settings() {
    assert_eq!(slider_ticks(None, true), (0, false));
    assert_eq!(slider_ticks(Some(5), true), (5, true));
    assert_eq!(slider_ticks(Some(11), false), (11, false));
}

fn kinds(items: &[SidebarToolbarItem]) -> Vec<String> {
    items
        .iter()
        .map(|i| match i {
            SidebarToolbarItem::FlexibleSpace => "flex".to_string(),
            SidebarToolbarItem::ToggleSidebar => "toggle".to_string(),
            SidebarToolbarItem::SidebarTrackingSeparator => "sep".to_string(),
            SidebarToolbarItem::Other(id) => id.clone(),
        })
        .collect()
}

#[test]
fn sidebar_toolbar_items_are_ensured_once() {
    let mut items: Vec<SidebarToolbarItem> = Vec::new();
    ensure_sidebar_toggle_items(&mut items);
    assert_eq!(kinds(&items), vec!["flex", "toggle", "sep"]);
    ensure_sidebar_toggle_items(&mut items);
    assert_eq!(kinds(&items), vec!["flex", "toggle", "sep"]);

    let mut items = vec![
        SidebarToolbarItem::Other("search".to_string()),
        SidebarToolbarItem::FlexibleSpace,
        SidebarToolbarItem::Other("share".to_string()),
    ];
    ensure_sidebar_toggle_items(&mut items);
    assert_eq!(kinds(&items), vec!["search", "toggle", "sep", "flex", "share"]);
}

#[test]
fn collection_selection_in_range() {
    assert_eq!(collection_selection(Some(2), 3), Some(2));
    assert_eq!(collection_selection(Some(3), 3), None);
    assert_eq!(collection_selection(None, 3), None);
}
