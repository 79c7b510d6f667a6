use gpui_native::button::{native_button, ButtonStyle, NativeButtonStyle, NativeButtonTint};
use gpui_native::checkbox::native_checkbox;
use gpui_native::combo_box::{build_combo_box_callbacks, clamp_selected_index, native_combo_box};
use gpui_native::dropdown::native_dropdown;
use gpui_native::element_id::ElementId;
use gpui_native::icon_button::native_icon_button;
use gpui_native::search_field::{build_search_field_callbacks, native_search_field};
use gpui_native::switch::{native_switch, SwitchControlState, SwitchStep};
use gpui_native::tab_view::native_tab_view;
use gpui_native::text_field::{build_text_field_callbacks, native_text_field, NativeTextFieldStyle};
use gpui_native::toggle_group::{
    native_toggle_group, NativeSegmentedShape, NativeSegmentedSize, NativeSegmentedStyle,
};
use gpui_native::tracking_view::{native_tracking_view, TrackingStep};

#[test]
fn button_defaults_and_config() {
    let mut b = native_button::<u32>(ElementId::name("save"), "Save");
    assert_eq!(b.intrinsic_size(), (80, 24));
    let c = b.take_config();
    assert_eq!(c.title, "Save");
    assert_eq!(c.style, ButtonStyle::Rounded);
    assert_eq!(c.tint, None);
    assert!(c.enabled);
    assert!(c.on_click.is_none());
    assert!(c.sf_symbol.is_none());
    assert!(c.tooltip.is_none());
}

#[test]
fn button_builders_reach_config_and_listener_moves_once() {
    let mut b = native_button::<u32>(ElementId::integer(3), "Delete everything now")
        .button_style(NativeButtonStyle::Borderless)
        .tint(NativeButtonTint::Destructive)
        .disabled(true)
        .on_click(7);
    // 21 bytes * 8 + 24 = 192
    assert_eq!(b.intrinsic_size(), (192, 24));
    let c = b.take_config();
    assert_eq!(c.style, ButtonStyle::Borderless);
    assert_eq!(c.tint, Some(NativeButtonTint::Destructive));
    assert!(!c.enabled);
    assert_eq!(c.on_click, Some(7));
    let again = b.take_config();
    assert!(again.on_click.is_none());
    assert_eq!(again.title, "Delete everything now");
}

#[test]
fn button_width_counts_utf8_bytes() {
    // "héllo" is 6 bytes: 6 * 8 + 24 = 72, below the minimum of 80.
    let b = native_button::<u32>(ElementId::name("x"), "héllo");
    assert_eq!(b.intrinsic_size(), (80, 24));
    // "ééééé" is 10 bytes: 10 * 8 + 24 = 104.
    let b = native_button::<u32>(ElementId::name("x"), "ééééé");
    assert_eq!(b.intrinsic_size(), (104, 24));
}

#[test]
fn button_style_conversion() {
    assert_eq!(ButtonStyle::from(NativeButtonStyle::Rounded), ButtonStyle::Rounded);
    assert_eq!(ButtonStyle::from(NativeButtonStyle::Filled), ButtonStyle::Filled);
    assert_eq!(ButtonStyle::from(NativeButtonStyle::Inline), ButtonStyle::Inline);
    assert_eq!(ButtonStyle::from(NativeButtonStyle::Borderless), ButtonStyle::Borderless);
    assert_eq!(NativeButtonStyle::default(), NativeButtonStyle::Rounded);
}

#[test]
fn checkbox_config_and_size() {
    let mut c = native_checkbox::<&str>(ElementId::name("agree"), "I agree to the terms");
    assert_eq!(c.intrinsic_size(), (200, 18));
    let mut c2 = native_checkbox::<&str>(ElementId::name("a"), "A");
    assert_eq!(c2.intrinsic_size(), (90, 18));
    c = c.checked(true).on_change("handler");
    let cfg = c.take_config();
    assert_eq!(cfg.title, "I agree to the terms");
    assert!(cfg.checked);
    assert!(cfg.enabled);
    assert_eq!(cfg.on_change, Some("handler"));
    let cfg2 = c2.take_config();
    assert!(!cfg2.checked);
    c2 = c2.disabled(true);
    assert!(!c2.take_config().enabled);
}

#[test]
fn switch_first_paint_creates_control() {
    let mut s = native_switch::<u8>(ElementId::name("wifi")).checked(true).on_change(1);
    assert_eq!(s.intrinsic_size(), (38, 22));
    let p = s.take_paint(None);
    assert_eq!(
        p.steps,
        vec![
            SwitchStep::Create,
            SwitchStep::SetChecked(true),
            SwitchStep::SetEnabled(true),
            SwitchStep::Attach,
            SwitchStep::SetFrame,
            SwitchStep::BindAction,
        ]
    );
    assert_eq!(p.state, SwitchControlState { current_checked: true });
    assert_eq!(p.on_change, Some(1));
}

#[test]
fn switch_repaint_only_writes_changes() {
    let mut s = native_switch::<u8>(ElementId::name("wifi")).checked(true);
    let p = s.take_paint(Some(SwitchControlState { current_checked: true }));
    assert_eq!(p.steps, vec![SwitchStep::SetFrame, SwitchStep::SetEnabled(true)]);
    let mut s = native_switch::<u8>(ElementId::name("wifi")).disabled(true).on_change(4);
    let p = s.take_paint(Some(SwitchControlState { current_checked: true }));
    assert_eq!(
        p.steps,
        vec![
            SwitchStep::SetFrame,
            SwitchStep::SetChecked(false),
            SwitchStep::SetEnabled(false),
            SwitchStep::ReleaseAction,
            SwitchStep::BindAction,
        ]
    );
    assert_eq!(p.state.current_checked, false);
    // The listener was handed over; the next paint binds nothing.
    let p2 = s.take_paint(Some(p.state));
    assert_eq!(p2.steps, vec![SwitchStep::SetFrame, SwitchStep::SetEnabled(false)]);
}

#[test]
fn clamp_selected_index_cases() {
    assert_eq!(clamp_selected_index(0, 0), 0);
    assert_eq!(clamp_selected_index(5, 0), 0);
    assert_eq!(clamp_selected_index(1, 3), 1);
    assert_eq!(clamp_selected_index(2, 3), 2);
    assert_eq!(clamp_selected_index(9, 3), 2);
    assert_eq!(clamp_selected_index(usize::MAX, 1), 0);
}

#[test]
fn combo_box_config() {
    let mut c = native_combo_box::<u8, u16>(ElementId::name("fruit"), &["Apple", "Banana"])
        .selected_index(7)
        .text("Ban")
        .on_select(2);
    assert_eq!(c.intrinsic_size(), (220, 26));
    let cfg = c.take_config();
    assert_eq!(cfg.items, vec!["Apple".to_string(), "Banana".to_string()]);
    assert_eq!(cfg.selected_index, 1);
    assert!(!cfg.editable);
    assert!(cfg.completes);
    assert_eq!(cfg.value, None);
    assert!(cfg.enabled);
    assert_eq!(cfg.callbacks.on_select, Some(2));
    assert_eq!(cfg.callbacks.on_change, None);
    assert!(cfg.callbacks.on_submit.is_none());

    let mut c = native_combo_box::<u8, u16>(ElementId::name("fruit"), &["Apple"])
        .items(&["Cherry", "Date", "Elder"])
        .editable(true)
        .completes(false)
        .text("Da")
        .disabled(true)
        .on_change(5);
    let cfg = c.take_config();
    assert_eq!(cfg.items.len(), 3);
    assert_eq!(cfg.selected_index, 0);
    assert_eq!(cfg.value, Some("Da".to_string()));
    assert!(!cfg.completes);
    assert!(!cfg.enabled);
    assert_eq!(cfg.callbacks.on_change, Some(5));
}

#[test]
fn combo_box_callbacks_routing() {
    let cb = build_combo_box_callbacks::<u8, u16>(Some(1), None);
    assert_eq!(cb.on_change, Some(1));
    assert_eq!(cb.on_select, None);
    assert_eq!(cb.on_submit, None);
}

#[test]
fn dropdown_clamps_selection() {
    let mut d = native_dropdown::<u8>(ElementId::name("d"), &["One", "Two", "Three"]).selected_index(10);
    assert_eq!(d.intrinsic_size(), (180, 24));
    let cfg = d.take_config();
    assert_eq!(cfg.selected_index, 2);
    assert_eq!(cfg.items.len(), 3);
    let mut empty = native_dropdown::<u8>(ElementId::name("e"), &[]).selected_index(4).disabled(true).on_select(9);
    let cfg = empty.take_config();
    assert_eq!(cfg.selected_index, 0);
    assert!(cfg.items.is_empty());
    assert!(!cfg.enabled);
    assert_eq!(cfg.on_select, Some(9));
}

#[test]
fn tab_view_passes_selection_unclamped_and_enabled() {
    let mut t = native_tab_view::<u8>(ElementId::name("tabs"), &["General", "Advanced"]).selected_index(5).on_select(3);
    assert_eq!(t.intrinsic_size(), (420, 280));
    let cfg = t.take_config();
    assert_eq!(cfg.labels, vec!["General".to_string(), "Advanced".to_string()]);
    assert_eq!(cfg.selected_index, 5);
    assert!(cfg.enabled);
    assert_eq!(cfg.on_select, Some(3));
}

#[test]
fn icon_button_config() {
    let mut b = native_icon_button::<u8>(ElementId::name("star"), "star.fill");
    assert_eq!(b.intrinsic_size(), (28, 28));
    let cfg = b.take_config();
    assert_eq!(cfg.title, "");
    assert_eq!(cfg.sf_symbol, Some("star.fill".to_string()));
    assert_eq!(cfg.tooltip, None);
    assert_eq!(cfg.style, ButtonStyle::Borderless);
    let mut b = native_icon_button::<u8>(ElementId::name("star"), "star")
        .tooltip("Favorite")
        .button_style(NativeButtonStyle::Filled)
        .tint(NativeButtonTint::Warning)
        .disabled(true)
        .on_click(1);
    let cfg = b.take_config();
    assert_eq!(cfg.tooltip, Some("Favorite".to_string()));
    assert_eq!(cfg.style, ButtonStyle::Filled);
    assert_eq!(cfg.tint, Some(NativeButtonTint::Warning));
    assert!(!cfg.enabled);
    assert_eq!(cfg.on_click, Some(1));
}

#[test]
fn text_field_config_and_callbacks() {
    let mut t = native_text_field::<u8, u16, u32>(ElementId::name("name"))
        .value("Ada")
        .placeholder("Your name")
        .secure(true)
        .field_style(NativeTextFieldStyle::Rounded)
        .on_change(1)
        .on_submit(2)
        .on_focus(3)
        .on_blur(4);
    assert_eq!(t.intrinsic_size(), (200, 22));
    let cfg = t.take_config();
    assert_eq!(cfg.value, "Ada");
    assert_eq!(cfg.placeholder, "Your name");
    assert!(cfg.secure);
    assert_eq!(cfg.bezel_style, Some(1));
    assert!(cfg.enabled);
    assert_eq!(cfg.callbacks.on_change, Some(1));
    assert_eq!(cfg.callbacks.on_submit, Some(2));
    assert_eq!(cfg.callbacks.on_begin_editing, Some(3));
    assert_eq!(cfg.callbacks.on_end_editing, Some(4));
    assert_eq!(cfg.callbacks.on_move_up, None);
    assert_eq!(cfg.callbacks.on_move_down, None);
    assert_eq!(cfg.callbacks.on_cancel, None);
    let cfg2 = t.take_config();
    assert!(cfg2.callbacks.on_change.is_none());
    let mut plain = native_text_field::<u8, u16, u32>(ElementId::name("p")).disabled(true);
    let cfg = plain.take_config();
    assert_eq!(cfg.bezel_style, Some(0));
    assert!(!cfg.enabled);
    assert!(!cfg.secure);
    let cb = build_text_field_callbacks::<u8, u16, u32>(None, Some(2), None, Some(5));
    assert_eq!(cb.on_submit, Some(2));
    assert_eq!(cb.on_end_editing, Some(5));
}

#[test]
fn search_field_config_identifies_by_element_id() {
    let mut f = native_search_field::<u8, u16, u32>(ElementId::name("search-box"))
        .placeholder("Search")
        .value("rust")
        .sends_search_string_immediately(false)
        .sends_whole_search_string(true)
        .on_move_up(1)
        .on_move_down(2)
        .on_cancel(3)
        .on_focus(4)
        .on_blur(5)
        .on_submit(6)
        .on_change(7);
    assert_eq!(f.intrinsic_size(), (220, 24));
    let cfg = f.take_config();
    assert_eq!(cfg.identifier, Some("search-box".to_string()));
    assert_eq!(cfg.placeholder, "Search");
    assert_eq!(cfg.value, "rust");
    assert!(!cfg.sends_immediately);
    assert!(cfg.sends_whole_string);
    assert!(cfg.enabled);
    assert_eq!(cfg.callbacks.on_move_up, Some(1));
    assert_eq!(cfg.callbacks.on_move_down, Some(2));
    assert_eq!(cfg.callbacks.on_cancel, Some(3));
    assert_eq!(cfg.callbacks.on_begin_editing, Some(4));
    assert_eq!(cfg.callbacks.on_end_editing, Some(5));
    assert_eq!(cfg.callbacks.on_submit, Some(6));
    assert_eq!(cfg.callbacks.on_change, Some(7));

    let mut numbered = native_search_field::<u8, u16, u32>(ElementId::integer(4051)).disabled(true);
    let cfg = numbered.take_config();
    assert_eq!(cfg.identifier, Some("4051".to_string()));
    assert!(cfg.sends_immediately);
    assert!(!cfg.sends_whole_string);
    assert!(!cfg.enabled);
    let cb = build_search_field_callbacks::<u8, u16, u32>(None, None, None, None, Some(1), None, None);
    assert_eq!(cb.on_move_up, Some(1));
    assert_eq!(cb.on_cancel, None);
}

#[test]
fn toggle_group_size_and_config() {
    let mut g = native_toggle_group::<u8>(ElementId::name("view"), &["List", "Grid", "Columns"]);
    assert_eq!(g.intrinsic_size(), (210, 24));
    let one = native_toggle_group::<u8>(ElementId::name("one"), &["Only"]);
    assert_eq!(one.intrinsic_size(), (72, 24));
    g = g
        .selected_index(1)
        .segment_style(NativeSegmentedStyle::RoundRect)
        .control_size(NativeSegmentedSize::Mini)
        .sf_symbols(&["list.bullet", "", "rectangle.split.3x1"])
        .on_select(8);
    assert_eq!(g.intrinsic_size(), (108, 24));
    let cfg = g.take_config();
    assert_eq!(cfg.selected_index, Some(1));
    assert_eq!(cfg.border_shape, 2);
    assert_eq!(cfg.control_size, 2);
    assert_eq!(
        cfg.images,
        vec![(0, "list.bullet".to_string()), (2, "rectangle.split.3x1".to_string())]
    );
    assert!(cfg.enabled);
    assert_eq!(cfg.on_select, Some(8));
    let mut plain = native_toggle_group::<u8>(ElementId::name("p"), &["A", "B"])
        .border_shape(NativeSegmentedShape::Capsule);
    let cfg = plain.take_config();
    assert_eq!(cfg.border_shape, 1);
    assert_eq!(cfg.control_size, 0);
    assert!(cfg.images.is_empty());
    assert_eq!(cfg.selected_index, None);
}

#[test]
fn tracking_view_paint_plans() {
    let mut t = native_tracking_view::<u8, u16, u32>(ElementId::name("hover"));
    assert_eq!(t.intrinsic_size(), (100, 100));
    let p = t.take_paint(false);
    assert_eq!(
        p.steps,
        vec![TrackingStep::Create, TrackingStep::SetCallbacks, TrackingStep::Attach, TrackingStep::SetFrame]
    );
    let p = t.take_paint(true);
    assert_eq!(p.steps, vec![TrackingStep::SetFrame]);
    let mut t = t.on_mouse_exit(2);
    let p = t.take_paint(true);
    assert_eq!(p.steps, vec![TrackingStep::SetFrame, TrackingStep::SetCallbacks]);
    assert_eq!(p.callbacks.on_exit, Some(2));
    assert_eq!(p.callbacks.on_enter, None);
    let mut t = t.on_mouse_enter(1).on_mouse_move(3);
    let p = t.take_paint(true);
    assert_eq!(p.callbacks.on_enter, Some(1));
    assert_eq!(p.callbacks.on_move, Some(3));
}
