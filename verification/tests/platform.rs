use gpui_native::collection::collection_item_content;
use gpui_native::element_id::ElementId;
use gpui_native::ios_platform::{
    keyboard_request, scene_response, FrameRequester, SceneEvent,
    appearance_changed, appearance_for_style, duration_to_dispatch_delta, gesture_touch_phase,
    keyboard_proxy_input, queue_priority, thermal_state_from_raw, KeyboardProxyInput, Priority,
    ThermalState, TouchPhase, TouchTracker, WindowAppearance,
};
use gpui_native::native_index::{clamp_native_row, native_index_in};
use gpui_native::sidebar::{sidebar_row_title, sidebar_selection, sidebar_selection_sync};
use gpui_native::text::{decimal_string, owned_strings, padded_decimal_string, str_eq};
use gpui_native::toolbar::{push_unique_identifier, toolbar_identifiers, WindowToolbarItemIdentifier};

#[test]
fn decimal_rendering() {
    assert_eq!(decimal_string(0), "0");
    assert_eq!(decimal_string(7), "7");
    assert_eq!(decimal_string(10), "10");
    assert_eq!(decimal_string(4051), "4051");
    assert_eq!(decimal_string(u64::MAX), "18446744073709551615");
    assert_eq!(padded_decimal_string(5, 2), "05");
    assert_eq!(padded_decimal_string(5, 3), "005");
    assert_eq!(padded_decimal_string(123, 2), "123");
    assert_eq!(padded_decimal_string(0, 0), "0");
    assert!(str_eq("abc", "abc"));
    assert!(!str_eq("abc", "abd"));
    assert!(!str_eq("abc", "ab"));
    assert_eq!(owned_strings(&["x", "y"]), vec!["x".to_string(), "y".to_string()]);
}

#[test]
fn element_id_text() {
    assert_eq!(ElementId::name("field").to_string(), "field");
    assert_eq!(ElementId::integer(42).to_string(), "42");
    assert_eq!(ElementId::integer(42).duplicate().to_string(), "42");
}

#[test]
fn dispatch_priorities_and_delays() {
    assert_eq!(queue_priority(Priority::High), 2);
    assert_eq!(queue_priority(Priority::Medium), 0);
    assert_eq!(queue_priority(Priority::Low), -2);
    assert_eq!(duration_to_dispatch_delta(0), 0);
    assert_eq!(duration_to_dispatch_delta(1_500_000_000), 1_500_000_000);
    assert_eq!(duration_to_dispatch_delta(i64::MAX as u128), i64::MAX);
    assert_eq!(duration_to_dispatch_delta(i64::MAX as u128 + 1), i64::MAX);
    assert_eq!(duration_to_dispatch_delta(u128::MAX), i64::MAX);
}

#[test]
fn gesture_phases() {
    assert_eq!(gesture_touch_phase(0), None);
    assert_eq!(gesture_touch_phase(1), Some(TouchPhase::Started));
    assert_eq!(gesture_touch_phase(2), Some(TouchPhase::Moved));
    assert_eq!(gesture_touch_phase(3), Some(TouchPhase::Ended));
    assert_eq!(gesture_touch_phase(4), Some(TouchPhase::Ended));
    assert_eq!(gesture_touch_phase(5), None);
    assert_eq!(gesture_touch_phase(-1), None);
}

#[test]
fn touch_tracking_follows_first_touch() {
    let mut t = TouchTracker::new();
    assert_eq!(t.primary_touch(&[]), None);
    assert_eq!(t.primary_touch(&[11, 12]), Some(11));
    assert_eq!(t.primary_touch(&[12, 11]), Some(11));
    assert_eq!(t.primary_touch(&[12]), None);
    assert_eq!(t.primary_touch(&[13, 11]), Some(11));
    t.release();
    assert_eq!(t.primary_touch(&[12]), Some(12));
}

#[test]
fn keyboard_proxy_decisions() {
    assert!(matches!(keyboard_proxy_input(String::new(), true), KeyboardProxyInput::Backspace));
    assert!(matches!(keyboard_proxy_input(String::new(), false), KeyboardProxyInput::Backspace));
    match keyboard_proxy_input("é".to_string(), true) {
        KeyboardProxyInput::ReplaceText(t) => assert_eq!(t, "é"),
        _ => panic!("expected replace"),
    }
    match keyboard_proxy_input("a".to_string(), false) {
        KeyboardProxyInput::Typed(t) => assert_eq!(t, "a"),
        _ => panic!("expected typed"),
    }
}

#[test]
fn appearance_and_thermal_state() {
    assert_eq!(appearance_for_style(0), WindowAppearance::Light);
    assert_eq!(appearance_for_style(1), WindowAppearance::Light);
    assert_eq!(appearance_for_style(2), WindowAppearance::Dark);
    assert!(appearance_changed(1, None));
    assert!(appearance_changed(2, Some(1)));
    assert!(!appearance_changed(2, Some(2)));
    assert_eq!(thermal_state_from_raw(0), ThermalState::Nominal);
    assert_eq!(thermal_state_from_raw(1), ThermalState::Fair);
    assert_eq!(thermal_state_from_raw(2), ThermalState::Serious);
    assert_eq!(thermal_state_from_raw(3), ThermalState::Critical);
    assert_eq!(thermal_state_from_raw(9), ThermalState::Nominal);
}

#[test]
fn native_row_clamping() {
    assert_eq!(clamp_native_row(0, 0), None);
    assert_eq!(clamp_native_row(3, -1), None);
    assert_eq!(clamp_native_row(0, 5), Some(0));
    assert_eq!(clamp_native_row(4, 5), Some(4));
    assert_eq!(clamp_native_row(9, 5), Some(4));
    assert_eq!(clamp_native_row(usize::MAX, 5), Some(0));
    assert_eq!(native_index_in(-1, 3), None);
    assert_eq!(native_index_in(0, 3), Some(0));
    assert_eq!(native_index_in(2, 3), Some(2));
    assert_eq!(native_index_in(3, 3), None);
    assert_eq!(native_index_in(0, 0), None);
}

#[test]
fn sidebar_rows_and_selection() {
    let items = vec!["Inbox".to_string(), "Sent".to_string(), "Trash".to_string()];
    assert_eq!(sidebar_row_title(&items, 1), "Sent");
    assert_eq!(sidebar_row_title(&items, 3), "");
    assert_eq!(sidebar_row_title(&items, -1), "");
    let e = sidebar_selection(&items, 2).unwrap();
    assert_eq!(e.index, 2);
    assert_eq!(e.title, "Trash");
    assert!(sidebar_selection(&items, -1).is_none());
    assert!(sidebar_selection(&items, 7).is_none());
    let s = sidebar_selection_sync(&items, 3, Some(10));
    assert_eq!(s.selected_row, Some(2));
    assert_eq!(s.detail, "Trash");
    let s = sidebar_selection_sync(&items, 3, Some(0));
    assert_eq!(s.selected_row, Some(0));
    assert_eq!(s.detail, "Inbox");
    let s = sidebar_selection_sync(&items, 3, None);
    assert_eq!(s.selected_row, None);
    assert_eq!(s.detail, "Select an item");
    let s = sidebar_selection_sync(&items, 0, Some(1));
    assert_eq!(s.selected_row, None);
    assert_eq!(s.detail, "No items");
}

#[test]
fn collection_item_contents() {
    let items = vec!["Red".to_string(), "Green".to_string()];
    let c = collection_item_content(&items, Some(1), 1).unwrap();
    assert_eq!(c.title, "Green");
    assert!(c.selected);
    let c = collection_item_content(&items, Some(1), 0).unwrap();
    assert_eq!(c.title, "Red");
    assert!(!c.selected);
    assert!(collection_item_content(&items, None, 2).is_none());
    assert!(collection_item_content(&items, None, -3).is_none());
}

fn custom(s: &str) -> WindowToolbarItemIdentifier {
    WindowToolbarItemIdentifier::Custom(s.to_string())
}

#[test]
fn push_unique_identifier_skips_repeats() {
    let mut ids = vec![custom("a"), WindowToolbarItemIdentifier::Space];
    push_unique_identifier(&mut ids, custom("a"));
    assert_eq!(ids.len(), 2);
    push_unique_identifier(&mut ids, WindowToolbarItemIdentifier::Space);
    assert_eq!(ids.len(), 2);
    push_unique_identifier(&mut ids, custom("b"));
    push_unique_identifier(&mut ids, WindowToolbarItemIdentifier::FlexibleSpace);
    assert_eq!(ids, vec![custom("a"), WindowToolbarItemIdentifier::Space, custom("b"), WindowToolbarItemIdentifier::FlexibleSpace]);
}

#[test]
fn toolbar_identifier_lists() {
    // Nothing requested: own items are the defaults and the allowed items.
    let r = toolbar_identifiers(&["back", "title"], vec![], vec![], vec![]);
    assert_eq!(r.default, vec![custom("back"), custom("title")]);
    assert_eq!(r.allowed, vec![custom("back"), custom("title")]);
    assert!(r.selectable.is_empty());

    // Defaults requested, allowed not: allowed starts with the defaults, then
    // the own items not listed yet, then the selectable ones.
    let r = toolbar_identifiers(
        &["back", "title"],
        vec![WindowToolbarItemIdentifier::ToggleSidebar, custom("title")],
        vec![],
        vec![custom("back"), WindowToolbarItemIdentifier::Separator],
    );
    assert_eq!(r.default, vec![WindowToolbarItemIdentifier::ToggleSidebar, custom("title")]);
    assert_eq!(
        r.allowed,
        vec![
            WindowToolbarItemIdentifier::ToggleSidebar,
            custom("title"),
            custom("back"),
            WindowToolbarItemIdentifier::Separator,
        ]
    );
    assert_eq!(r.selectable, vec![custom("back"), WindowToolbarItemIdentifier::Separator]);

    // Allowed requested: it is kept first and completed.
    let r = toolbar_identifiers(
        &["x"],
        vec![],
        vec![WindowToolbarItemIdentifier::FlexibleSpace],
        vec![],
    );
    assert_eq!(r.default, vec![custom("x")]);
    assert_eq!(r.allowed, vec![WindowToolbarItemIdentifier::FlexibleSpace, custom("x")]);

    // No items at all.
    let r = toolbar_identifiers(&[], vec![], vec![], vec![]);
    assert!(r.allowed.is_empty());
    assert!(r.default.is_empty());
}

#[test]
fn only_the_first_frame_is_forced() {
    let mut frames = FrameRequester::new();
    assert!(frames.next_frame());
    assert!(!frames.next_frame());
    assert!(!frames.next_frame());
}

#[test]
fn scene_lifecycle_responses() {
    let r = scene_response(SceneEvent::DidActivate);
    assert_eq!((r.active, r.pause_display_link), (Some(true), None));
    let r = scene_response(SceneEvent::WillDeactivate);
    assert_eq!((r.active, r.pause_display_link), (Some(false), None));
    let r = scene_response(SceneEvent::DidEnterBackground);
    assert_eq!((r.active, r.pause_display_link), (None, Some(true)));
    let r = scene_response(SceneEvent::WillEnterForeground);
    assert_eq!((r.active, r.pause_display_link), (None, Some(false)));
}

#[test]
fn software_keyboard_follows_input_handler() {
    assert_eq!(keyboard_request(true, false, true), Some(true));
    assert_eq!(keyboard_request(false, true, true), Some(false));
    assert_eq!(keyboard_request(false, false, true), None);
    assert_eq!(keyboard_request(true, true, false), None);
}
