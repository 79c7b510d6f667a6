use gpui_native::demos::{
    demo_theme, display_text, handle_text_input_key, scroll_item_color, scroll_item_label,
    tap_count_label, text_field_colors, CombinedDemoState, DemoTheme, KeyOutcome, TouchDemoState,
};
use gpui_native::ios_platform::WindowAppearance;
use gpui_native::logging::{
    begin_reconnect_attempt, format_log_line, format_relay_line, format_timestamp, level_color,
    level_enabled, level_tag, parse_log_level_filter, relay_next, LogLevel, LogLevelFilter,
    RelayAction, RelayEvent, RelayPhase, RelayState,
};

#[test]
fn level_colors_and_tags() {
    assert_eq!(level_color(LogLevel::Error), "\x1b[31m");
    assert_eq!(level_color(LogLevel::Warn), "\x1b[33m");
    assert_eq!(level_color(LogLevel::Info), "\x1b[32m");
    assert_eq!(level_color(LogLevel::Debug), "\x1b[36m");
    assert_eq!(level_color(LogLevel::Trace), "\x1b[90m");
    assert_eq!(level_tag(LogLevel::Error), "ERROR");
    assert_eq!(level_tag(LogLevel::Warn), "WARN ");
    assert_eq!(level_tag(LogLevel::Info), "INFO ");
    assert_eq!(level_tag(LogLevel::Debug), "DEBUG");
    assert_eq!(level_tag(LogLevel::Trace), "TRACE");
}

#[test]
fn timestamps() {
    assert_eq!(format_timestamp(0, 0), "00:00:00.000");
    // 1970-01-02 13:07:09.045 UTC
    assert_eq!(format_timestamp(86_400 + 13 * 3600 + 7 * 60 + 9, 45), "13:07:09.045");
    assert_eq!(format_timestamp(1_725_029_869, 999), "14:57:49.999");
}

#[test]
fn log_lines() {
    let line = format_log_line("12:00:00.000", LogLevel::Warn, "gpui::ios", "low memory");
    assert_eq!(line, "12:00:00.000 \x1b[33mWARN \x1b[0m [gpui::ios] low memory");
    let relay = format_relay_line("12:00:00.000", LogLevel::Error, "app", "boom");
    assert_eq!(relay, "12:00:00.000 \x1b[31mERROR\x1b[0m [app] boom\n");
}

#[test]
fn level_filter_from_environment() {
    assert_eq!(parse_log_level_filter(None), LogLevelFilter::Debug);
    assert_eq!(parse_log_level_filter(Some("trace")), LogLevelFilter::Trace);
    assert_eq!(parse_log_level_filter(Some("TRACE")), LogLevelFilter::Trace);
    assert_eq!(parse_log_level_filter(Some("debug")), LogLevelFilter::Debug);
    assert_eq!(parse_log_level_filter(Some("INFO")), LogLevelFilter::Info);
    assert_eq!(parse_log_level_filter(Some("warn")), LogLevelFilter::Warn);
    assert_eq!(parse_log_level_filter(Some("ERROR")), LogLevelFilter::Error);
    assert_eq!(parse_log_level_filter(Some("Warn")), LogLevelFilter::Debug);
    assert_eq!(parse_log_level_filter(Some("")), LogLevelFilter::Debug);
}

#[test]
fn reconnect_cooldown() {
    let mut last = 0u64;
    assert!(!begin_reconnect_attempt(&mut last, 4_999));
    assert_eq!(last, 0);
    assert!(begin_reconnect_attempt(&mut last, 5_000));
    assert_eq!(last, 5_000);
    assert!(!begin_reconnect_attempt(&mut last, 9_999));
    assert!(begin_reconnect_attempt(&mut last, 10_000));
    // A clock that went backwards counts as no time elapsed.
    assert!(!begin_reconnect_attempt(&mut last, 1_000));
    assert_eq!(last, 10_000);
}

#[test]
fn touch_demo_taps() {
    let mut s = TouchDemoState::new();
    assert_eq!(s.box_color(0, 0xf38ba8, 0xff5577), 0xf38ba8);
    s.tap(0);
    s.tap(2);
    assert_eq!(s.tap_count, 2);
    assert_eq!(s.tapped_box, Some(2));
    assert_eq!(s.box_color(2, 0x89b4fa, 0x5577ff), 0x5577ff);
    assert_eq!(s.box_color(0, 0xf38ba8, 0xff5577), 0xf38ba8);
    assert_eq!(tap_count_label(2), "Tap a box! (taps: 2)");
}

#[test]
fn combined_demo_status() {
    let mut s = CombinedDemoState::new();
    assert_eq!(s.status_label(), "Taps: 0  Last: none");
    s.tap("red");
    s.tap("blue");
    assert_eq!(s.status_label(), "Taps: 2  Last: blue");
    assert_eq!(
        demo_theme(WindowAppearance::VibrantDark),
        DemoTheme { background: 0x1e1e2e, text: 0xcdd6f4, panel: 0x313244, muted_text: 0x6c7086 }
    );
    assert_eq!(
        demo_theme(WindowAppearance::Light),
        DemoTheme { background: 0xeff1f5, text: 0x4c4f69, panel: 0xccd0da, muted_text: 0x9ca0b0 }
    );
}

#[test]
fn scroll_demo_rows() {
    assert_eq!(scroll_item_color(0), 0xf38ba8);
    assert_eq!(scroll_item_color(9), 0xb4befe);
    assert_eq!(scroll_item_color(10), 0xf38ba8);
    assert_eq!(scroll_item_color(23), 0xfab387);
    assert_eq!(scroll_item_label(0), "Item 1");
    assert_eq!(scroll_item_label(49), "Item 50");
}

#[test]
fn text_input_editing() {
    let mut text = String::from("hi");
    assert_eq!(handle_text_input_key(&mut text, "x", Some("!")), KeyOutcome::Edited);
    assert_eq!(text, "hi!");
    assert_eq!(handle_text_input_key(&mut text, "backspace", None), KeyOutcome::Edited);
    assert_eq!(text, "hi");
    assert_eq!(handle_text_input_key(&mut text, "enter", Some("\n")), KeyOutcome::Submitted);
    assert_eq!(text, "hi");
    assert_eq!(handle_text_input_key(&mut text, "shift", None), KeyOutcome::Ignored);
    assert_eq!(text, "hi");
    let mut empty = String::new();
    assert_eq!(handle_text_input_key(&mut empty, "backspace", None), KeyOutcome::Edited);
    assert_eq!(empty, "");
    let mut accented = String::from("café");
    handle_text_input_key(&mut accented, "backspace", None);
    assert_eq!(accented, "caf");
}

#[test]
fn text_field_display() {
    assert_eq!(display_text("", false), "Tap here to type...");
    assert_eq!(display_text("", true), "|");
    assert_eq!(display_text("abc", false), "abc|");
    assert_eq!(display_text("abc", true), "abc|");
    assert_eq!(text_field_colors(true, false), (0x585b70, 0x6c7086));
    assert_eq!(text_field_colors(true, true), (0x89b4fa, 0xcdd6f4));
    assert_eq!(text_field_colors(false, false), (0x585b70, 0xcdd6f4));
}

#[test]
fn level_filtering() {
    assert!(level_enabled(LogLevel::Error, LogLevelFilter::Error));
    assert!(!level_enabled(LogLevel::Warn, LogLevelFilter::Error));
    assert!(level_enabled(LogLevel::Debug, LogLevelFilter::Debug));
    assert!(!level_enabled(LogLevel::Trace, LogLevelFilter::Debug));
    assert!(level_enabled(LogLevel::Trace, LogLevelFilter::Trace));
    assert!(!level_enabled(LogLevel::Error, LogLevelFilter::Off));
}

#[test]
fn relay_with_open_stream() {
    let idle = RelayState { connected: true, phase: RelayPhase::Idle };
    let (s, a) = relay_next(idle, RelayEvent::LineReady);
    assert_eq!(a, vec![RelayAction::Write]);
    let (s2, a2) = relay_next(s, RelayEvent::Wrote);
    assert_eq!(a2, vec![RelayAction::Done]);
    assert_eq!(s2, idle);
    let (s3, a3) = relay_next(s, RelayEvent::WriteFailed);
    assert_eq!(a3, vec![RelayAction::DropStream, RelayAction::Reconnect]);
    assert!(!s3.connected);
    let (s4, a4) = relay_next(s3, RelayEvent::Reconnected(true));
    assert_eq!(a4, vec![RelayAction::Done]);
    assert_eq!(s4, RelayState { connected: true, phase: RelayPhase::Idle });
}

#[test]
fn relay_without_stream() {
    let idle = RelayState { connected: false, phase: RelayPhase::Idle };
    let (s, a) = relay_next(idle, RelayEvent::LineReady);
    assert_eq!(a, vec![RelayAction::Reconnect]);
    let (failed, a) = relay_next(s, RelayEvent::Reconnected(false));
    assert_eq!(a, vec![RelayAction::Done]);
    assert_eq!(failed, idle);
    let (retry, a) = relay_next(s, RelayEvent::Reconnected(true));
    assert_eq!(a, vec![RelayAction::Write]);
    let (done, a) = relay_next(retry, RelayEvent::WriteFailed);
    assert_eq!(a, vec![RelayAction::Done]);
    assert_eq!(done, RelayState { connected: true, phase: RelayPhase::Idle });
    let (same, a) = relay_next(idle, RelayEvent::Wrote);
    assert!(a.is_empty());
    assert_eq!(same, idle);
}
