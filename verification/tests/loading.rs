use gpui_native::element_id::ElementId;
use gpui_native::image_view::{
    embedded_image_result, first_line, image_download_result, image_source_resource,
    resolve_image_source, ImageAssetState, NativeImageLoadError, NativeImageSource,
    NativeImageSymbolWeight,
};
use gpui_native::menu::{show_native_popup_menu, NativeMenuItem, NativeMenuItemData};
use gpui_native::progress_bar::{progress_mode, NativeProgressStyle};
use gpui_native::task_timing::{TaskLocation, TaskTimingLog};
use gpui_native::text::strings_eq;
use gpui_native::tracking_view::TrackingMouseMoveEvent;

fn loc(file: &str, line: u32) -> TaskLocation {
    TaskLocation { file: file.to_string(), line, column: 1 }
}

#[test]
fn task_timings_merge_back_to_back_runs() {
    let mut log: TaskTimingLog<u64> = TaskTimingLog::new();
    assert!(log.begin_task(loc("a.rs", 10), 100));
    log.end_task(150);
    assert!(!log.begin_task(loc("a.rs", 10), 200));
    log.end_task(260);
    assert!(log.begin_task(loc("b.rs", 3), 300));
    log.end_task(310);
    assert!(log.begin_task(loc("a.rs", 10), 400));
    let records = log.records();
    assert_eq!(records.len(), 3);
    assert_eq!(records[0].start, 100);
    assert_eq!(records[0].end, Some(260));
    assert_eq!(records[1].location.file, "b.rs");
    assert_eq!(records[1].end, Some(310));
    assert_eq!(records[2].end, None);
}

#[test]
fn task_timing_end_on_empty_log() {
    let mut log: TaskTimingLog<u64> = TaskTimingLog::new();
    log.end_task(5);
    assert_eq!(log.len(), 0);
}

#[test]
fn progress_modes() {
    let m = progress_mode(true, NativeProgressStyle::Bar);
    assert!(!m.indeterminate && !m.animating);
    let m = progress_mode(false, NativeProgressStyle::Bar);
    assert!(m.indeterminate && m.animating);
    let m = progress_mode(true, NativeProgressStyle::Spinner);
    assert!(m.indeterminate && m.animating);
}

#[test]
fn image_sources_resolve() {
    let none: Option<NativeImageSource<f64, String>> = None;
    let r = resolve_image_source(&none, None);
    assert!(r.sf_symbol.is_none() && r.sf_symbol_config.is_none() && r.image_data.is_none());
    assert!(!r.pending);

    let plain: Option<NativeImageSource<f64, String>> = Some(NativeImageSource::SfSymbol {
        name: "globe".to_string(),
        point_size: None,
        weight: NativeImageSymbolWeight::Regular,
    });
    let r = resolve_image_source(&plain, None);
    assert_eq!(r.sf_symbol.as_deref(), Some("globe"));
    assert!(r.sf_symbol_config.is_none());

    let sized: Option<NativeImageSource<f64, String>> = Some(NativeImageSource::SfSymbol {
        name: "star.fill".to_string(),
        point_size: Some(24.0),
        weight: NativeImageSymbolWeight::Bold,
    });
    let r = resolve_image_source(&sized, None);
    assert!(r.sf_symbol.is_none());
    assert_eq!(r.sf_symbol_config, Some(("star.fill".to_string(), 24.0, 7)));

    let data: Option<NativeImageSource<f64, String>> = Some(NativeImageSource::Data(vec![1, 2, 3]));
    assert_eq!(resolve_image_source(&data, None).image_data, Some(vec![1, 2, 3]));

    let res: Option<NativeImageSource<f64, String>> =
        Some(NativeImageSource::Resource("https://example.com/a.png".to_string()));
    assert_eq!(image_source_resource(&res).map(|s| s.as_str()), Some("https://example.com/a.png"));
    assert!(image_source_resource(&data).is_none());
    let r = resolve_image_source(&res, Some(ImageAssetState::Loaded(vec![9])));
    assert_eq!(r.image_data, Some(vec![9]));
    assert!(!r.pending);
    let r = resolve_image_source(&res, Some(ImageAssetState::Failed));
    assert!(r.image_data.is_none() && !r.pending);
    let r = resolve_image_source(&res, Some(ImageAssetState::Loading));
    assert!(r.image_data.is_none() && r.pending);
}

#[test]
fn first_lines() {
    assert_eq!(first_line("404 Not Found  \r\nmore text"), "404 Not Found");
    assert_eq!(first_line("single line\t "), "single line");
    assert_eq!(first_line(""), "");
    assert_eq!(first_line("\nsecond"), "");
}

#[test]
fn downloads_and_embedded_assets() {
    match image_download_result("https://x/y.png", 200, vec![1, 2]) {
        Ok(bytes) => assert_eq!(bytes, vec![1, 2]),
        Err(_) => panic!("a success status gives the body"),
    }
    match image_download_result("https://x/y.png", 404, b"Not here\nat all".to_vec()) {
        Err(NativeImageLoadError::BadStatus { uri, status, body }) => {
            assert_eq!(uri, "https://x/y.png");
            assert_eq!(status, 404);
            assert_eq!(body, "Not here");
        }
        _ => panic!("a failing status gives an error"),
    }
    match image_download_result("u", 199, vec![0xff, b'x']) {
        Err(NativeImageLoadError::BadStatus { body, .. }) => assert_eq!(body, "\u{fffd}x"),
        _ => panic!("199 is not a success"),
    }
    match embedded_image_result("icons/a.png", None) {
        Err(NativeImageLoadError::Asset(m)) => {
            assert_eq!(m, "Embedded resource not found: icons/a.png")
        }
        _ => panic!("a missing asset gives an error"),
    }
    match embedded_image_result("icons/a.png", Some(vec![7])) {
        Ok(bytes) => assert_eq!(bytes, vec![7]),
        Err(_) => panic!("a present asset gives its bytes"),
    }
}

#[test]
fn popup_menu_request_and_outcome() {
    let items = vec![
        NativeMenuItem::action("Copy"),
        NativeMenuItem::separator(),
        NativeMenuItem::action("Paste").enabled(false),
    ];
    let request = show_native_popup_menu(&items, (10.0f32, 20.0f32), 7u32);
    assert_eq!(request.items.len(), 3);
    assert!(matches!(request.items[1], NativeMenuItemData::Separator));
    assert_eq!(request.position, (10.0, 20.0));
    assert_eq!(request.finish(Some(2)), Some((7, 2)));
    let request = show_native_popup_menu(&items, (0.0f32, 0.0f32), 7u32);
    assert_eq!(request.finish(None), None);
}

#[test]
fn mouse_move_event_carries_position() {
    let e = TrackingMouseMoveEvent { position: (3.5f32, 4.0f32) };
    assert_eq!(e.position.0, 3.5);
    let _ = ElementId::name("tracker");
}

#[test]
fn string_lists_compare_by_content() {
    let a = vec!["x".to_string(), "y".to_string()];
    assert!(strings_eq(&a, &a.clone()));
    assert!(!strings_eq(&a, &vec!["x".to_string()]));
    assert!(!strings_eq(&a, &vec!["x".to_string(), "z".to_string()]));
}
