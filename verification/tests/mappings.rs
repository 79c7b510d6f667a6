use gpui_native::alert::NativeAlertStyleRaw;
use gpui_native::collection::{CollectionItemStyle, NativeCollectionItemStyle};
use gpui_native::glass_effect::NativeGlassEffectStyle;
use gpui_native::image_view::{NativeImageScaling, NativeImageSymbolWeight};
use gpui_native::outline::NativeOutlineHighlight;
use gpui_native::progress_bar::{progress_intrinsic_size, NativeProgressStyle};
use gpui_native::stack_view::{NativeStackAlignment, NativeStackDistribution, NativeStackOrientation};
use gpui_native::table_view::{
    NativeTableGridMask, NativeTableRowSizeStyle, NativeTableSelectionHighlightStyle, NativeTableStyle,
};
use gpui_native::text_field::NativeTextFieldStyle;
use gpui_native::toggle_group::{NativeSegmentedShape, NativeSegmentedSize, NativeSegmentedStyle};
use gpui_native::toolbar::{
    toolbar_display_mode, toolbar_group_control_representation, toolbar_group_selection_mode,
    WindowToolbarDisplayMode, WindowToolbarGroupControlRepresentation, WindowToolbarGroupSelectionMode,
};
use gpui_native::visual_effect::{
    NativeVisualEffectBlendingMode, NativeVisualEffectMaterial, NativeVisualEffectState,
};

#[test]
fn stack_view_raw_values() {
    assert_eq!(NativeStackOrientation::Horizontal.to_raw(), 0);
    assert_eq!(NativeStackOrientation::Vertical.to_raw(), 1);
    let d = [
        NativeStackDistribution::GravityAreas,
        NativeStackDistribution::EqualCentering,
        NativeStackDistribution::EqualSpacing,
        NativeStackDistribution::Fill,
        NativeStackDistribution::FillEqually,
        NativeStackDistribution::FillProportionally,
    ];
    for (i, v) in d.iter().enumerate() {
        assert_eq!(v.to_raw(), i as i64);
    }
    assert_eq!(NativeStackAlignment::Top.to_raw(), 3);
    assert_eq!(NativeStackAlignment::Bottom.to_raw(), 4);
    assert_eq!(NativeStackAlignment::Leading.to_raw(), 5);
    assert_eq!(NativeStackAlignment::Trailing.to_raw(), 6);
    assert_eq!(NativeStackAlignment::CenterX.to_raw(), 9);
    assert_eq!(NativeStackAlignment::CenterY.to_raw(), 10);
    assert_eq!(NativeStackAlignment::default(), NativeStackAlignment::CenterY);
    assert_eq!(NativeStackDistribution::default(), NativeStackDistribution::GravityAreas);
    assert_eq!(NativeStackOrientation::default(), NativeStackOrientation::Horizontal);
}

#[test]
fn visual_effect_raw_values() {
    let m = [
        (NativeVisualEffectMaterial::Titlebar, 3),
        (NativeVisualEffectMaterial::Selection, 4),
        (NativeVisualEffectMaterial::Menu, 5),
        (NativeVisualEffectMaterial::Popover, 6),
        (NativeVisualEffectMaterial::Sidebar, 7),
        (NativeVisualEffectMaterial::HeaderView, 10),
        (NativeVisualEffectMaterial::Sheet, 11),
        (NativeVisualEffectMaterial::WindowBackground, 12),
        (NativeVisualEffectMaterial::HudWindow, 13),
        (NativeVisualEffectMaterial::FullScreenUI, 15),
        (NativeVisualEffectMaterial::ToolTip, 17),
        (NativeVisualEffectMaterial::ContentBackground, 18),
        (NativeVisualEffectMaterial::UnderWindow, 21),
        (NativeVisualEffectMaterial::UnderPage, 22),
    ];
    for (v, raw) in m {
        assert_eq!(v.to_raw(), raw);
    }
    assert_eq!(NativeVisualEffectMaterial::default(), NativeVisualEffectMaterial::Sidebar);
    assert_eq!(NativeVisualEffectBlendingMode::BehindWindow.to_raw(), 0);
    assert_eq!(NativeVisualEffectBlendingMode::WithinWindow.to_raw(), 1);
    assert_eq!(NativeVisualEffectState::FollowsWindowActiveState.to_raw(), 0);
    assert_eq!(NativeVisualEffectState::Active.to_raw(), 1);
    assert_eq!(NativeVisualEffectState::Inactive.to_raw(), 2);
}

#[test]
fn glass_image_progress_alert_raw_values() {
    assert_eq!(NativeGlassEffectStyle::Regular.to_raw(), 0);
    assert_eq!(NativeGlassEffectStyle::Clear.to_raw(), 1);
    let w = [
        NativeImageSymbolWeight::UltraLight,
        NativeImageSymbolWeight::Thin,
        NativeImageSymbolWeight::Light,
        NativeImageSymbolWeight::Regular,
        NativeImageSymbolWeight::Medium,
        NativeImageSymbolWeight::Semibold,
        NativeImageSymbolWeight::Bold,
        NativeImageSymbolWeight::Heavy,
        NativeImageSymbolWeight::Black,
    ];
    for (i, v) in w.iter().enumerate() {
        assert_eq!(v.to_raw(), i as i64 + 1);
    }
    assert_eq!(NativeImageSymbolWeight::default(), NativeImageSymbolWeight::Regular);
    assert_eq!(NativeImageScaling::NoScaling.to_raw(), 0);
    assert_eq!(NativeImageScaling::ScaleDown.to_raw(), 1);
    assert_eq!(NativeImageScaling::ScaleAxesIndependently.to_raw(), 2);
    assert_eq!(NativeImageScaling::ScaleUpOrDown.to_raw(), 3);
    assert_eq!(NativeProgressStyle::Bar.to_raw(), 0);
    assert_eq!(NativeProgressStyle::Spinner.to_raw(), 1);
    assert_eq!(progress_intrinsic_size(NativeProgressStyle::Bar), (200, 20));
    assert_eq!(progress_intrinsic_size(NativeProgressStyle::Spinner), (32, 32));
    assert_eq!(NativeAlertStyleRaw::Warning.to_raw(), 0);
    assert_eq!(NativeAlertStyleRaw::Informational.to_raw(), 1);
    assert_eq!(NativeAlertStyleRaw::Critical.to_raw(), 2);
}

#[test]
fn table_and_outline_raw_values() {
    assert_eq!(NativeTableStyle::Automatic.to_ns_style(), 0);
    assert_eq!(NativeTableStyle::FullWidth.to_ns_style(), 1);
    assert_eq!(NativeTableStyle::Inset.to_ns_style(), 2);
    assert_eq!(NativeTableStyle::SourceList.to_ns_style(), 3);
    assert_eq!(NativeTableStyle::Plain.to_ns_style(), 4);
    assert_eq!(NativeTableRowSizeStyle::Default.to_ns_style(), -1);
    assert_eq!(NativeTableRowSizeStyle::Custom.to_ns_style(), 0);
    assert_eq!(NativeTableRowSizeStyle::Small.to_ns_style(), 1);
    assert_eq!(NativeTableRowSizeStyle::Medium.to_ns_style(), 2);
    assert_eq!(NativeTableRowSizeStyle::Large.to_ns_style(), 3);
    assert_eq!(NativeTableRowSizeStyle::default(), NativeTableRowSizeStyle::Custom);
    assert_eq!(NativeTableSelectionHighlightStyle::Regular.to_ns_style(), 0);
    assert_eq!(NativeTableSelectionHighlightStyle::NoHighlight.to_ns_style(), -1);
    assert_eq!(NativeOutlineHighlight::Regular.to_ns_style(), 0);
    assert_eq!(NativeOutlineHighlight::SourceList.to_ns_style(), 1);
    assert_eq!(NativeOutlineHighlight::NoHighlight.to_ns_style(), -1);
    assert_eq!(NativeOutlineHighlight::default(), NativeOutlineHighlight::Regular);
}

#[test]
fn grid_mask_union() {
    assert_eq!(NativeTableGridMask::none().bits(), 0);
    assert_eq!(NativeTableGridMask::default().bits(), 0);
    assert_eq!(NativeTableGridMask::solid_vertical().bits(), 1);
    assert_eq!(NativeTableGridMask::solid_horizontal().bits(), 2);
    assert_eq!(NativeTableGridMask::dashed_horizontal().bits(), 8);
    let m = NativeTableGridMask::solid_vertical().union(NativeTableGridMask::dashed_horizontal());
    assert_eq!(m.bits(), 9);
    let same = NativeTableGridMask::dashed_horizontal().union(NativeTableGridMask::solid_vertical());
    assert_eq!(m, same);
    assert_eq!(m.union(m).bits(), 9);
    assert_eq!(m.union(NativeTableGridMask::none()), m);
}

#[test]
fn segmented_and_text_field_raw_values() {
    assert_eq!(NativeSegmentedShape::Automatic.to_raw(), 0);
    assert_eq!(NativeSegmentedShape::Capsule.to_raw(), 1);
    assert_eq!(NativeSegmentedShape::RoundedRectangle.to_raw(), 2);
    assert_eq!(NativeSegmentedShape::Circle.to_raw(), 3);
    assert_eq!(NativeSegmentedSize::Mini.to_raw(), 2);
    assert_eq!(NativeSegmentedSize::Small.to_raw(), 1);
    assert_eq!(NativeSegmentedSize::Regular.to_raw(), 0);
    assert_eq!(NativeSegmentedSize::Large.to_raw(), 3);
    assert_eq!(NativeSegmentedSize::ExtraLarge.to_raw(), 4);
    assert_eq!(NativeSegmentedSize::default(), NativeSegmentedSize::Regular);
    assert_eq!(NativeSegmentedShape::from(NativeSegmentedStyle::Automatic), NativeSegmentedShape::Automatic);
    assert_eq!(NativeSegmentedShape::from(NativeSegmentedStyle::Capsule), NativeSegmentedShape::Capsule);
    assert_eq!(NativeSegmentedShape::from(NativeSegmentedStyle::RoundRect), NativeSegmentedShape::RoundedRectangle);
    assert_eq!(NativeSegmentedShape::from(NativeSegmentedStyle::Circle), NativeSegmentedShape::Circle);
    assert_eq!(NativeTextFieldStyle::Square.to_ns_style(), 0);
    assert_eq!(NativeTextFieldStyle::Rounded.to_ns_style(), 1);
    assert_eq!(NativeTextFieldStyle::default(), NativeTextFieldStyle::Square);
}

#[test]
fn collection_and_toolbar_values() {
    assert_eq!(CollectionItemStyle::from(NativeCollectionItemStyle::Label), CollectionItemStyle::Label);
    assert_eq!(CollectionItemStyle::from(NativeCollectionItemStyle::Card), CollectionItemStyle::Card);
    assert_eq!(NativeCollectionItemStyle::default(), NativeCollectionItemStyle::Card);
    assert_eq!(toolbar_display_mode(WindowToolbarDisplayMode::Default), 0);
    assert_eq!(toolbar_display_mode(WindowToolbarDisplayMode::IconAndLabel), 1);
    assert_eq!(toolbar_display_mode(WindowToolbarDisplayMode::IconOnly), 2);
    assert_eq!(toolbar_display_mode(WindowToolbarDisplayMode::LabelOnly), 3);
    assert_eq!(toolbar_group_selection_mode(WindowToolbarGroupSelectionMode::SelectOne), 0);
    assert_eq!(toolbar_group_selection_mode(WindowToolbarGroupSelectionMode::SelectAny), 1);
    assert_eq!(toolbar_group_selection_mode(WindowToolbarGroupSelectionMode::Momentary), 2);
    assert_eq!(toolbar_group_control_representation(WindowToolbarGroupControlRepresentation::Automatic), 0);
    assert_eq!(toolbar_group_control_representation(WindowToolbarGroupControlRepresentation::Expanded), 1);
    assert_eq!(toolbar_group_control_representation(WindowToolbarGroupControlRepresentation::Collapsed), 2);
}
