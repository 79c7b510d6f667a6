//! Verified configuration model for native platform controls: element builders,
//! the platform configuration each element hands to the native layer, the
//! enum-to-native constant mappings, and the decision logic of the platform glue.

pub mod text;
pub mod element_id;
pub mod layout;
pub mod paint_plan;
pub mod button;
pub mod checkbox;
pub mod switch;
pub mod stepper;
pub mod slider;
pub mod combo_box;
pub mod dropdown;
pub mod tab_view;
pub mod icon_button;
pub mod menu;
pub mod text_field;
pub mod search_field;
pub mod toggle_group;
pub mod tracking_view;
pub mod stack_view;
pub mod visual_effect;
pub mod glass_effect;
pub mod image_view;
pub mod progress_bar;
pub mod alert;
pub mod table_view;
pub mod outline;
pub mod collection;
pub mod toolbar;
pub mod logging;
pub mod ios_platform;
pub mod task_timing;
pub mod demos;
pub mod native_index;
pub mod sidebar;
