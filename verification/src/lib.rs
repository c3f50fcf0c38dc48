//! Controller, rumble, touch overlay, settings and trainer rules of the
//! CaveStory-rs engine, with their contracts proved by Verus.
pub mod text;
pub mod build_version;
pub mod rumble;
pub mod touch_visibility;
pub mod i18n;
pub mod keyboard;
pub mod modes;
pub mod gamepad;
pub mod settings;
pub mod upgrade;
pub mod trainer;
pub mod gamepad_context;
pub mod prompts;
pub mod controls_menu;
pub mod android_storage;
pub mod no_data_scene;
pub mod probe_command;
pub mod menu_rows;
pub mod locale_tree;
