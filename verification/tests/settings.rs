use cavestory::gamepad::{Button, PlayerControllerInputType};
use cavestory::gamepad_context::GamepadContext;
use cavestory::settings::{
    fresh_install_settings, p1_default_keymap, platform_default, LanguageRefresh, player_default_controller_button_map, psp_controller_button_map, ControllerType, RumbleMode,
    Settings, DEFAULT_SENSITIVITY,
};

fn old_settings() -> Settings {
    let mut settings = Settings::default();
    settings.version = 25;
    settings.auto_controller_switching = true;
    settings.player1_custom_controller_button_map = None;
    settings.player2_custom_controller_button_map = None;
    for map in [&mut settings.player1_controller_button_map, &mut settings.player2_controller_button_map] {
        map.map = PlayerControllerInputType::ButtonInput(Button::North);
        map.menu_ok = PlayerControllerInputType::ButtonInput(Button::South);
        map.menu_back = PlayerControllerInputType::ButtonInput(Button::East);
    }
    settings
}

fn assert_same(a: &Settings, b: &Settings) {
    assert_eq!(a.version, b.version);
    assert_eq!(a.seasonal_textures, b.seasonal_textures);
    assert_eq!(a.original_textures, b.original_textures);
    assert_eq!(a.shader_effects, b.shader_effects);
    assert_eq!(a.light_cone, b.light_cone);
    assert_eq!(a.subpixel_coords, b.subpixel_coords);
    assert_eq!(a.motion_interpolation, b.motion_interpolation);
    assert_eq!(a.touch_controls, b.touch_controls);
    assert_eq!(a.display_touch_controls, b.display_touch_controls);
    assert_eq!(a.auto_hide_touch_controls, b.auto_hide_touch_controls);
    assert_eq!(a.soundtrack, b.soundtrack);
    assert_eq!(a.bgm_volume, b.bgm_volume);
    assert_eq!(a.sfx_volume, b.sfx_volume);
    assert_eq!(a.timing_mode, b.timing_mode);
    assert_eq!(a.pause_on_focus_loss, b.pause_on_focus_loss);
    assert_eq!(a.organya_interpolation, b.organya_interpolation);
    assert_eq!(a.player1_controller_type, b.player1_controller_type);
    assert_eq!(a.player2_controller_type, b.player2_controller_type);
    assert_eq!(a.auto_controller_switching, b.auto_controller_switching);
    assert_eq!(a.player1_key_map, b.player1_key_map);
    assert_eq!(a.player2_key_map, b.player2_key_map);
    assert_eq!(a.player1_controller_button_map, b.player1_controller_button_map);
    assert_eq!(a.player2_controller_button_map, b.player2_controller_button_map);
    assert_eq!(a.player1_custom_controller_button_map, b.player1_custom_controller_button_map);
    assert_eq!(a.player2_custom_controller_button_map, b.player2_custom_controller_button_map);
    assert_eq!(a.player1_controller_axis_sensitivity, b.player1_controller_axis_sensitivity);
    assert_eq!(a.player2_controller_axis_sensitivity, b.player2_controller_axis_sensitivity);
    assert_eq!(a.player1_rumble, b.player1_rumble);
    assert_eq!(a.player2_rumble, b.player2_rumble);
    assert_eq!(a.player1_rumble_mode, b.player1_rumble_mode);
    assert_eq!(a.player2_rumble_mode, b.player2_rumble_mode);
    assert_eq!(a.speed, b.speed);
    assert_eq!(a.god_mode, b.god_mode);
    assert_eq!(a.infinite_booster, b.infinite_booster);
    assert_eq!(a.debug_outlines, b.debug_outlines);
    assert_eq!(a.fps_counter, b.fps_counter);
    assert_eq!(a.locale, b.locale);
    assert_eq!(a.follow_system_language, b.follow_system_language);
    assert_eq!(a.android_language, b.android_language);
    assert_eq!(a.window_mode, b.window_mode);
    assert_eq!(a.vsync_mode, b.vsync_mode);
    assert_eq!(a.screen_shake_intensity, b.screen_shake_intensity);
    assert_eq!(a.debug_mode, b.debug_mode);
    assert_eq!(a.noclip, b.noclip);
    assert_eq!(a.more_rust, b.more_rust);
    assert_eq!(a.cutscene_skip_mode, b.cutscene_skip_mode);
    assert_eq!(a.discord_rpc, b.discord_rpc);
    assert_eq!(a.allow_strafe, b.allow_strafe);
}

#[test]
fn rumble_defaults_are_enabled_and_enhanced_for_new_and_missing_settings() {
    let defaults = Settings::default();
    assert!(defaults.player1_rumble && defaults.player2_rumble);
    assert_eq!(defaults.player1_rumble_mode, RumbleMode::Enhanced);
    assert_eq!(defaults.player2_rumble_mode, RumbleMode::Enhanced);
    let loaded = Settings::default().upgrade();
    assert!(loaded.player1_rumble && loaded.player2_rumble);
    assert_eq!(loaded.player1_rumble_mode, RumbleMode::Enhanced);
    assert_eq!(loaded.player2_rumble_mode, RumbleMode::Enhanced);
}

#[test]
fn rumble_modes_default_for_old_configs_without_changing_switches() {
    let mut loaded = Settings::default();
    loaded.player1_rumble = true;
    loaded.player2_rumble = false;
    loaded.player1_rumble_mode = RumbleMode::default();
    loaded.player2_rumble_mode = RumbleMode::default();
    let saved = loaded.upgrade();
    assert_eq!(saved.player1_rumble_mode, RumbleMode::Enhanced);
    assert_eq!(saved.player2_rumble_mode, RumbleMode::Enhanced);
    assert!(saved.player1_rumble);
    assert!(!saved.player2_rumble);
}

#[test]
fn rumble_modes_roundtrip_independently_even_when_disabled() {
    let mut settings = Settings::default();
    settings.player1_rumble = false;
    settings.player1_rumble_mode = RumbleMode::Enhanced;
    settings.player2_rumble_mode = RumbleMode::Original;
    let mut expected = Settings::default();
    expected.player1_rumble = false;
    expected.player1_rumble_mode = RumbleMode::Enhanced;
    expected.player2_rumble_mode = RumbleMode::Original;
    assert_same(&settings.upgrade(), &expected);
}

#[test]
fn android_language_tracks_platform_changes_and_preserves_manual_choice() {
    let mut settings = Settings::default();
    settings.follow_system_language = true;
    settings.apply_android_language("system:jp");
    assert_eq!(settings.locale, "jp");
    settings.locale = "en".into();
    settings.follow_system_language = false;
    settings.apply_android_language("system:jp");
    assert_eq!(settings.locale, "en", "manual selection survives restart");
    settings.apply_android_language("app:zh-Hans");
    assert_eq!(settings.locale, "zh-Hans", "Android app language overrides previous selection");
    settings.apply_android_language("system:jp");
    assert_eq!(settings.locale, "jp", "returning to system default takes effect");
}

#[test]
fn android_language_detects_changes_between_locales_with_the_same_fallback() {
    let mut settings = Settings::default();
    settings.follow_system_language = true;
    settings.apply_android_language("system:en:en-US");
    settings.locale = "jp".into();
    settings.follow_system_language = false;
    settings.apply_android_language("system:en:en-US");
    assert_eq!(settings.locale, "jp");
    settings.apply_android_language("system:en:fr-FR");
    assert_eq!(settings.locale, "en", "a new system locale selects the English fallback");
}

#[test]
fn android_language_migration_keeps_old_saved_choices() {
    let mut settings = Settings::default();
    settings.locale = "jp".into();
    settings.follow_system_language = false;
    settings.android_language = None;
    settings.apply_android_language("system:zh-Hans");
    assert_eq!(settings.locale, "jp");
    let mut settings = Settings::default();
    settings.locale = "jp".into();
    settings.apply_android_language("app:en");
    assert_eq!(settings.locale, "en", "explicit Android application preference");
}

#[test]
fn unknown_android_selections_change_nothing() {
    let mut settings = Settings::default();
    settings.follow_system_language = true;
    for selection in ["", "system", "system:de", "web:jp", "systemjp", ":jp"] {
        settings.apply_android_language(selection);
        assert_eq!(settings.locale, "en");
        assert_eq!(settings.android_language, None);
    }
    settings.apply_android_language("system:jp:ja-JP");
    assert_eq!(settings.locale, "jp");
    assert_eq!(settings.android_language.as_deref(), Some("system:jp:ja-JP"));
}

#[test]
fn automatic_sensitivity_respects_player_two_assignment() {
    let mut settings = Settings::default();
    settings.player1_controller_type = ControllerType::Keyboard;
    settings.player2_controller_type = ControllerType::Gamepad(1);
    settings.player1_controller_axis_sensitivity = 0.6f64.to_bits();
    settings.player2_controller_axis_sensitivity = 0.4f64.to_bits();
    assert_eq!(settings.get_gamepad_axis_sensitivity(0), 0.6f64.to_bits());
    assert_eq!(settings.get_gamepad_axis_sensitivity(1), 0.4f64.to_bits());
    settings.auto_controller_switching = false;
    assert_eq!(settings.get_gamepad_axis_sensitivity(0), DEFAULT_SENSITIVITY);
    assert_eq!(f64::from_bits(DEFAULT_SENSITIVITY), 0.3);
}

#[test]
fn upgrade_preserves_existing_layout_and_enables_auto_input() {
    let settings = old_settings().upgrade();
    assert_eq!(settings.version, 26);
    assert!(settings.auto_controller_switching);
    for map in [&settings.player1_controller_button_map, &settings.player2_controller_button_map] {
        assert_eq!(map.menu_ok, PlayerControllerInputType::ButtonInput(Button::South));
        assert_eq!(map.map, PlayerControllerInputType::ButtonInput(Button::North));
    }
    assert_same(&settings, &old_settings().upgrade().upgrade());
}

#[test]
fn upgrade_preserves_custom_bindings_and_other_settings() {
    let mut settings = old_settings();
    settings.player1_controller_button_map.jump = PlayerControllerInputType::ButtonInput(Button::LeftStick);
    let before = settings.player1_controller_button_map;
    let after = settings.upgrade();
    assert_eq!(before, after.player1_controller_button_map);
    let reference = old_settings();
    assert_eq!(reference.player1_controller_type, after.player1_controller_type);
    assert_eq!(reference.player1_rumble, after.player1_rumble);
    assert_eq!(reference.player1_key_map, after.player1_key_map);
    assert_eq!(reference.locale, after.locale);
    assert_eq!(reference.touch_controls, after.touch_controls);
}

#[test]
fn switching_presets_restores_saved_custom_mapping() {
    let mut map = player_default_controller_button_map();
    map.jump = PlayerControllerInputType::ButtonInput(Button::LeftStick);
    let original = map;
    let mut custom = None;
    map.switch_layout(1, &mut custom);
    assert_eq!(map, psp_controller_button_map());
    assert_eq!(custom, Some(original));
    map.switch_layout(0, &mut custom);
    assert_eq!(map, player_default_controller_button_map());
    map.switch_layout(2, &mut custom);
    assert_eq!(map, original);
}

#[test]
fn old_files_walk_every_migration() {
    let mut settings = Settings::default();
    settings.version = 2;
    settings.locale = "Japanese".into();
    settings.soundtrack = "Remastered".into();
    settings.player1_key_map.skip = cavestory::keyboard::ScanCode::E;
    settings.more_rust = true;
    let upgraded = settings.upgrade();
    assert_eq!(upgraded.version, 26);
    assert_eq!(upgraded.locale, "en", "version 6 reset the language");
    assert_eq!(upgraded.soundtrack, "remastered");
    assert_eq!(upgraded.player1_key_map.skip, cavestory::keyboard::ScanCode::Q);
    assert!(!upgraded.more_rust);
    assert_eq!(upgraded.player1_key_map.menu_ok, upgraded.player1_key_map.jump);
}

#[test]
fn language_names_become_locale_codes() {
    for (name, code) in [("English", "en"), ("Japanese", "jp"), ("Klingon", "en")] {
        let mut settings = Settings::default();
        settings.version = 20;
        settings.locale = name.into();
        assert_eq!(settings.upgrade().locale, code);
    }
}

#[test]
fn future_and_ancient_versions_are_left_alone() {
    for version in [0, 1, 26, 99] {
        let mut settings = Settings::default();
        settings.version = version;
        settings.locale = "English".into();
        let upgraded = settings.upgrade();
        assert_eq!(upgraded.version, version);
        assert_eq!(upgraded.locale, "English");
    }
}

#[test]
fn layout_index_names_presets_and_custom_maps() {
    assert_eq!(player_default_controller_button_map().layout_index(), 0);
    assert_eq!(psp_controller_button_map().layout_index(), 1);
    let mut custom = player_default_controller_button_map();
    custom.skip = PlayerControllerInputType::ButtonInput(Button::Guide);
    assert_eq!(custom.layout_index(), 2);
    assert_eq!(p1_default_keymap().jump, cavestory::keyboard::ScanCode::Z);
}

#[test]
fn player_one_follows_the_last_used_pad_but_not_player_two() {
    let mut pads = GamepadContext::new();
    pads.add_gamepad(10);
    pads.add_gamepad(20);
    let mut settings = Settings::default();
    assert_eq!(settings.player1_gamepad_index(&pads), Some(0));
    pads.set_button(20, Button::South, true);
    assert_eq!(settings.player1_gamepad_index(&pads), Some(1));
    settings.player2_controller_type = ControllerType::Gamepad(1);
    assert_eq!(settings.player1_gamepad_index(&pads), Some(0));
    settings.auto_controller_switching = false;
    settings.player1_controller_type = ControllerType::Gamepad(3);
    assert_eq!(settings.player1_gamepad_index(&pads), None);
    settings.player1_controller_type = ControllerType::Gamepad(1);
    assert_eq!(settings.player1_gamepad_index(&pads), Some(1));
}

#[test]
fn players_read_their_assigned_devices() {
    let mut settings = Settings::default();
    settings.touch_controls = true;
    let p1 = settings.create_player1_controller();
    assert!(p1.keyboard && p1.touch);
    assert_eq!(p1.gamepad, Some(0));
    assert_eq!(settings.create_player2_controller().gamepad, None);
    settings.player2_controller_type = ControllerType::Gamepad(1);
    settings.player2_rumble = false;
    let p2 = settings.create_player2_controller();
    assert_eq!((p2.gamepad, p2.gamepad_rumble), (Some(1), Some(false)));
}

#[test]
fn fresh_installs_start_in_chinese_only_with_the_complete_chinese_data() {
    assert_eq!(fresh_install_settings(true, true).locale, "zh-Hans");
    assert_eq!(fresh_install_settings(true, false).locale, Settings::default().locale);
    assert_eq!(fresh_install_settings(false, true).locale, Settings::default().locale);
}

#[test]
fn language_refresh_never_replaces_unreadable_settings() {
    let mut settings = Settings::default();
    settings.follow_system_language = true;
    assert!(settings.android_selection_is_new("system:jp"));
    let refresh = settings.refresh_android_language("system:jp", true);
    assert_eq!(refresh, LanguageRefresh { locale_changed: false, save: false });
    assert_eq!(settings.android_language, None);
    let refresh = settings.refresh_android_language("system:jp", false);
    assert_eq!(refresh, LanguageRefresh { locale_changed: true, save: true });
    assert_eq!(settings.locale, "jp");
    assert!(!settings.android_selection_is_new("system:jp"));
    let again = settings.refresh_android_language("system:jp", true);
    assert_eq!(again, LanguageRefresh { locale_changed: false, save: false });
    assert_eq!(settings.android_language.as_deref(), Some("system:jp"));
}

#[test]
fn automatic_switching_picks_the_pad_used_last_and_the_first_on_a_tie() {
    let mut settings = Settings::default();
    settings.auto_controller_switching = true;
    let mut pads = GamepadContext::new();
    pads.add_gamepad(1);
    pads.add_gamepad(2);
    assert_eq!(settings.player1_gamepad_index(&pads), Some(0));
    pads.set_button(2, Button::South, true);
    assert_eq!(settings.player1_gamepad_index(&pads), Some(1));
    settings.player2_controller_type = ControllerType::Gamepad(1);
    assert_eq!(settings.player1_gamepad_index(&pads), Some(0));
}

#[test]
fn android_upgrades_and_defaults_keep_a_touch_path() {
    let mut saved = Settings::default();
    saved.version = 25;
    saved.touch_controls = false;
    let mut copy = Settings::default();
    copy.version = 25;
    copy.touch_controls = false;
    let desktop = copy.upgrade_on(false);
    assert!(!desktop.touch_controls);
    let android = saved.upgrade_on(true);
    assert!(android.touch_controls);
    assert_eq!(android.version, desktop.version);
    assert!(platform_default(true).touch_controls);
    assert!(!platform_default(false).touch_controls);
}
