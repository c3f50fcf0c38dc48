use cavestory::controls_menu::android_key_code;
use cavestory::controls_menu::{
    ConfirmResetMenuEntry, MainMenuEntry, RebindMenuEntry,
    controller_choices, init_key_map, main_entries, menu_step, MenuEvent, MenuStep, normalize_gamepad_input, step_layout, ControlEntry, ControlsMenu, CurrentMenu,
    MenuPlayer, RebindOutcome, SelectControllerMenuEntry,
};
use cavestory::gamepad::{Axis, AxisDirection, Button, PlayerControllerInputType};
use cavestory::gamepad_context::GamepadContext;
use cavestory::keyboard::ScanCode;
use cavestory::settings::{p1_default_keymap, player_default_controller_button_map, ControllerType, RumbleMode, Settings};

#[test]
fn automatic_rebind_uses_effective_pad_not_saved_keyboard() {
    let mut settings = Settings::default();
    let mut pads = GamepadContext::new();
    settings.player1_controller_type = ControllerType::Keyboard;
    settings.auto_controller_switching = true;
    pads.add_gamepad(91);
    assert!(MenuPlayer::Player1.controller_type(&settings, &pads) == ControllerType::Gamepad(0));
    settings.auto_controller_switching = false;
    assert!(MenuPlayer::Player1.controller_type(&settings, &pads) == ControllerType::Keyboard);
}

#[test]
fn rebinding_jump_to_the_shoot_key_swaps_them() {
    let mut settings = Settings::default();
    let mut menu = ControlsMenu::new();
    menu.init(&settings, true, false);
    menu.selected_control = Some(ControlEntry::Jump);
    assert!(menu.set_key(&mut settings.player1_key_map, ScanCode::X));
    assert_eq!(settings.player1_key_map.jump, ScanCode::X);
    assert_eq!(settings.player1_key_map.shoot, ScanCode::Z);
    assert_eq!(menu.player1_key_map, init_key_map(&settings.player1_key_map));
    menu.selected_control = Some(ControlEntry::Skip);
    menu.set_key(&mut settings.player1_key_map, ScanCode::E);
    assert_eq!(settings.player1_key_map.skip, ScanCode::E);
    assert_eq!(settings.player1_key_map.inventory, p1_default_keymap().inventory);
}

#[test]
fn waiting_for_a_key_refuses_taken_and_function_keys() {
    let mut settings = Settings::default();
    let mut menu = ControlsMenu::new();
    menu.init(&settings, true, false);
    menu.selected_control = Some(ControlEntry::ShowMap);
    menu.current = CurrentMenu::ConfirmRebindMenu;
    let p2_key = settings.player2_key_map.jump;
    assert_eq!(menu.confirm_rebind_key(&mut settings.player1_key_map, &vec![p2_key], false), RebindOutcome::Refused);
    assert_eq!(menu.confirm_rebind_key(&mut settings.player1_key_map, &vec![ScanCode::K], false), RebindOutcome::Waiting);
    menu.input_busy = false;
    assert_eq!(menu.confirm_rebind_key(&mut settings.player1_key_map, &vec![ScanCode::F5], false), RebindOutcome::Refused);
    menu.input_busy = false;
    assert_eq!(menu.confirm_rebind_key(&mut settings.player1_key_map, &vec![ScanCode::K], false), RebindOutcome::Bound);
    assert_eq!(settings.player1_key_map.map, ScanCode::K);
    assert_eq!(menu.current, CurrentMenu::RebindMenu);
    menu.selected_control = Some(ControlEntry::Up);
    assert_eq!(menu.confirm_rebind_key(&mut settings.player1_key_map, &vec![ScanCode::Escape], false), RebindOutcome::Cancelled);
}

#[test]
fn gamepad_rebinding_normalizes_directions() {
    let mut settings = Settings::default();
    let mut menu = ControlsMenu::new();
    menu.init(&settings, true, false);
    menu.selected_controller = ControllerType::Gamepad(0);
    menu.selected_control = Some(ControlEntry::Up);
    let outcome = menu.confirm_rebind_gamepad(
        &mut settings.player1_controller_button_map,
        &vec![],
        &vec![Button::DPadUp],
        &vec![],
        ControllerType::Gamepad(0),
        false,
    );
    assert_eq!(outcome, RebindOutcome::Bound);
    assert_eq!(
        settings.player1_controller_button_map.up,
        PlayerControllerInputType::Either(Button::DPadUp, Axis::LeftY, AxisDirection::Up)
    );
    menu.input_busy = false;
    menu.selected_control = Some(ControlEntry::Left);
    let outcome = menu.confirm_rebind_gamepad(
        &mut settings.player1_controller_button_map,
        &vec![],
        &vec![],
        &vec![(Axis::RightX, AxisDirection::Left)],
        ControllerType::Gamepad(0),
        false,
    );
    assert_eq!(outcome, RebindOutcome::Bound);
    assert_eq!(
        settings.player1_controller_button_map.left,
        PlayerControllerInputType::Either(Button::DPadLeft, Axis::RightX, AxisDirection::Left)
    );
    assert_eq!(
        normalize_gamepad_input(PlayerControllerInputType::ButtonInput(Button::South)),
        PlayerControllerInputType::ButtonInput(Button::South)
    );
}

#[test]
fn controller_page_hides_the_other_players_pad() {
    let mut settings = Settings::default();
    let mut pads = GamepadContext::new();
    pads.add_gamepad(1);
    pads.add_gamepad(2);
    settings.player2_controller_type = ControllerType::Gamepad(1);
    assert_eq!(
        controller_choices(MenuPlayer::Player1, &settings, &pads),
        vec![
            SelectControllerMenuEntry::Automatic,
            SelectControllerMenuEntry::Keyboard,
            SelectControllerMenuEntry::Gamepad(0),
            SelectControllerMenuEntry::Back,
        ]
    );
    assert_eq!(
        controller_choices(MenuPlayer::Player2, &settings, &pads),
        vec![
            SelectControllerMenuEntry::Keyboard,
            SelectControllerMenuEntry::Gamepad(0),
            SelectControllerMenuEntry::Gamepad(1),
            SelectControllerMenuEntry::Back,
        ]
    );
}

#[test]
fn layout_option_cycles_through_presets_and_custom() {
    assert_eq!(step_layout(0, false, 1), 1);
    assert_eq!(step_layout(1, false, 1), 0);
    assert_eq!(step_layout(0, false, -1), 1);
    assert_eq!(step_layout(1, true, 1), 2);
    assert_eq!(step_layout(2, false, 1), 0);
    assert_eq!(step_layout(0, true, -1), 2);
}

#[test]
fn reset_restores_the_selected_players_defaults() {
    let mut settings = Settings::default();
    let mut menu = ControlsMenu::new();
    menu.init(&settings, true, false);
    settings.player1_key_map.jump = ScanCode::K;
    menu.reset_controls(&mut settings.player1_key_map, &mut settings.player1_controller_button_map);
    assert_eq!(settings.player1_key_map, p1_default_keymap());
}

#[test]
fn controller_options_show_rumble_only_for_a_connected_pad() {
    let mut settings = Settings::default();
    let mut pads = GamepadContext::new();
    let mut menu = ControlsMenu::new();
    menu.init(&settings, true, false);
    settings.auto_controller_switching = false;
    settings.player1_controller_type = ControllerType::Gamepad(0);
    let options = menu.update_controller_options(&settings, &pads);
    assert!(menu.selected_controller == ControllerType::Keyboard);
    assert!(options.rumble.is_none() && options.rumble_mode.is_none());
    assert!(options.selected == SelectControllerMenuEntry::Keyboard);
    pads.add_gamepad(91);
    let options = menu.update_controller_options(&settings, &pads);
    assert!(menu.selected_controller == ControllerType::Gamepad(0));
    assert_eq!(options.rumble, Some(settings.player1_rumble));
    assert_eq!(options.rumble_mode, Some(1));
    assert!(options.selected == SelectControllerMenuEntry::Gamepad(0));
    settings.auto_controller_switching = true;
    let options = menu.update_controller_options(&settings, &pads);
    assert!(options.selected == SelectControllerMenuEntry::Automatic);
    assert_eq!(options.choices.len(), 4);
}

#[test]
fn main_page_choices_toggle_settings_and_open_pages() {
    let mut settings = Settings::default();
    let mut menu = ControlsMenu::new();
    menu.init(&settings, true, false);
    menu.selected_controller = ControllerType::Gamepad(1);
    settings.player1_rumble = false;
    let a = menu.main_menu_choice(
        MainMenuEntry::Rumble,
        &mut settings.player1_rumble,
        &mut settings.player1_rumble_mode,
        &mut settings.display_touch_controls,
        &mut settings.auto_hide_touch_controls,
    );
    assert!(settings.player1_rumble && a.save);
    assert_eq!(a.rumble_test, Some(1));
    let mode = settings.player1_rumble_mode;
    menu.main_menu_choice(
        MainMenuEntry::RumbleMode,
        &mut settings.player1_rumble,
        &mut settings.player1_rumble_mode,
        &mut settings.display_touch_controls,
        &mut settings.auto_hide_touch_controls,
    );
    assert!(settings.player1_rumble_mode != mode);
    assert!(mode == RumbleMode::Enhanced);
    menu.input_busy = true;
    menu.main_menu_choice(
        MainMenuEntry::Controller,
        &mut settings.player1_rumble,
        &mut settings.player1_rumble_mode,
        &mut settings.display_touch_controls,
        &mut settings.auto_hide_touch_controls,
    );
    assert_eq!(menu.current, CurrentMenu::MainMenu);
    menu.release_input(false);
    menu.main_menu_choice(
        MainMenuEntry::Controller,
        &mut settings.player1_rumble,
        &mut settings.player1_rumble_mode,
        &mut settings.display_touch_controls,
        &mut settings.auto_hide_touch_controls,
    );
    assert_eq!(menu.current, CurrentMenu::SelectControllerMenu);
    let a = menu.controller_menu_choice(
        SelectControllerMenuEntry::Gamepad(2),
        &mut settings.auto_controller_switching,
        &mut settings.player1_controller_type,
        &mut settings.player2_controller_type,
    );
    assert!(a.rebuild_input && menu.input_busy);
    assert!(settings.player1_controller_type == ControllerType::Gamepad(2));
    assert!(!settings.auto_controller_switching);
    assert_eq!(menu.current, CurrentMenu::MainMenu);
    let back = menu.main_menu_choice(
        MainMenuEntry::Back,
        &mut settings.player1_rumble,
        &mut settings.player1_rumble_mode,
        &mut settings.display_touch_controls,
        &mut settings.auto_hide_touch_controls,
    );
    assert!(back.exit);
}

#[test]
fn rebind_and_reset_pages_wait_for_released_input() {
    let mut settings = Settings::default();
    let mut menu = ControlsMenu::new();
    menu.init(&settings, true, false);
    menu.current = CurrentMenu::RebindMenu;
    menu.input_busy = true;
    menu.rebind_menu_choice(RebindMenuEntry::Control(ControlEntry::Jump));
    assert_eq!(menu.current, CurrentMenu::RebindMenu);
    menu.release_input(false);
    menu.rebind_menu_choice(RebindMenuEntry::Control(ControlEntry::Jump));
    assert_eq!(menu.current, CurrentMenu::ConfirmRebindMenu);
    assert_eq!(menu.selected_control, Some(ControlEntry::Jump));
    menu.current = CurrentMenu::RebindMenu;
    menu.rebind_menu_choice(RebindMenuEntry::Reset);
    assert_eq!(menu.current, CurrentMenu::ConfirmResetMenu);
    settings.player1_key_map.jump = ScanCode::K;
    menu.init(&settings, true, false);
    menu.reset_menu_choice(ConfirmResetMenuEntry::Yes, &mut settings.player1_key_map, &mut settings.player1_controller_button_map);
    assert_eq!(settings.player1_key_map.jump, p1_default_keymap().jump);
    assert_eq!(menu.current, CurrentMenu::RebindMenu);
    assert!(menu.input_busy);
}

#[test]
fn switching_player_and_layout_follow_the_settings() {
    let mut settings = Settings::default();
    let pads = GamepadContext::new();
    let mut menu = ControlsMenu::new();
    menu.init(&settings, true, false);
    settings.player2_controller_type = ControllerType::Gamepad(1);
    menu.switch_player(&settings, &pads);
    assert!(menu.selected_player == MenuPlayer::Player2);
    assert!(menu.selected_controller == ControllerType::Gamepad(1));
    let before = settings.player2_controller_button_map;
    let a = menu.switch_layout(1, &mut settings.player2_controller_button_map, &mut settings.player2_custom_controller_button_map);
    assert!(a.save && a.rebuild_input);
    assert_eq!(settings.player2_controller_button_map.layout_index(), 1);
    menu.switch_layout(1, &mut settings.player2_controller_button_map, &mut settings.player2_custom_controller_button_map);
    assert!(settings.player2_controller_button_map == player_default_controller_button_map());
    assert!(before == player_default_controller_button_map());
    assert_eq!(menu.player2_controller_button_map.len(), 14);
}

#[test]
fn menu_bindings_name_android_keys() {
    assert_eq!(android_key_code(PlayerControllerInputType::ButtonInput(Button::South), 1), 96);
    assert_eq!(android_key_code(PlayerControllerInputType::EitherButtons(Button::Back, Button::North), 1), 109);
    assert_eq!(android_key_code(PlayerControllerInputType::ButtonInput(Button::DPadUp), 97), 97);
    assert_eq!(android_key_code(PlayerControllerInputType::AxisInput(Axis::LeftX, AxisDirection::Left), 96), 96);
}

#[test]
fn rumble_mode_menu_tracks_selected_player_and_hotplug() {
    let mut settings = Settings::default();
    settings.player2_controller_type = ControllerType::Gamepad(0);
    settings.player2_rumble_mode = RumbleMode::Enhanced;
    let mut pads = GamepadContext::new();
    pads.add_gamepad(91);
    let mut menu = ControlsMenu::new();
    menu.selected_player = MenuPlayer::Player2;
    menu.init(&settings, true, false);
    assert_eq!(menu.update_controller_options(&settings, &pads).rumble_mode, Some(1));
    menu.selected_player = MenuPlayer::Player1;
    assert_eq!(menu.update_controller_options(&settings, &pads).rumble_mode, None, "P1 must not use P2's device");
    menu.selected_player = MenuPlayer::Player2;
    pads.remove_gamepad(91);
    assert_eq!(menu.update_controller_options(&settings, &pads).rumble_mode, None);
}

#[test]
fn main_page_lists_its_entries_in_order() {
    type M = MainMenuEntry;
    assert_eq!(main_entries(true, false, false), vec![M::SelectedPlayer, M::Controller, M::Rebind, M::Rumble, M::RumbleMode, M::Layout, M::Back]);
    assert_eq!(
        main_entries(false, true, true),
        vec![M::Controller, M::Rebind, M::Rumble, M::RumbleMode, M::ShizukuRumble, M::Layout, M::DisplayTouchControls, M::AutoHideTouchControls, M::Back]
    );
    assert_eq!(
        main_entries(true, true, false),
        vec![M::SelectedPlayer, M::Controller, M::Rebind, M::Rumble, M::RumbleMode, M::Layout, M::DisplayTouchControls, M::Back]
    );
    let mut settings = Settings::default();
    settings.touch_controls = true;
    let mut menu = ControlsMenu::new();
    menu.init(&settings, false, true);
    assert_eq!(menu.main_entries, main_entries(false, true, true));
}

#[test]
fn the_menu_is_left_only_from_its_main_page() {
    let exit = MenuStep { next: CurrentMenu::MainMenu, exit: true, reconcile: true };
    assert_eq!(menu_step(CurrentMenu::MainMenu, MenuEvent::Main(MainMenuEntry::Back), false), exit);
    assert_eq!(menu_step(CurrentMenu::MainMenu, MenuEvent::Canceled, true), exit);
    assert!(!menu_step(CurrentMenu::RebindMenu, MenuEvent::Canceled, false).exit);
    assert_eq!(menu_step(CurrentMenu::RebindMenu, MenuEvent::Canceled, false).next, CurrentMenu::MainMenu);
    assert_eq!(menu_step(CurrentMenu::RebindMenu, MenuEvent::Canceled, true).next, CurrentMenu::RebindMenu);
    assert_eq!(
        menu_step(CurrentMenu::MainMenu, MenuEvent::Main(MainMenuEntry::Controller), true),
        MenuStep { next: CurrentMenu::MainMenu, exit: false, reconcile: false }
    );
    assert_eq!(
        menu_step(CurrentMenu::ConfirmResetMenu, MenuEvent::Reset(ConfirmResetMenuEntry::Yes), false).next,
        CurrentMenu::RebindMenu
    );
    assert_eq!(
        menu_step(CurrentMenu::SelectControllerMenu, MenuEvent::Main(MainMenuEntry::Back), false),
        MenuStep { next: CurrentMenu::SelectControllerMenu, exit: false, reconcile: true }
    );
}

#[test]
fn switching_to_the_original_scheme_stops_enhanced_rumble() {
    let mut settings = Settings::default();
    settings.auto_controller_switching = true;
    settings.player1_rumble = true;
    settings.player1_rumble_mode = RumbleMode::Enhanced;
    let mut pads = GamepadContext::new();
    pads.add_gamepad(92);
    let effect = cavestory::rumble::RumbleEffect { low: 1000, high: 2000, duration_ms: 500, priority: 1 };
    assert!(pads.play_effect(0, effect, 1_000).is_some());
    assert!(pads.reconcile_rumble(&settings, false).is_empty());
    let mut menu = ControlsMenu::new();
    menu.init(&settings, true, false);
    let (mut rumble, mut display, mut hide) = (settings.player1_rumble, false, false);
    let action = menu.main_menu_choice(MainMenuEntry::RumbleMode, &mut rumble, &mut settings.player1_rumble_mode, &mut display, &mut hide);
    assert!(action.save);
    assert_eq!(settings.player1_rumble_mode, RumbleMode::Original);
    let step = menu_step(CurrentMenu::MainMenu, MenuEvent::Main(MainMenuEntry::RumbleMode), false);
    assert!(step.reconcile && !step.exit);
    assert_eq!(pads.reconcile_rumble(&settings, false), vec![92]);
}
