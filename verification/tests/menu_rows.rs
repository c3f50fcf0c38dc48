use cavestory::controls_menu::{ControlEntry, ControlsMenu, MenuPlayer, RebindMenuEntry, SelectControllerMenuEntry};
use cavestory::gamepad::{Button, GamepadRects, GamepadType, PlayerControllerInputType, Rect};
use cavestory::gamepad_context::GamepadContext;
use cavestory::i18n::Locale;
use cavestory::menu_rows::{binding_display, BindingPicture, RowData, RumbleSettingsRequest};
use cavestory::settings::{ControllerType, Settings};

fn rects() -> GamepadRects {
    let mut button_rects = [[Rect::new(0, 0, 0, 0); 4]; 15];
    for (b, row) in button_rects.iter_mut().enumerate() {
        for (o, rect) in row.iter_mut().enumerate() {
            let left = (b * 16) as u16;
            let top = (o * 16) as u16;
            *rect = Rect::new(left, top, left + 16, top + 16);
        }
    }
    let mut axis_rects = [[Rect::new(0, 0, 0, 0); 4]; 6];
    for (a, row) in axis_rects.iter_mut().enumerate() {
        for (o, rect) in row.iter_mut().enumerate() {
            let left = 256 + (a * 16) as u16;
            let top = (o * 16) as u16;
            *rect = Rect::new(left, top, left + 16, top + 16);
        }
    }
    GamepadRects { button_rects, axis_rects }
}

fn english() -> Locale {
    let mut loc = Locale::default();
    loc.strings.insert("menus.controls_menu.rebind_menu.jump".into(), "Jump".into());
    loc.strings.insert("menus.controls_menu.rebind_confirm_menu.title".into(), "Press a button for {control}".into());
    loc.strings.insert("menus.controls_menu.rebind_confirm_menu.cancel".into(), "Hold Esc to cancel".into());
    loc.strings.insert("menus.controls_menu.rebind_confirm_menu.cancel_touch".into(), "Tap to cancel".into());
    loc.strings.insert("menus.controls_menu.custom_layout".into(), "Custom".into());
    loc.strings.insert("common.back".into(), "< Back".into());
    loc
}

#[test]
fn control_names_come_from_the_locale() {
    let loc = english();
    assert_eq!(ControlEntry::Jump.to_string(&loc), "Jump");
    assert_eq!(ControlEntry::ShowMap.to_string(&loc), "menus.controls_menu.rebind_menu.map");
    assert_eq!(ControlEntry::ShowMap.locale_key(), "menus.controls_menu.rebind_menu.map");
}

#[test]
fn paired_buttons_show_both_pictures() {
    let r = rects();
    let pair = PlayerControllerInputType::EitherButtons(Button::South, Button::East);
    assert_eq!(
        binding_display(pair, 2, &r),
        BindingPicture::RectPair(Rect::new(0, 32, 16, 48), Rect::new(16, 32, 32, 48))
    );
    let single = PlayerControllerInputType::ButtonInput(Button::Guide);
    assert_eq!(binding_display(single, 1, &r), BindingPicture::Rect(Rect::new(0, 0, 0, 0)));
}

#[test]
fn rebind_rows_list_keys_then_reset_and_back() {
    let settings = Settings::default();
    let pads = GamepadContext::new();
    let loc = english();
    let mut menu = ControlsMenu::new();
    menu.init(&settings, true, false);
    let rows = menu.update_rebind_menu(&settings, &pads, &loc, &rects());
    assert_eq!(rows.len(), menu.player1_key_map.len() + 2);
    let (control, key) = menu.player1_key_map[0];
    assert_eq!(rows[0].entry, RebindMenuEntry::Control(control));
    assert_eq!(rows[0].data, Some(RowData::Key(key)));
    let last = rows.len() - 1;
    assert_eq!(rows[last].entry, RebindMenuEntry::Back);
    assert_eq!(rows[last].label, "< Back");
    assert_eq!(rows[last - 1].entry, RebindMenuEntry::Reset);
    assert_eq!(rows[last - 1].data, None);
}

#[test]
fn gamepad_rows_use_the_pads_sprite_row() {
    let mut settings = Settings::default();
    settings.auto_controller_switching = false;
    settings.player2_controller_type = ControllerType::Gamepad(0);
    let mut pads = GamepadContext::new();
    pads.add_gamepad(5);
    pads.set_gamepad_type(5, GamepadType::PS4);
    let loc = english();
    let r = rects();
    let mut menu = ControlsMenu::new();
    menu.init(&settings, true, false);
    menu.selected_player = MenuPlayer::Player2;
    menu.selected_controller = ControllerType::Gamepad(0);
    let rows = menu.update_rebind_menu(&settings, &pads, &loc, &r);
    assert_eq!(rows.len(), menu.player2_controller_button_map.len() + 2);
    for (i, (control, input)) in menu.player2_controller_button_map.iter().enumerate() {
        assert_eq!(rows[i].entry, RebindMenuEntry::Control(*control));
        assert_eq!(rows[i].data, Some(RowData::Picture(binding_display(*input, 0, &r))));
    }
}

#[test]
fn confirm_page_names_the_control_and_the_way_to_cancel() {
    let mut settings = Settings::default();
    let loc = english();
    let mut menu = ControlsMenu::new();
    assert_eq!(menu.update_confirm_controls_menu(&settings, &loc), None);
    menu.selected_control = Some(ControlEntry::Jump);
    assert_eq!(
        menu.update_confirm_controls_menu(&settings, &loc),
        Some(("Press a button for Jump".to_string(), "Hold Esc to cancel".to_string()))
    );
    settings.touch_controls = true;
    assert_eq!(menu.update_confirm_controls_menu(&settings, &loc).map(|l| l.1), Some("Tap to cancel".to_string()));
}

#[test]
fn layout_choice_offers_custom_only_when_saved_or_in_use() {
    let mut settings = Settings::default();
    let loc = english();
    let mut menu = ControlsMenu::new();
    let options = menu.update_layout_options(&settings, &loc);
    assert_eq!((options.selected, options.names.clone()), (0, vec!["Xbox".to_string(), "PSP".to_string()]));
    settings.player2_custom_controller_button_map = Some(settings.player2_controller_button_map);
    menu.selected_player = MenuPlayer::Player2;
    let options = menu.update_layout_options(&settings, &loc);
    assert_eq!(options.names, vec!["Xbox".to_string(), "PSP".to_string(), "Custom".to_string()]);
    assert_eq!(options.label, "menus.controls_menu.layout");
}

#[test]
fn rumble_settings_open_for_the_selected_players_pad() {
    let mut settings = Settings::default();
    settings.auto_controller_switching = false;
    settings.player1_controller_type = ControllerType::Gamepad(0);
    settings.player2_controller_type = ControllerType::Gamepad(1);
    settings.player2_controller_button_map.menu_ok = PlayerControllerInputType::ButtonInput(Button::North);
    let mut pads = GamepadContext::new();
    pads.add_gamepad(11);
    pads.add_gamepad(22);
    let mut menu = ControlsMenu::new();
    assert_eq!(
        menu.rumble_settings_request(&settings, &pads, false),
        RumbleSettingsRequest { player: 1, instance: Some(11), allowed: true, ok: 96, back: 97 }
    );
    menu.selected_player = MenuPlayer::Player2;
    assert_eq!(
        menu.rumble_settings_request(&settings, &pads, false),
        RumbleSettingsRequest { player: 2, instance: Some(22), allowed: false, ok: 100, back: 97 }
    );
    assert!(menu.rumble_settings_request(&settings, &pads, true).allowed);
    settings.player2_controller_type = ControllerType::Keyboard;
    assert_eq!(menu.rumble_settings_request(&settings, &pads, true).instance, None);
}

#[test]
fn rebuilding_the_menu_input_reads_both_players_devices() {
    let mut settings = Settings::default();
    settings.player2_controller_type = ControllerType::Gamepad(1);
    let mut menu = ControlsMenu::new();
    let (p1, p2) = menu.rebuild_menu_controller(&settings);
    assert!(menu.input_busy);
    assert_eq!(p1, settings.create_player1_controller());
    assert_eq!((p2.gamepad, p2.keyboard), (Some(1), true));
}

#[test]
fn controller_page_names_each_choice() {
    let mut settings = Settings::default();
    settings.touch_controls = true;
    let mut pads = GamepadContext::new();
    pads.add_gamepad(7);
    pads.set_gamepad_type(7, GamepadType::PS4);
    assert_eq!(pads.get_gamepad_name(0).as_deref(), Some("PlayStation 4 controller"));
    assert_eq!(pads.get_gamepad_name(1), None);
    let loc = english();
    let menu = ControlsMenu::new();
    let entries = menu.controller_entries(&settings, &pads, &loc);
    assert_eq!(
        entries,
        vec![
            (SelectControllerMenuEntry::Automatic, "menus.controls_menu.controller.automatic".to_string()),
            (SelectControllerMenuEntry::Keyboard, "menus.controls_menu.controller.touch_controls_or_keyboard".to_string()),
            (SelectControllerMenuEntry::Gamepad(0), "PlayStation 4 controller 1".to_string()),
            (SelectControllerMenuEntry::Back, "< Back".to_string()),
        ]
    );
}
