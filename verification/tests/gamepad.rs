use cavestory::gamepad::{Axis, AxisDirection, Button, GamepadType, PlayerControllerInputType};
use cavestory::gamepad_context::{
    set_quake_rumble, set_quake_rumble_all, set_super_quake_rumble, set_super_quake_rumble_all, GamepadContext,
};
use cavestory::modes::TimingMode;
use cavestory::settings::{ControllerType, Settings};

const NOW: u64 = 1_000_000_000;

#[test]
fn quake_respects_player_switches_and_does_not_rumble_unassigned_devices() {
    let mut pads = GamepadContext::new();
    for id in [10, 20, 30] {
        pads.add_gamepad(id);
    }
    let mut settings = Settings::default();
    settings.auto_controller_switching = true;
    settings.player1_rumble = false;
    settings.player2_rumble = true;
    settings.player2_controller_type = ControllerType::Gamepad(1);
    let calls = set_quake_rumble_all(&mut pads, &settings, false, 10, 50, NOW);
    assert!(calls.iter().all(|c| c.low == 0 && c.high == 0), "off must suppress story quake too");
    assert!(calls.is_empty());
    let calls = set_quake_rumble_all(&mut pads, &settings, true, 10, 50, NOW);
    let ids: Vec<u32> = calls.iter().filter(|c| c.low != 0 || c.high != 0).map(|c| c.instance_id).collect();
    assert_eq!(ids, vec![20]);
}

#[test]
fn either_map_button_works_and_releases_across_reconnect() {
    let binding = PlayerControllerInputType::EitherButtons(Button::North, Button::Back);
    let mut pads = GamepadContext::new();
    assert!(!pads.is_active(0, &binding, false));
    pads.add_gamepad(7);
    for button in [Button::North, Button::Back] {
        pads.set_button(7, button, true);
        assert!(pads.is_active(0, &binding, false));
        assert!(!pads.is_active(1, &binding, false));
        pads.set_button(7, button, false);
        assert!(!pads.is_active(0, &binding, false));
    }
    pads.set_button(7, Button::North, true);
    pads.set_button(7, Button::Back, true);
    pads.set_button(7, Button::North, false);
    assert!(pads.is_active(0, &binding, false));
    pads.remove_gamepad(7);
    pads.add_gamepad(9);
    assert!(!pads.is_active(0, &binding, false));
}

#[test]
fn auto_selects_real_activity_but_not_release_or_axis_drift() {
    // Axis positions are judged by the caller; `true` marks a push past the threshold.
    let mut pads = GamepadContext::new();
    assert_eq!(pads.automatic_gamepad_index(None), None);
    pads.add_gamepad(41);
    pads.add_gamepad(73);
    assert_eq!(pads.automatic_gamepad_index(None), Some(0));
    pads.set_axis_activity(73, false);
    assert_eq!(pads.automatic_gamepad_index(None), Some(0));
    pads.set_button(73, Button::South, true);
    assert_eq!(pads.automatic_gamepad_index(None), Some(1));
    assert_eq!(pads.automatic_gamepad_index(Some(1)), Some(0));
    pads.set_button(41, Button::North, false);
    assert_eq!(pads.automatic_gamepad_index(None), Some(1));
    pads.set_axis_activity(41, true);
    assert_eq!(pads.automatic_gamepad_index(None), Some(0));
    pads.set_button(73, Button::North, true);
    pads.set_axis_activity(41, false);
    assert_eq!(pads.automatic_gamepad_index(None), Some(1));
    pads.remove_gamepad(73);
    assert_eq!(pads.automatic_gamepad_index(None), Some(0));
    assert_eq!(pads.automatic_gamepad_index(Some(0)), None);
}

#[test]
fn disconnect_keeps_other_players_slot_and_reuses_vacancy() {
    let mut pads = GamepadContext::new();
    pads.add_gamepad(41);
    pads.add_gamepad(73);
    pads.set_button(73, Button::South, true);
    pads.remove_gamepad(41);
    assert!(pads.is_button_active(1, Button::South));
    assert!(!pads.is_button_active(0, Button::South));
    pads.add_gamepad(90);
    pads.set_button(90, Button::North, true);
    assert!(pads.is_button_active(0, Button::North));
    assert!(!pads.is_button_active(1, Button::North));
}

#[test]
fn repeated_press_is_not_new_activity() {
    let mut pads = GamepadContext::new();
    pads.add_gamepad(5);
    pads.set_button(5, Button::South, true);
    assert_eq!(pads.current_input_sequence(), 1);
    pads.set_button(5, Button::South, true);
    assert_eq!(pads.current_input_sequence(), 1);
    pads.set_button(5, Button::South, false);
    assert_eq!(pads.current_input_sequence(), 1);
    assert_eq!(pads.last_input(0), 1);
    pads.set_button(99, Button::South, true);
    assert_eq!(pads.current_input_sequence(), 1);
}

#[test]
fn adding_a_connected_pad_again_changes_nothing() {
    let mut pads = GamepadContext::new();
    pads.add_gamepad(5);
    pads.add_gamepad(5);
    assert_eq!(pads.slot_count(), 1);
    assert_eq!(pads.instance_id(0), Some(5));
    assert_eq!(pads.index_for_instance(5), Some(0));
    assert_eq!(pads.index_for_instance(6), None);
}

#[test]
fn sprite_rows_follow_the_controller_model() {
    let mut pads = GamepadContext::new();
    assert_eq!(pads.get_gamepad_sprite_offset(0), 1);
    pads.add_gamepad(5);
    assert_eq!(pads.get_gamepad_sprite_offset(0), 1);
    pads.set_gamepad_type(5, GamepadType::PS4);
    assert_eq!(pads.get_gamepad_sprite_offset(0), 0);
    pads.set_gamepad_type(5, GamepadType::NintendoSwitchPro);
    assert_eq!(pads.get_gamepad_sprite_offset(0), 3);
    pads.set_gamepad_type(5, GamepadType::Virtual);
    assert_eq!(pads.get_gamepad_sprite_offset(0), 1);
    assert_eq!(GamepadType::PS5.get_name(), "PlayStation 5 controller");
}

#[test]
fn rumble_is_sent_once_until_a_stronger_effect() {
    let mut pads = GamepadContext::new();
    pads.add_gamepad(5);
    let first = set_quake_rumble(&mut pads, 0, 10, 50, NOW).unwrap();
    assert_eq!((first.instance_id, first.low, first.high, first.duration_ms), (5, 0x3000, 0, 200));
    assert!(set_quake_rumble(&mut pads, 0, 10, 50, NOW + 1).is_some());
    assert!(set_super_quake_rumble(&mut pads, 0, 10, 50, NOW + 2).is_some());
    assert!(set_quake_rumble(&mut pads, 0, 10, 50, NOW + 3).is_none());
    assert!(set_quake_rumble(&mut pads, 1, 10, 50, NOW).is_none());
    assert_eq!(pads.stop_rumble(), vec![5]);
    assert!(pads.stop_rumble().is_empty());
}

#[test]
fn removing_a_rumbling_pad_asks_to_stop_it() {
    let mut pads = GamepadContext::new();
    pads.add_gamepad(5);
    pads.set_rumble(0, 1000, 2000, 50, 50, NOW);
    assert!(pads.remove_gamepad(5));
    assert!(!pads.remove_gamepad(5));
}

#[test]
fn reconcile_stops_unowned_and_mismatched_rumble() {
    let mut pads = GamepadContext::new();
    pads.add_gamepad(5);
    pads.add_gamepad(6);
    let mut settings = Settings::default();
    settings.auto_controller_switching = false;
    settings.player1_controller_type = ControllerType::Gamepad(0);
    pads.set_rumble(0, 1000, 2000, 50, 50, NOW);
    pads.set_rumble(1, 1000, 2000, 50, 50, NOW);
    assert_eq!(pads.reconcile_rumble(&settings, false), vec![6]);
    assert!(pads.reconcile_rumble(&settings, false).is_empty());
    settings.player1_rumble = false;
    assert_eq!(pads.reconcile_rumble(&settings, false), vec![5]);
}

#[test]
fn pressed_buttons_lists_the_held_buttons() {
    let mut pads = GamepadContext::new();
    pads.add_gamepad(5);
    pads.set_button(5, Button::East, true);
    pads.set_button(5, Button::West, true);
    pads.set_button(5, Button::East, false);
    assert_eq!(pads.pressed_buttons(0), vec![Button::West]);
    assert!(pads.pressed_buttons(3).is_empty());
    let axis = PlayerControllerInputType::Either(Button::DPadUp, Axis::LeftY, AxisDirection::Up);
    assert!(pads.is_active(0, &axis, true));
    assert!(!pads.is_active(0, &axis, false));
}

#[test]
fn sensitivity_updates_follow_reused_slots_not_instance_ids() {
    // The caller judges stick positions against the slot's sensitivity (0.6
    // after the update): 0.4 stays below it, 0.8 goes past it.
    let mut pads = GamepadContext::new();
    pads.add_gamepad(41);
    pads.add_gamepad(73);
    pads.set_button(73, Button::South, true);
    pads.remove_gamepad(41);
    pads.add_gamepad(90);
    let slot = pads.index_for_instance(90).unwrap();
    assert_eq!(slot, 0);
    pads.set_axis_activity(90, false);
    assert_eq!(pads.automatic_gamepad_index(None), Some(1));
    pads.set_axis_activity(90, true);
    assert_eq!(pads.automatic_gamepad_index(None), Some(0));
}

#[test]
fn super_quake_reaches_the_same_pads_as_a_quake() {
    let mut pads = GamepadContext::new();
    for id in [10, 20, 30] {
        pads.add_gamepad(id);
    }
    let mut settings = Settings::default();
    settings.auto_controller_switching = true;
    settings.player1_rumble = false;
    settings.player2_rumble = true;
    settings.player2_controller_type = ControllerType::Gamepad(1);
    let calls = set_super_quake_rumble_all(&mut pads, &settings, true, 10, TimingMode::_50Hz.get_tps(), NOW);
    let ids: Vec<u32> = calls.iter().filter(|c| c.low != 0 || c.high != 0).map(|c| c.instance_id).collect();
    assert_eq!(ids, vec![20]);
    assert!(calls.iter().all(|c| c.low == c.high));
    assert_eq!((TimingMode::_60Hz.get_tps(), TimingMode::FrameSynchronized.get_tps()), (60, 0));
}

#[test]
fn rumble_mode_menu_tick_stops_motor_after_disable() {
    let mut settings = Settings::default();
    settings.auto_controller_switching = true;
    settings.player1_rumble = true;
    let mut pads = GamepadContext::new();
    pads.add_gamepad(92);
    let started = pads.set_rumble(0, 1000, 2000, 50, 50, NOW).unwrap();
    assert_eq!((started.instance_id, started.low, started.high, started.duration_ms), (92, 1000, 2000, 1000));
    settings.player1_rumble = false;
    assert_eq!(pads.reconcile_rumble(&settings, false), vec![92]);
    assert!(pads.reconcile_rumble(&settings, false).is_empty());
}
