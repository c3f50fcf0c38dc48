use cavestory::prompts::bound_directions;
use cavestory::settings::player_default_controller_button_map;
use cavestory::gamepad::{Axis, AxisDirection, Button, GamepadRects, PlayerControllerInputType, Rect};
use cavestory::gamepad_context::GamepadContext;
use cavestory::keyboard::ScanCode;
use cavestory::prompts::{
    binding_prompt, prompt_button, prompt_gamepad_activity, prompt_key, prompt_touch, skip_prompt, source, InputSource,
    PromptHistory,
};
use cavestory::settings::{ControllerType, Settings};

fn rects() -> GamepadRects {
    let mut button_rects = [[Rect::new(0, 0, 0, 0); 4]; 15];
    for (b, row) in button_rects.iter_mut().enumerate() {
        for (o, rect) in row.iter_mut().enumerate() {
            let left = (b * 16) as u16;
            let top = (o * 16) as u16;
            *rect = Rect::new(left, top, left + 16, top + 16);
        }
    }
    let mut axis_rects = [[Rect::new(0, 0, 0, 0); 4]; 6];
    for (a, row) in axis_rects.iter_mut().enumerate() {
        for (o, rect) in row.iter_mut().enumerate() {
            let left = 256 + (a * 16) as u16;
            let top = (o * 16) as u16;
            *rect = Rect::new(left, top, left + 16, top + 16);
        }
    }
    GamepadRects { button_rects, axis_rects }
}

#[test]
fn automatic_keyboard_configuration_uses_active_pad_prompt() {
    let mut history = PromptHistory::new();
    let mut pads = GamepadContext::new();
    let settings = Settings::default();
    pads.add_gamepad(42);
    prompt_button(&mut history, &mut pads, &settings, 42, Button::West, true);
    assert_eq!(source(&history, &pads, &settings), InputSource::Gamepad(42));
}

#[test]
fn manual_assignment_and_disconnected_pad_fall_back_to_keyboard() {
    let mut history = PromptHistory::new();
    let mut pads = GamepadContext::new();
    let mut settings = Settings::default();
    settings.auto_controller_switching = false;
    settings.player1_controller_type = ControllerType::Gamepad(0);
    pads.add_gamepad(42);
    pads.add_gamepad(43);
    prompt_button(&mut history, &mut pads, &settings, 43, Button::West, true);
    assert_eq!(source(&history, &pads, &settings), InputSource::Keyboard);
    prompt_button(&mut history, &mut pads, &settings, 42, Button::West, true);
    assert_eq!(source(&history, &pads, &settings), InputSource::Gamepad(42));
    pads.remove_gamepad(42);
    assert_eq!(source(&history, &pads, &settings), InputSource::Keyboard);
}

#[test]
fn unbound_gamepad_button_does_not_replace_keyboard_prompt() {
    let mut history = PromptHistory::new();
    let mut pads = GamepadContext::new();
    let settings = Settings::default();
    pads.add_gamepad(42);
    prompt_button(&mut history, &mut pads, &settings, 42, Button::Guide, true);
    assert_eq!(source(&history, &pads, &settings), InputSource::Keyboard);
}

#[test]
fn unbound_second_pad_does_not_invalidate_last_effective_pad_hint() {
    let mut history = PromptHistory::new();
    let mut pads = GamepadContext::new();
    let settings = Settings::default();
    pads.add_gamepad(42);
    pads.add_gamepad(43);
    prompt_button(&mut history, &mut pads, &settings, 42, Button::West, true);
    prompt_button(&mut history, &mut pads, &settings, 43, Button::Guide, true);
    assert_eq!(source(&history, &pads, &settings), InputSource::Gamepad(42));
    // Raw activity stays available to rebind/device selection.
    assert_eq!(settings.player1_gamepad_index(&pads), Some(1));
}

#[test]
fn keys_switch_hints_only_on_new_presses_of_bound_keys() {
    let mut history = PromptHistory::new();
    let mut pads = GamepadContext::new();
    let mut settings = Settings::default();
    settings.touch_controls = true;
    pads.add_gamepad(42);
    assert_eq!(source(&history, &pads, &settings), InputSource::Touch);
    prompt_button(&mut history, &mut pads, &settings, 42, Button::West, true);
    assert_eq!(source(&history, &pads, &settings), InputSource::Gamepad(42));
    prompt_key(&mut history, &settings, ScanCode::Q, true, true);
    prompt_key(&mut history, &settings, ScanCode::Q, false, true);
    prompt_key(&mut history, &settings, ScanCode::F12, true, false);
    assert_eq!(source(&history, &pads, &settings), InputSource::Gamepad(42));
    prompt_key(&mut history, &settings, ScanCode::Q, true, false);
    assert_eq!(source(&history, &pads, &settings), InputSource::Keyboard);
    prompt_touch(&mut history, true);
    assert_eq!(source(&history, &pads, &settings), InputSource::Touch);
    history.remove_gamepad(42);
    assert_eq!(history.sources(), vec![InputSource::Keyboard, InputSource::Touch]);
}

#[test]
fn hints_use_custom_binding_alternatives_and_hardware_row() {
    let rects = rects();
    let single = binding_prompt(PlayerControllerInputType::ButtonInput(Button::West), 1, &rects);
    assert_eq!(single.key, "\u{e000}");
    assert_eq!(single.symbols, vec![('\u{e000}', rects.button_rects[2][1])]);
    let two = binding_prompt(PlayerControllerInputType::EitherButtons(Button::North, Button::Back), 1, &rects);
    assert_eq!(two.symbols.len(), 2);
    assert!(two.key.contains('/'));
    assert_ne!(two.symbols[0].1.left, two.symbols[1].1.left);
    let axis = binding_prompt(PlayerControllerInputType::Either(Button::West, Axis::RightX, AxisDirection::Left), 1, &rects);
    assert_eq!(axis.symbols.len(), 2);
    assert!(axis.key.ends_with('<'));
    let guide = binding_prompt(PlayerControllerInputType::ButtonInput(Button::Guide), 0, &rects);
    assert_eq!(guide.key, "Guide");
    assert!(guide.symbols.is_empty());
}

#[test]
fn skip_hint_names_the_key_or_the_touch_arrows() {
    let rects = rects();
    let mut history = PromptHistory::new();
    let mut pads = GamepadContext::new();
    let mut settings = Settings::default();
    settings.player1_key_map.skip = ScanCode::Space;
    assert_eq!(skip_prompt(&history, &pads, &settings, &rects).key, "Space");
    settings.touch_controls = true;
    assert_eq!(skip_prompt(&history, &pads, &settings, &rects).key, ">>");
    pads.add_gamepad(42);
    prompt_button(&mut history, &mut pads, &settings, 42, Button::West, true);
    let pad = skip_prompt(&history, &pads, &settings, &rects);
    assert_eq!(pad.symbols.len(), 1);
}

#[test]
fn axis_bindings_list_their_directions() {
    let mut map = player_default_controller_button_map();
    map.left = PlayerControllerInputType::Either(Button::DPadLeft, Axis::LeftX, AxisDirection::Left);
    map.right = PlayerControllerInputType::AxisInput(Axis::LeftX, AxisDirection::Right);
    map.up = PlayerControllerInputType::AxisInput(Axis::LeftY, AxisDirection::Up);
    map.down = PlayerControllerInputType::ButtonInput(Button::DPadDown);
    map.jump = PlayerControllerInputType::ButtonInput(Button::South);
    map.shoot = PlayerControllerInputType::ButtonInput(Button::East);
    map.prev_weapon = PlayerControllerInputType::ButtonInput(Button::LeftShoulder);
    map.next_weapon = PlayerControllerInputType::ButtonInput(Button::RightShoulder);
    map.skip = PlayerControllerInputType::ButtonInput(Button::West);
    map.inventory = PlayerControllerInputType::ButtonInput(Button::North);
    map.strafe = PlayerControllerInputType::ButtonInput(Button::LeftStick);
    map.menu_ok = PlayerControllerInputType::ButtonInput(Button::South);
    map.menu_back = PlayerControllerInputType::ButtonInput(Button::East);
    map.map = PlayerControllerInputType::ButtonInput(Button::Back);
    assert_eq!(bound_directions(&map, Axis::LeftX), vec![AxisDirection::Left, AxisDirection::Right]);
    assert_eq!(bound_directions(&map, Axis::LeftY), vec![AxisDirection::Up]);
    assert!(bound_directions(&map, Axis::RightX).is_empty());
}

/// A stick of the pad `id` moving from `previous` to `value`, judged as the
/// platform side judges it (a threshold of 0.3, the pads' sensitivity).
fn push_axis(
    history: &mut PromptHistory,
    pads: &mut GamepadContext,
    settings: &Settings,
    id: u32,
    axis: Axis,
    previous: f64,
    value: f64,
) {
    let before = pads.index_for_instance(id).map_or(0, |i| pads.last_input(i));
    let threshold = 0.3f64;
    let activated = value.abs() > threshold && (previous.abs() <= threshold || previous.signum() != value.signum());
    pads.set_axis_activity(id, activated);
    let sensitivity = f64::from_bits(settings.player1_controller_axis_sensitivity);
    let mapped = bound_directions(&settings.player1_controller_button_map, axis).into_iter().any(|d| match d {
        AxisDirection::Left | AxisDirection::Up => value < -sensitivity,
        AxisDirection::Right | AxisDirection::Down => value > sensitivity,
        AxisDirection::Either => value.abs() > 0.0,
        AxisDirection::NoDirection => false,
    });
    if mapped {
        prompt_gamepad_activity(history, pads, settings, id, before);
    }
}

#[test]
fn ordered_switches_ignore_repeat_release_noise_and_player_two() {
    let mut history = PromptHistory::new();
    let mut pads = GamepadContext::new();
    let mut settings = Settings::default();
    settings.touch_controls = true;
    settings.player2_controller_type = ControllerType::Gamepad(1);
    pads.add_gamepad(42);
    pads.add_gamepad(43);
    assert_eq!(source(&history, &pads, &settings), InputSource::Touch);
    prompt_key(&mut history, &settings, ScanCode::Q, true, false);
    prompt_button(&mut history, &mut pads, &settings, 42, Button::West, true);
    assert_eq!(source(&history, &pads, &settings), InputSource::Gamepad(42));
    prompt_key(&mut history, &settings, ScanCode::Q, true, true);
    prompt_key(&mut history, &settings, ScanCode::Q, false, true);
    prompt_key(&mut history, &settings, ScanCode::F12, true, false);
    assert_eq!(source(&history, &pads, &settings), InputSource::Gamepad(42));
    prompt_key(&mut history, &settings, ScanCode::Q, true, false);
    push_axis(&mut history, &mut pads, &settings, 42, Axis::LeftX, 0.0, 0.1);
    prompt_button(&mut history, &mut pads, &settings, 43, Button::South, true);
    assert_eq!(source(&history, &pads, &settings), InputSource::Keyboard);
    push_axis(&mut history, &mut pads, &settings, 42, Axis::LeftX, 0.1, 0.8);
    assert_eq!(source(&history, &pads, &settings), InputSource::Gamepad(42));
    prompt_touch(&mut history, true);
    push_axis(&mut history, &mut pads, &settings, 42, Axis::LeftX, 0.8, 0.9);
    assert_eq!(source(&history, &pads, &settings), InputSource::Touch);
    push_axis(&mut history, &mut pads, &settings, 42, Axis::LeftX, 0.9, -0.8);
    assert_eq!(source(&history, &pads, &settings), InputSource::Gamepad(42));
    pads.remove_gamepad(42);
    history.remove_gamepad(42);
    assert_eq!(source(&history, &pads, &settings), InputSource::Touch);
    pads.add_gamepad(99);
    assert_eq!(source(&history, &pads, &settings), InputSource::Touch);
    assert!(settings.touch_controls);
}
