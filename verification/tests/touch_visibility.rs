use cavestory::touch_visibility::TouchVisibility;

const SEC: u64 = 1_000_000_000;
const MS: u64 = 1_000_000;
const NOW: u64 = 3 * SEC;

#[test]
fn controller_connection_hides_and_last_device_removal_restores() {
    let now = NOW;
    let mut policy = TouchVisibility::default();
    let mut display = true;
    policy.sync_devices(true, false, &mut display, now);
    assert!(!display);
    policy.sync_devices(true, true, &mut display, now);
    policy.sync_devices(false, true, &mut display, now);
    assert!(!display, "keyboard/mouse is still connected");
    policy.sync_devices(false, false, &mut display, now);
    assert!(display);
}

#[test]
fn bare_phone_recovers_saved_or_manual_hidden_setting() {
    let mut policy = TouchVisibility::default();
    let mut display = false;
    policy.sync_devices(false, false, &mut display, NOW);
    assert!(display);
    display = false;
    policy.sync_devices(false, false, &mut display, NOW);
    assert!(display);
}

#[test]
fn connected_user_can_reenable_overlay_until_next_connection() {
    let now = NOW;
    let mut policy = TouchVisibility::default();
    let mut display = true;
    policy.sync_devices(true, false, &mut display, now);
    display = true;
    policy.sync_devices(true, false, &mut display, now);
    assert!(display);
    policy.sync_devices(false, false, &mut display, now);
    policy.sync_devices(true, false, &mut display, now);
    assert!(!display);
}

#[test]
fn idle_boundary_and_touch_wake_use_real_time() {
    let now = NOW;
    let mut policy = TouchVisibility::default();
    policy.update_idle(true, false, now);
    assert!(policy.visible(true, now + 9999 * MS));
    assert!(!policy.visible(true, now + 10 * SEC));
    policy.activity(now + 11 * SEC);
    assert!(policy.visible(true, now + 11 * SEC));
    assert!(!policy.visible(true, now + 21 * SEC));
}

#[test]
fn held_touch_and_disabled_option_keep_overlay_visible() {
    let now = NOW;
    let mut policy = TouchVisibility::default();
    policy.activity(now);
    policy.update_idle(true, true, now + 30 * SEC);
    assert!(policy.visible(true, now + 30 * SEC));
    assert!(policy.visible(false, now + 60 * SEC));
    policy.update_idle(false, false, now + 60 * SEC);
    assert!(policy.visible(true, now + 60 * SEC));
}

#[test]
fn resume_and_disconnect_restart_idle_grace_period() {
    let now = NOW;
    let mut policy = TouchVisibility::default();
    let mut display = true;
    policy.sync_devices(true, false, &mut display, now);
    policy.sync_devices(false, false, &mut display, now + 50 * SEC);
    assert!(policy.visible(true, now + 50 * SEC));
    policy.resume(now + 100 * SEC);
    assert!(policy.visible(true, now + 100 * SEC));
    policy.sync_devices(true, false, &mut display, now + 100 * SEC);
    assert!(!display);
}

#[test]
fn resume_preserves_manual_overlay_choice_for_existing_controller() {
    let now = NOW;
    let mut policy = TouchVisibility::default();
    let mut display = true;
    policy.sync_devices(true, false, &mut display, now);
    display = true;
    policy.resume(now + 30 * SEC);
    policy.sync_devices(true, false, &mut display, now + 30 * SEC);
    assert!(display);
    assert!(policy.visible(true, now + 30 * SEC));
}

#[test]
fn reconnect_between_frames_hides_even_with_unchanged_capabilities() {
    let now = NOW;
    let mut policy = TouchVisibility::default();
    let mut display = true;
    policy.gamepad_connection(1);
    policy.sync_devices(true, false, &mut display, now);
    display = true;
    policy.gamepad_connection(1);
    policy.sync_devices(true, false, &mut display, now);
    assert!(display);
    policy.gamepad_connection(2);
    policy.sync_devices(true, false, &mut display, now);
    assert!(!display);
    display = true;
    policy.sdl_gamepad_added();
    policy.sync_devices(true, false, &mut display, now);
    assert!(!display);
}

#[test]
fn external_devices_are_reported_after_a_sync() {
    let mut policy = TouchVisibility::default();
    let mut display = true;
    assert!(!policy.has_external_devices());
    policy.sync_devices(false, true, &mut display, NOW);
    assert!(policy.has_external_devices());
    policy.sync_devices(false, false, &mut display, NOW);
    assert!(!policy.has_external_devices());
}

#[test]
fn a_held_touch_keeps_the_overlay_past_the_idle_period() {
    let mut touch = TouchVisibility::default();
    touch.activity(NOW);
    assert!(!touch.visible(true, NOW + 12 * SEC));
    touch.update_idle(true, true, NOW + 12 * SEC);
    assert!(touch.visible(true, NOW + 12 * SEC));
    touch.update_idle(true, false, NOW + 21 * SEC);
    assert!(touch.visible(true, NOW + 21 * SEC));
    touch.update_idle(true, false, NOW + 22 * SEC);
    assert!(!touch.visible(true, NOW + 22 * SEC));
}
