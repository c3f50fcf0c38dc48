use cavestory::rumble::{bluetooth_rumble, pending_after_request, BluetoothRumble, RumbleEffect, RumblePlayback};

const MS: u64 = 1_000_000;

#[test]
fn weak_feedback_cannot_interrupt_damage_but_can_play_after_it_expires() {
    let mut playback = RumblePlayback::default();
    let now: u64 = 7_000_000_000;
    let damage = RumbleEffect::original(20000, 20000, 20, 50);
    let tap = RumbleEffect { low: 6000, high: 14000, duration_ms: 50, priority: 1 };
    assert!(playback.accept(damage, now));
    assert!(!playback.accept(tap, now + 20 * MS));
    assert!(playback.accept(tap, now + 401 * MS));
    assert!(playback.stop());
    assert!(!playback.stop());
    assert!(playback.accept(tap, now));
    assert!(playback.accept(damage, now));
}

#[test]
fn classic_effect_duration_follows_ticks_per_second() {
    let e = RumbleEffect::original(100, 200, 20, 50);
    assert_eq!((e.low, e.high, e.duration_ms, e.priority), (100, 200, 400, 3));
    assert_eq!(RumbleEffect::original(0, 0, 30, 60).duration_ms, 500);
    assert_eq!(RumbleEffect::original(0, 0, 10, 0).duration_ms, 10_000);
    assert_eq!(RumbleEffect::original(0, 0, u32::MAX, 1).duration_ms, u32::MAX);
}

#[test]
fn enhanced_flag_follows_the_playing_effect() {
    let mut playback = RumblePlayback::default();
    assert!(!playback.enhanced_active());
    assert!(playback.accept(RumbleEffect { low: 1, high: 1, duration_ms: 10, priority: 2 }, 0));
    assert!(playback.enhanced_active());
    assert!(playback.accept(RumbleEffect::original(5, 5, 5, 50), 0));
    assert!(!playback.enhanced_active());
}

#[test]
fn equal_priority_stronger_effect_replaces_weaker() {
    let mut playback = RumblePlayback::default();
    let weak = RumbleEffect { low: 100, high: 100, duration_ms: 1000, priority: 2 };
    let strong = RumbleEffect { low: 200, high: 100, duration_ms: 10, priority: 2 };
    assert!(playback.accept(weak, 0));
    assert!(playback.accept(strong, 1));
    assert!(!playback.accept(weak, 2));
}

#[test]
fn pending_feedback_keeps_the_highest_ranked_effect() {
    let low = RumbleEffect { low: 10, high: 10, duration_ms: 50, priority: 1 };
    let high = RumbleEffect { low: 1, high: 1, duration_ms: 50, priority: 2 };
    assert_eq!(pending_after_request(None, low), Some(low));
    assert_eq!(pending_after_request(Some(low), high), Some(high));
    assert_eq!(pending_after_request(Some(high), low), Some(high));
    let longer = RumbleEffect { duration_ms: 60, ..low };
    assert_eq!(pending_after_request(Some(low), longer), Some(longer));
}

#[test]
fn bluetooth_rumble_skips_unknown_pads_and_bounds_its_length() {
    assert_eq!(bluetooth_rumble(-1, 100, 200, 50), None);
    assert_eq!(
        bluetooth_rumble(4, 100, 200, 50),
        Some(BluetoothRumble { device: 4, low: 100, high: 200, ms: 50 })
    );
    assert_eq!(bluetooth_rumble(0, 1, 2, 9000).map(|r| r.ms), Some(2500));
}
