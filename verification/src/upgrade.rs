//! Migration of settings files saved by older versions of the game.
use vstd::prelude::*;
use crate::gamepad::{Button, PlayerControllerInputType};
use crate::keyboard::ScanCode;
use crate::modes::{CutsceneSkipMode, ScreenShakeIntensity, TimingMode, VSyncMode, WindowMode};
use crate::settings::{
    current_version, agrees, lemma_agrees_version, lemma_agrees_view, default_map, default_sensitivity, default_volume, player_default_controller_button_map,
    ControllerType, PlayerControllerButtonMap, PlayerKeyMap, Settings, SettingsView,
    DEFAULT_SENSITIVITY, DEFAULT_VOLUME,
};
use crate::text::{str_eq, string_of};

verus! {

/// The default gamepad map with menu confirm and cancel on the jump and shoot bindings.
pub open spec fn menu_follows_actions(m: PlayerControllerButtonMap) -> PlayerControllerButtonMap {
    PlayerControllerButtonMap { menu_ok: m.jump, menu_back: m.shoot, ..m }
}

/// Keys with menu confirm and cancel on the jump and shoot keys.
pub open spec fn menu_keys_follow_actions(m: PlayerKeyMap) -> PlayerKeyMap {
    PlayerKeyMap { menu_ok: m.jump, menu_back: m.shoot, ..m }
}

/// Shoot moved from East to West, the map from West to East.
pub open spec fn face_buttons_swapped(m: PlayerControllerButtonMap) -> PlayerControllerButtonMap {
    PlayerControllerButtonMap {
        shoot: if m.shoot == PlayerControllerInputType::ButtonInput(Button::East) {
            PlayerControllerInputType::ButtonInput(Button::West)
        } else {
            m.shoot
        },
        map: if m.map == PlayerControllerInputType::ButtonInput(Button::West) {
            PlayerControllerInputType::ButtonInput(Button::East)
        } else {
            m.map
        },
        ..m
    }
}

/// The skip key moved off a key another control uses.
pub open spec fn skip_moved(m: PlayerKeyMap, from: ScanCode, to: ScanCode) -> PlayerKeyMap {
    if m.skip == from { PlayerKeyMap { skip: to, ..m } } else { m }
}

/// The locale code of a language name saved by version 20 and earlier.
pub open spec fn locale_code(name: Seq<char>) -> Seq<char> {
    if name == "English"@ {
        "en"@
    } else if name == "Japanese"@ {
        "jp"@
    } else {
        "en"@
    }
}

/// The soundtrack key of a soundtrack name saved by version 24 and earlier.
pub open spec fn soundtrack_key(name: Seq<char>) -> Seq<char> {
    if name == "Organya"@ {
        "organya"@
    } else if name == "Remastered"@ {
        "remastered"@
    } else if name == "New"@ {
        "new"@
    } else if name == "Famitracks"@ {
        "famitracks"@
    } else if name == "Ridiculon"@ {
        "ridiculon"@
    } else {
        name
    }
}

/// Migration of a version-2 file.
#[verifier::opaque]
pub open spec fn migration_2(s: SettingsView) -> SettingsView {
    SettingsView { version: 3, light_cone: true, ..s }
}

/// Migration of a version-3 file.
#[verifier::opaque]
pub open spec fn migration_3(s: SettingsView) -> SettingsView {
    SettingsView { version: 4, timing_mode: TimingMode::_50Hz, ..s }
}

/// Migration of a version-4 file.
#[verifier::opaque]
pub open spec fn migration_4(s: SettingsView) -> SettingsView {
    SettingsView { version: 5, bgm_volume: default_volume(), sfx_volume: default_volume(), ..s }
}

/// Migration of a version-5 file.
#[verifier::opaque]
pub open spec fn migration_5(s: SettingsView) -> SettingsView {
    SettingsView {
            version: 6,
            player1_key_map: PlayerKeyMap { strafe: ScanCode::LShift, ..s.player1_key_map },
            player2_key_map: PlayerKeyMap { strafe: ScanCode::RShift, ..s.player2_key_map },
            ..s
        }
}

/// Migration of a version-6 file.
#[verifier::opaque]
pub open spec fn migration_6(s: SettingsView) -> SettingsView {
    SettingsView { version: 7, locale: "en"@, ..s }
}

/// Migration of a version-7 file.
#[verifier::opaque]
pub open spec fn migration_7(s: SettingsView) -> SettingsView {
    SettingsView { version: 8, vsync_mode: VSyncMode::VSync, ..s }
}

/// Migration of a version-8 file.
#[verifier::opaque]
pub open spec fn migration_8(s: SettingsView) -> SettingsView {
    SettingsView { version: 9, debug_mode: false, ..s }
}

/// Migration of a version-9 file.
#[verifier::opaque]
pub open spec fn migration_9(s: SettingsView) -> SettingsView {
    SettingsView { version: 10, screen_shake_intensity: ScreenShakeIntensity::Full, ..s }
}

/// Migration of a version-10 file.
#[verifier::opaque]
pub open spec fn migration_10(s: SettingsView) -> SettingsView {
    SettingsView { version: 11, window_mode: WindowMode::Windowed, ..s }
}

/// Migration of a version-11 file.
#[verifier::opaque]
pub open spec fn migration_11(s: SettingsView) -> SettingsView {
    SettingsView {
            version: 12,
            player1_controller_type: ControllerType::Keyboard,
            player2_controller_type: ControllerType::Keyboard,
            player1_controller_button_map: default_map(),
            player2_controller_button_map: default_map(),
            player1_controller_axis_sensitivity: default_sensitivity(),
            player2_controller_axis_sensitivity: default_sensitivity(),
            ..s
        }
}

/// Migration of a version-12 file.
#[verifier::opaque]
pub open spec fn migration_12(s: SettingsView) -> SettingsView {
    SettingsView {
            version: 13,
            player1_key_map: skip_moved(s.player1_key_map, ScanCode::E, ScanCode::Q),
            player2_key_map: skip_moved(s.player2_key_map, ScanCode::U, ScanCode::T),
            player1_controller_button_map: default_map(),
            player2_controller_button_map: default_map(),
            ..s
        }
}

/// Migration of a version-13 file.
#[verifier::opaque]
pub open spec fn migration_13(s: SettingsView) -> SettingsView {
    SettingsView {
            version: 14,
            player1_controller_button_map: default_map(),
            player2_controller_button_map: default_map(),
            ..s
        }
}

/// Migration of a version-14 file.
#[verifier::opaque]
pub open spec fn migration_14(s: SettingsView) -> SettingsView {
    SettingsView { version: 15, pause_on_focus_loss: true, ..s }
}

/// Migration of a version-15 file.
#[verifier::opaque]
pub open spec fn migration_15(s: SettingsView) -> SettingsView {
    SettingsView {
            version: 16,
            player1_key_map: menu_keys_follow_actions(s.player1_key_map),
            player2_key_map: menu_keys_follow_actions(s.player2_key_map),
            player1_controller_button_map: menu_follows_actions(s.player1_controller_button_map),
            player2_controller_button_map: menu_follows_actions(s.player2_controller_button_map),
            ..s
        }
}

/// Migration of a version-16 file.
#[verifier::opaque]
pub open spec fn migration_16(s: SettingsView) -> SettingsView {
    SettingsView {
            version: 17,
            player1_controller_button_map: face_buttons_swapped(s.player1_controller_button_map),
            player2_controller_button_map: face_buttons_swapped(s.player2_controller_button_map),
            ..s
        }
}

/// Migration of a version-17 file.
#[verifier::opaque]
pub open spec fn migration_17(s: SettingsView) -> SettingsView {
    SettingsView { version: 18, player1_rumble: true, player2_rumble: true, ..s }
}

/// Migration of a version-18 file.
#[verifier::opaque]
pub open spec fn migration_18(s: SettingsView) -> SettingsView {
    SettingsView { version: 19, more_rust: false, ..s }
}

/// Migration of a version-19 file.
#[verifier::opaque]
pub open spec fn migration_19(s: SettingsView) -> SettingsView {
    SettingsView { version: 20, cutscene_skip_mode: CutsceneSkipMode::Hold, ..s }
}

/// Migration of a version-20 file.
#[verifier::opaque]
pub open spec fn migration_20(s: SettingsView) -> SettingsView {
    SettingsView { version: 21, locale: locale_code(s.locale), ..s }
}

/// Migration of a version-21 file.
#[verifier::opaque]
pub open spec fn migration_21(s: SettingsView) -> SettingsView {
    SettingsView { version: 22, discord_rpc: true, ..s }
}

/// Migration of a version-22 file.
#[verifier::opaque]
pub open spec fn migration_22(s: SettingsView) -> SettingsView {
    SettingsView { version: 23, display_touch_controls: true, ..s }
}

/// Migration of a version-23 file.
#[verifier::opaque]
pub open spec fn migration_23(s: SettingsView) -> SettingsView {
    SettingsView { version: 24, allow_strafe: true, ..s }
}

/// Migration of a version-24 file.
#[verifier::opaque]
pub open spec fn migration_24(s: SettingsView) -> SettingsView {
    SettingsView { version: 25, soundtrack: soundtrack_key(s.soundtrack), ..s }
}

/// Migration of a version-25 file.
#[verifier::opaque]
pub open spec fn migration_25(s: SettingsView) -> SettingsView {
    SettingsView { version: 26, ..s }
}

/// The migration of a version-`k` settings file to version `k + 1`; files of
/// any other version are left alone.
pub open spec fn step_at(s: SettingsView, k: u32) -> SettingsView {
    if s.version != k {
        s
    } else if k == 2 {
        migration_2(s)
    } else if k == 3 {
        migration_3(s)
    } else if k == 4 {
        migration_4(s)
    } else if k == 5 {
        migration_5(s)
    } else if k == 6 {
        migration_6(s)
    } else if k == 7 {
        migration_7(s)
    } else if k == 8 {
        migration_8(s)
    } else if k == 9 {
        migration_9(s)
    } else if k == 10 {
        migration_10(s)
    } else if k == 11 {
        migration_11(s)
    } else if k == 12 {
        migration_12(s)
    } else if k == 13 {
        migration_13(s)
    } else if k == 14 {
        migration_14(s)
    } else if k == 15 {
        migration_15(s)
    } else if k == 16 {
        migration_16(s)
    } else if k == 17 {
        migration_17(s)
    } else if k == 18 {
        migration_18(s)
    } else if k == 19 {
        migration_19(s)
    } else if k == 20 {
        migration_20(s)
    } else if k == 21 {
        migration_21(s)
    } else if k == 22 {
        migration_22(s)
    } else if k == 23 {
        migration_23(s)
    } else if k == 24 {
        migration_24(s)
    } else if k == 25 {
        migration_25(s)
    } else {
        s
    }
}

/// The migrations of versions `k` to 25, applied in order.
pub open spec fn migrate_from(s: SettingsView, k: u32) -> SettingsView
    decreases 26 - k,
{
    if k >= 26 {
        s
    } else {
        migrate_from(step_at(s, k), (k + 1) as u32)
    }
}

/// A loaded settings file brought to the current version.
pub open spec fn upgraded(s: SettingsView) -> SettingsView {
    migrate_from(s, 2)
}

/// The locale code for a language name of a version-20 file.
fn locale_code_of(name: &str) -> (r: String)
    ensures
        r@ == locale_code(name@),
{
    proof {
        reveal_strlit("English");
        reveal_strlit("Japanese");
        reveal_strlit("en");
        reveal_strlit("jp");
    }
    if str_eq(name, "English") {
        string_of("en")
    } else if str_eq(name, "Japanese") {
        string_of("jp")
    } else {
        string_of("en")
    }
}

/// The soundtrack key for a soundtrack name of a version-24 file.
fn soundtrack_key_of(name: &String) -> (r: String)
    ensures
        r@ == soundtrack_key(name@),
{
    proof {
        reveal_strlit("Organya");
        reveal_strlit("Remastered");
        reveal_strlit("New");
        reveal_strlit("Famitracks");
        reveal_strlit("Ridiculon");
        reveal_strlit("organya");
        reveal_strlit("remastered");
        reveal_strlit("new");
        reveal_strlit("famitracks");
        reveal_strlit("ridiculon");
    }
    let t = name.as_str();
    if str_eq(t, "Organya") {
        string_of("organya")
    } else if str_eq(t, "Remastered") {
        string_of("remastered")
    } else if str_eq(t, "New") {
        string_of("new")
    } else if str_eq(t, "Famitracks") {
        string_of("famitracks")
    } else if str_eq(t, "Ridiculon") {
        string_of("ridiculon")
    } else {
        name.clone()
    }
}

/// Shoot moved from East to West, the map from West to East.
fn swap_face_buttons(m: PlayerControllerButtonMap) -> (r: PlayerControllerButtonMap)
    ensures
        r == face_buttons_swapped(m),
{
    let shoot = if m.shoot == PlayerControllerInputType::ButtonInput(Button::East) {
        PlayerControllerInputType::ButtonInput(Button::West)
    } else {
        m.shoot
    };
    let map = if m.map == PlayerControllerInputType::ButtonInput(Button::West) {
        PlayerControllerInputType::ButtonInput(Button::East)
    } else {
        m.map
    };
    PlayerControllerButtonMap { shoot, map, ..m }
}

/// Moves the skip key from `from` to `to`.
fn move_skip(m: PlayerKeyMap, from: ScanCode, to: ScanCode) -> (r: PlayerKeyMap)
    ensures
        r == skip_moved(m, from, to),
{
    if m.skip == from {
        PlayerKeyMap { skip: to, ..m }
    } else {
        m
    }
}

/// Migrates a version-2 file.
fn migrate_2(s: Settings, Ghost(cur): Ghost<SettingsView>) -> (r: Settings)
    requires
        agrees(s, cur),
        cur.version == 2,
    ensures
        agrees(r, migration_2(cur)),
{
    proof {
        reveal(agrees);
        reveal(migration_2);
    }
    Settings { version: 3, light_cone: true, ..s }
}

/// Migrates a version-3 file.
fn migrate_3(s: Settings, Ghost(cur): Ghost<SettingsView>) -> (r: Settings)
    requires
        agrees(s, cur),
        cur.version == 3,
    ensures
        agrees(r, migration_3(cur)),
{
    proof {
        reveal(agrees);
        reveal(migration_3);
    }
    Settings { version: 4, timing_mode: TimingMode::_50Hz, ..s }
}

/// Migrates a version-4 file.
fn migrate_4(s: Settings, Ghost(cur): Ghost<SettingsView>) -> (r: Settings)
    requires
        agrees(s, cur),
        cur.version == 4,
    ensures
        agrees(r, migration_4(cur)),
{
    proof {
        reveal(agrees);
        reveal(migration_4);
    }
    Settings { version: 5, bgm_volume: DEFAULT_VOLUME, sfx_volume: DEFAULT_VOLUME, ..s }
}

/// Migrates a version-5 file.
fn migrate_5(s: Settings, Ghost(cur): Ghost<SettingsView>) -> (r: Settings)
    requires
        agrees(s, cur),
        cur.version == 5,
    ensures
        agrees(r, migration_5(cur)),
{
    proof {
        reveal(agrees);
        reveal(migration_5);
    }
    let player1_key_map = PlayerKeyMap { strafe: ScanCode::LShift, ..s.player1_key_map };
    let player2_key_map = PlayerKeyMap { strafe: ScanCode::RShift, ..s.player2_key_map };
    Settings { version: 6, player1_key_map, player2_key_map, ..s }
}

/// Migrates a version-6 file.
fn migrate_6(s: Settings, Ghost(cur): Ghost<SettingsView>) -> (r: Settings)
    requires
        agrees(s, cur),
        cur.version == 6,
    ensures
        agrees(r, migration_6(cur)),
{
    proof {
        reveal(agrees);
        reveal(migration_6);
    }
    Settings { version: 7, locale: string_of("en"), ..s }
}

/// Migrates a version-7 file.
fn migrate_7(s: Settings, Ghost(cur): Ghost<SettingsView>) -> (r: Settings)
    requires
        agrees(s, cur),
        cur.version == 7,
    ensures
        agrees(r, migration_7(cur)),
{
    proof {
        reveal(agrees);
        reveal(migration_7);
    }
    Settings { version: 8, vsync_mode: VSyncMode::VSync, ..s }
}

/// Migrates a version-8 file.
fn migrate_8(s: Settings, Ghost(cur): Ghost<SettingsView>) -> (r: Settings)
    requires
        agrees(s, cur),
        cur.version == 8,
    ensures
        agrees(r, migration_8(cur)),
{
    proof {
        reveal(agrees);
        reveal(migration_8);
    }
    Settings { version: 9, debug_mode: false, ..s }
}

/// Migrates a version-9 file.
fn migrate_9(s: Settings, Ghost(cur): Ghost<SettingsView>) -> (r: Settings)
    requires
        agrees(s, cur),
        cur.version == 9,
    ensures
        agrees(r, migration_9(cur)),
{
    proof {
        reveal(agrees);
        reveal(migration_9);
    }
    Settings { version: 10, screen_shake_intensity: ScreenShakeIntensity::Full, ..s }
}

/// Migrates a version-10 file.
fn migrate_10(s: Settings, Ghost(cur): Ghost<SettingsView>) -> (r: Settings)
    requires
        agrees(s, cur),
        cur.version == 10,
    ensures
        agrees(r, migration_10(cur)),
{
    proof {
        reveal(agrees);
        reveal(migration_10);
    }
    Settings { version: 11, window_mode: WindowMode::Windowed, ..s }
}

/// Migrates a version-11 file.
fn migrate_11(s: Settings, Ghost(cur): Ghost<SettingsView>) -> (r: Settings)
    requires
        agrees(s, cur),
        cur.version == 11,
    ensures
        agrees(r, migration_11(cur)),
{
    proof {
        reveal(agrees);
        reveal(migration_11);
    }
    Settings {
        version: 12,
        player1_controller_type: ControllerType::Keyboard,
        player2_controller_type: ControllerType::Keyboard,
        player1_controller_button_map: player_default_controller_button_map(),
        player2_controller_button_map: player_default_controller_button_map(),
        player1_controller_axis_sensitivity: DEFAULT_SENSITIVITY,
        player2_controller_axis_sensitivity: DEFAULT_SENSITIVITY,
        ..s
    }
}

/// Migrates a version-12 file.
fn migrate_12(s: Settings, Ghost(cur): Ghost<SettingsView>) -> (r: Settings)
    requires
        agrees(s, cur),
        cur.version == 12,
    ensures
        agrees(r, migration_12(cur)),
{
    proof {
        reveal(agrees);
        reveal(migration_12);
    }
    let player1_key_map = move_skip(s.player1_key_map, ScanCode::E, ScanCode::Q);
    let player2_key_map = move_skip(s.player2_key_map, ScanCode::U, ScanCode::T);
    // reset controller mappings since we've updated enums
    Settings {
        version: 13,
        player1_key_map,
        player2_key_map,
        player1_controller_button_map: player_default_controller_button_map(),
        player2_controller_button_map: player_default_controller_button_map(),
        ..s
    }
}

/// Migrates a version-13 file.
fn migrate_13(s: Settings, Ghost(cur): Ghost<SettingsView>) -> (r: Settings)
    requires
        agrees(s, cur),
        cur.version == 13,
    ensures
        agrees(r, migration_13(cur)),
{
    proof {
        reveal(agrees);
        reveal(migration_13);
    }
    // reset controller mappings again since we have new enums
    Settings {
        version: 14,
        player1_controller_button_map: player_default_controller_button_map(),
        player2_controller_button_map: player_default_controller_button_map(),
        ..s
    }
}

/// Migrates a version-14 file.
fn migrate_14(s: Settings, Ghost(cur): Ghost<SettingsView>) -> (r: Settings)
    requires
        agrees(s, cur),
        cur.version == 14,
    ensures
        agrees(r, migration_14(cur)),
{
    proof {
        reveal(agrees);
        reveal(migration_14);
    }
    Settings { version: 15, pause_on_focus_loss: true, ..s }
}

/// Migrates a version-15 file.
fn migrate_15(s: Settings, Ghost(cur): Ghost<SettingsView>) -> (r: Settings)
    requires
        agrees(s, cur),
        cur.version == 15,
    ensures
        agrees(r, migration_15(cur)),
{
    proof {
        reveal(agrees);
        reveal(migration_15);
    }
    let k1 = s.player1_key_map;
    let k2 = s.player2_key_map;
    let b1 = s.player1_controller_button_map;
    let b2 = s.player2_controller_button_map;
    Settings {
        version: 16,
        player1_key_map: PlayerKeyMap { menu_ok: k1.jump, menu_back: k1.shoot, ..k1 },
        player2_key_map: PlayerKeyMap { menu_ok: k2.jump, menu_back: k2.shoot, ..k2 },
        player1_controller_button_map: PlayerControllerButtonMap { menu_ok: b1.jump, menu_back: b1.shoot, ..b1 },
        player2_controller_button_map: PlayerControllerButtonMap { menu_ok: b2.jump, menu_back: b2.shoot, ..b2 },
        ..s
    }
}

/// Migrates a version-16 file.
fn migrate_16(s: Settings, Ghost(cur): Ghost<SettingsView>) -> (r: Settings)
    requires
        agrees(s, cur),
        cur.version == 16,
    ensures
        agrees(r, migration_16(cur)),
{
    proof {
        reveal(agrees);
        reveal(migration_16);
    }
    let player1_controller_button_map = swap_face_buttons(s.player1_controller_button_map);
    let player2_controller_button_map = swap_face_buttons(s.player2_controller_button_map);
    Settings { version: 17, player1_controller_button_map, player2_controller_button_map, ..s }
}

/// Migrates a version-17 file.
fn migrate_17(s: Settings, Ghost(cur): Ghost<SettingsView>) -> (r: Settings)
    requires
        agrees(s, cur),
        cur.version == 17,
    ensures
        agrees(r, migration_17(cur)),
{
    proof {
        reveal(agrees);
        reveal(migration_17);
    }
    Settings { version: 18, player1_rumble: true, player2_rumble: true, ..s }
}

/// Migrates a version-18 file.
fn migrate_18(s: Settings, Ghost(cur): Ghost<SettingsView>) -> (r: Settings)
    requires
        agrees(s, cur),
        cur.version == 18,
    ensures
        agrees(r, migration_18(cur)),
{
    proof {
        reveal(agrees);
        reveal(migration_18);
    }
    Settings { version: 19, more_rust: false, ..s }
}

/// Migrates a version-19 file.
fn migrate_19(s: Settings, Ghost(cur): Ghost<SettingsView>) -> (r: Settings)
    requires
        agrees(s, cur),
        cur.version == 19,
    ensures
        agrees(r, migration_19(cur)),
{
    proof {
        reveal(agrees);
        reveal(migration_19);
    }
    Settings { version: 20, cutscene_skip_mode: CutsceneSkipMode::Hold, ..s }
}

/// Migrates a version-20 file.
fn migrate_20(s: Settings, Ghost(cur): Ghost<SettingsView>) -> (r: Settings)
    requires
        agrees(s, cur),
        cur.version == 20,
    ensures
        agrees(r, migration_20(cur)),
{
    proof {
        reveal(agrees);
        reveal(migration_20);
    }
    let locale = locale_code_of(s.locale.as_str());
    Settings { version: 21, locale, ..s }
}

/// Migrates a version-21 file.
fn migrate_21(s: Settings, Ghost(cur): Ghost<SettingsView>) -> (r: Settings)
    requires
        agrees(s, cur),
        cur.version == 21,
    ensures
        agrees(r, migration_21(cur)),
{
    proof {
        reveal(agrees);
        reveal(migration_21);
    }
    Settings { version: 22, discord_rpc: true, ..s }
}

/// Migrates a version-22 file.
fn migrate_22(s: Settings, Ghost(cur): Ghost<SettingsView>) -> (r: Settings)
    requires
        agrees(s, cur),
        cur.version == 22,
    ensures
        agrees(r, migration_22(cur)),
{
    proof {
        reveal(agrees);
        reveal(migration_22);
    }
    Settings { version: 23, display_touch_controls: true, ..s }
}

/// Migrates a version-23 file.
fn migrate_23(s: Settings, Ghost(cur): Ghost<SettingsView>) -> (r: Settings)
    requires
        agrees(s, cur),
        cur.version == 23,
    ensures
        agrees(r, migration_23(cur)),
{
    proof {
        reveal(agrees);
        reveal(migration_23);
    }
    Settings { version: 24, allow_strafe: true, ..s }
}

/// Migrates a version-24 file.
fn migrate_24(s: Settings, Ghost(cur): Ghost<SettingsView>) -> (r: Settings)
    requires
        agrees(s, cur),
        cur.version == 24,
    ensures
        agrees(r, migration_24(cur)),
{
    proof {
        reveal(agrees);
        reveal(migration_24);
    }
    let soundtrack = soundtrack_key_of(&s.soundtrack);
    Settings { version: 25, soundtrack, ..s }
}

/// Migrates a version-25 file.
fn migrate_25(s: Settings, Ghost(cur): Ghost<SettingsView>) -> (r: Settings)
    requires
        agrees(s, cur),
        cur.version == 25,
    ensures
        agrees(r, migration_25(cur)),
{
    proof {
        reveal(agrees);
        reveal(migration_25);
    }
    Settings { version: 26, ..s }
}

/// Migrates a version-`k` settings file to version `k + 1`; a file of
/// another version is returned unchanged.
fn migrate_once(s: Settings, k: u32, Ghost(cur): Ghost<SettingsView>) -> (r: Settings)
    requires
        agrees(s, cur),
    ensures
        agrees(r, step_at(cur, k)),
{
    proof {
        lemma_agrees_version(s, cur);
    }
    if s.version != k {
        s
    } else if k == 2 {
        assert(step_at(cur, k) == migration_2(cur));
        migrate_2(s, Ghost(cur))
    } else if k == 3 {
        assert(step_at(cur, k) == migration_3(cur));
        migrate_3(s, Ghost(cur))
    } else if k == 4 {
        assert(step_at(cur, k) == migration_4(cur));
        migrate_4(s, Ghost(cur))
    } else if k == 5 {
        assert(step_at(cur, k) == migration_5(cur));
        migrate_5(s, Ghost(cur))
    } else if k == 6 {
        assert(step_at(cur, k) == migration_6(cur));
        migrate_6(s, Ghost(cur))
    } else if k == 7 {
        assert(step_at(cur, k) == migration_7(cur));
        migrate_7(s, Ghost(cur))
    } else if k == 8 {
        assert(step_at(cur, k) == migration_8(cur));
        migrate_8(s, Ghost(cur))
    } else if k == 9 {
        assert(step_at(cur, k) == migration_9(cur));
        migrate_9(s, Ghost(cur))
    } else if k == 10 {
        assert(step_at(cur, k) == migration_10(cur));
        migrate_10(s, Ghost(cur))
    } else if k == 11 {
        assert(step_at(cur, k) == migration_11(cur));
        migrate_11(s, Ghost(cur))
    } else if k == 12 {
        assert(step_at(cur, k) == migration_12(cur));
        migrate_12(s, Ghost(cur))
    } else if k == 13 {
        assert(step_at(cur, k) == migration_13(cur));
        migrate_13(s, Ghost(cur))
    } else if k == 14 {
        assert(step_at(cur, k) == migration_14(cur));
        migrate_14(s, Ghost(cur))
    } else if k == 15 {
        assert(step_at(cur, k) == migration_15(cur));
        migrate_15(s, Ghost(cur))
    } else if k == 16 {
        assert(step_at(cur, k) == migration_16(cur));
        migrate_16(s, Ghost(cur))
    } else if k == 17 {
        assert(step_at(cur, k) == migration_17(cur));
        migrate_17(s, Ghost(cur))
    } else if k == 18 {
        assert(step_at(cur, k) == migration_18(cur));
        migrate_18(s, Ghost(cur))
    } else if k == 19 {
        assert(step_at(cur, k) == migration_19(cur));
        migrate_19(s, Ghost(cur))
    } else if k == 20 {
        assert(step_at(cur, k) == migration_20(cur));
        migrate_20(s, Ghost(cur))
    } else if k == 21 {
        assert(step_at(cur, k) == migration_21(cur));
        migrate_21(s, Ghost(cur))
    } else if k == 22 {
        assert(step_at(cur, k) == migration_22(cur));
        migrate_22(s, Ghost(cur))
    } else if k == 23 {
        assert(step_at(cur, k) == migration_23(cur));
        migrate_23(s, Ghost(cur))
    } else if k == 24 {
        assert(step_at(cur, k) == migration_24(cur));
        migrate_24(s, Ghost(cur))
    } else if k == 25 {
        assert(step_at(cur, k) == migration_25(cur));
        migrate_25(s, Ghost(cur))
    } else {
        s
    }
}

/// One step from version `k` moves a version-`k` file to version `k + 1`.
proof fn lemma_step_version(s: SettingsView, k: u32)
    requires
        2 <= k <= 25,
        s.version == k,
    ensures
        step_at(s, k).version == k + 1,
{
    reveal(migration_2);
    reveal(migration_3);
    reveal(migration_4);
    reveal(migration_5);
    reveal(migration_6);
    reveal(migration_7);
    reveal(migration_8);
    reveal(migration_9);
    reveal(migration_10);
    reveal(migration_11);
    reveal(migration_12);
    reveal(migration_13);
    reveal(migration_14);
    reveal(migration_15);
    reveal(migration_16);
    reveal(migration_17);
    reveal(migration_18);
    reveal(migration_19);
    reveal(migration_20);
    reveal(migration_21);
    reveal(migration_22);
    reveal(migration_23);
    reveal(migration_24);
    reveal(migration_25);
}

/// The migrations from `k` on leave a file alone whose version none of them handles.
proof fn lemma_migrate_from_skips(s: SettingsView, k: u32)
    requires
        k <= 26,
        s.version < k || s.version > 25,
    ensures
        migrate_from(s, k) == s,
    decreases 26 - k,
{
    if k < 26 {
        lemma_migrate_from_skips(s, (k + 1) as u32);
    }
}

/// The migrations from `k` on bring a file of version `k` to 25 to the current version.
proof fn lemma_migrate_from_reaches_current(s: SettingsView, k: u32)
    requires
        2 <= k <= s.version <= 25,
    ensures
        migrate_from(s, k).version == current_version(),
    decreases 26 - k,
{
    if s.version == k {
        lemma_step_version(s, k);
        let t = step_at(s, k);
        if k == 25 {
            lemma_migrate_from_skips(t, 26);
        } else {
            lemma_migrate_from_reaches_current(t, (k + 1) as u32);
        }
    } else {
        lemma_migrate_from_reaches_current(s, (k + 1) as u32);
    }
}

/// A file of version 2 to 25 is brought to the current version.
pub proof fn law_upgrade_reaches_current_version(s: SettingsView)
    requires
        2 <= s.version <= 25,
    ensures
        upgraded(s).version == current_version(),
{
    lemma_migrate_from_reaches_current(s, 2);
}

/// A file of any other version, the current one included, is left as it was.
pub proof fn law_upgrade_keeps_other_versions(s: SettingsView)
    requires
        s.version < 2 || s.version > 25,
    ensures
        upgraded(s) == s,
{
    lemma_migrate_from_skips(s, 2);
}

/// Upgrading an upgraded file changes nothing.
pub proof fn law_upgrade_idempotent(s: SettingsView)
    ensures
        upgraded(upgraded(s)) == upgraded(s),
{
    if 2 <= s.version <= 25 {
        law_upgrade_reaches_current_version(s);
        law_upgrade_keeps_other_versions(upgraded(s));
    } else {
        law_upgrade_keeps_other_versions(s);
    }
}

/// The migrations below a file's version pass it by.
proof fn lemma_migrate_from_prefix(s: SettingsView, k: u32)
    requires
        k <= s.version <= 25,
    ensures
        migrate_from(s, k) == migrate_from(s, s.version),
    decreases s.version - k,
{
    if k < s.version {
        lemma_migrate_from_prefix(s, (k + 1) as u32);
    }
}

/// A file of the last old version only gets the current version number.
pub proof fn law_upgrade_from_previous_version(s: SettingsView)
    requires
        s.version == 25,
    ensures
        upgraded(s) == (SettingsView { version: current_version(), ..s }),
{
    reveal(migration_25);
    lemma_migrate_from_prefix(s, 2);
    lemma_migrate_from_skips(step_at(s, 25), 26);
}

impl Settings {
    /// Brings settings loaded from an older file to the current version, one
    /// migration at a time; files of other versions are left alone.
    pub fn upgrade(self) -> (r: Settings)
        ensures
            agrees(r, upgraded(self@)),
    {
        let ghost target = upgraded(self@);
        let mut s = self;
        let ghost mut cur = s@;
        proof {
            lemma_agrees_view(s);
        }
        let mut k: u32 = 2;
        while k <= 25
            invariant
                2 <= k <= 26,
                agrees(s, cur),
                migrate_from(cur, k) == target,
            decreases 26 - k,
        {
            s = migrate_once(s, k, Ghost(cur));
            proof {
                cur = step_at(cur, k);
            }
            k = k + 1;
        }
        s
    }

    /// `upgrade` for the platform: on Android the result always has the
    /// touch controls on, so that a touch input path remains whatever the file
    /// held.
    pub fn upgrade_on(self, android: bool) -> (r: Settings)
        ensures
            agrees(
                r,
                if android {
                    SettingsView { touch_controls: true, ..upgraded(self@) }
                } else {
                    upgraded(self@)
                },
            ),
            android ==> r.touch_controls,
    {
        let mut r = self.upgrade();
        if android {
            r.touch_controls = true;
            proof {
                reveal(agrees);
            }
        }
        r
    }
}

} // verus!
