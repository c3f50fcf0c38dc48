//! Player input settings: key maps, gamepad layouts and controller assignment.
use vstd::prelude::*;
use crate::gamepad::{Axis, AxisDirection, Button, PlayerControllerInputType};
use crate::keyboard::ScanCode;
use crate::modes::{CutsceneSkipMode, InterpolationMode, ScreenShakeIntensity, TimingMode, VSyncMode, WindowMode};
use crate::text::{find_char, index_of, lemma_index_of, segment_is, str_eq, string_of};

verus! {

/// Rumble style: the original fixed effects, or enhanced gameplay feedback.
#[derive(Clone, Copy, Debug, PartialEq, Eq, Structural)]
pub enum RumbleMode {
    Original,
    Enhanced,
}

impl Default for RumbleMode {
    fn default() -> (r: RumbleMode)
        ensures
            r == RumbleMode::Enhanced,
    {
        RumbleMode::Enhanced
    }
}

/// A player's input device: the keyboard, or the gamepad in a session slot.
#[derive(Clone, Copy, Debug, PartialEq, Eq, Structural)]
pub enum ControllerType {
    Keyboard,
    Gamepad(u32),
}

/// Keyboard keys of one player.
#[derive(Clone, Copy, Debug, PartialEq, Eq, Structural)]
pub struct PlayerKeyMap {
    pub left: ScanCode,
    pub up: ScanCode,
    pub right: ScanCode,
    pub down: ScanCode,
    pub prev_weapon: ScanCode,
    pub next_weapon: ScanCode,
    pub jump: ScanCode,
    pub shoot: ScanCode,
    pub skip: ScanCode,
    pub inventory: ScanCode,
    pub map: ScanCode,
    pub strafe: ScanCode,
    pub menu_ok: ScanCode,
    pub menu_back: ScanCode,
}

/// Default keys of player one.
pub open spec fn p1_keymap() -> PlayerKeyMap {
    PlayerKeyMap {
        left: ScanCode::Left,
        up: ScanCode::Up,
        right: ScanCode::Right,
        down: ScanCode::Down,
        prev_weapon: ScanCode::A,
        next_weapon: ScanCode::S,
        jump: ScanCode::Z,
        shoot: ScanCode::X,
        skip: ScanCode::Q,
        inventory: ScanCode::Q,
        map: ScanCode::W,
        strafe: ScanCode::LShift,
        menu_ok: ScanCode::Z,
        menu_back: ScanCode::X,
    }
}

/// Default keys of player two.
pub open spec fn p2_keymap() -> PlayerKeyMap {
    PlayerKeyMap {
        left: ScanCode::Comma,
        up: ScanCode::L,
        right: ScanCode::Slash,
        down: ScanCode::Period,
        prev_weapon: ScanCode::G,
        next_weapon: ScanCode::H,
        jump: ScanCode::B,
        shoot: ScanCode::N,
        skip: ScanCode::T,
        inventory: ScanCode::T,
        map: ScanCode::Y,
        strafe: ScanCode::RShift,
        menu_ok: ScanCode::B,
        menu_back: ScanCode::N,
    }
}

/// Default keys of player one.
pub fn p1_default_keymap() -> (r: PlayerKeyMap)
    ensures
        r == p1_keymap(),
{
    PlayerKeyMap {
        left: ScanCode::Left,
        up: ScanCode::Up,
        right: ScanCode::Right,
        down: ScanCode::Down,
        prev_weapon: ScanCode::A,
        next_weapon: ScanCode::S,
        jump: ScanCode::Z,
        shoot: ScanCode::X,
        skip: ScanCode::Q,
        inventory: ScanCode::Q,
        map: ScanCode::W,
        strafe: ScanCode::LShift,
        menu_ok: ScanCode::Z,
        menu_back: ScanCode::X,
    }
}

/// Default keys of player two.
pub fn p2_default_keymap() -> (r: PlayerKeyMap)
    ensures
        r == p2_keymap(),
{
    PlayerKeyMap {
        left: ScanCode::Comma,
        up: ScanCode::L,
        right: ScanCode::Slash,
        down: ScanCode::Period,
        prev_weapon: ScanCode::G,
        next_weapon: ScanCode::H,
        jump: ScanCode::B,
        shoot: ScanCode::N,
        skip: ScanCode::T,
        inventory: ScanCode::T,
        map: ScanCode::Y,
        strafe: ScanCode::RShift,
        menu_ok: ScanCode::B,
        menu_back: ScanCode::N,
    }
}

/// Gamepad bindings of one player.
#[derive(Clone, Copy, Debug, PartialEq, Eq, Structural)]
pub struct PlayerControllerButtonMap {
    pub left: PlayerControllerInputType,
    pub up: PlayerControllerInputType,
    pub right: PlayerControllerInputType,
    pub down: PlayerControllerInputType,
    pub prev_weapon: PlayerControllerInputType,
    pub next_weapon: PlayerControllerInputType,
    pub jump: PlayerControllerInputType,
    pub shoot: PlayerControllerInputType,
    pub skip: PlayerControllerInputType,
    pub inventory: PlayerControllerInputType,
    pub map: PlayerControllerInputType,
    pub strafe: PlayerControllerInputType,
    pub menu_ok: PlayerControllerInputType,
    pub menu_back: PlayerControllerInputType,
}

/// The Xbox layout as first shipped, with the map on North alone.
pub open spec fn legacy_map() -> PlayerControllerButtonMap {
    PlayerControllerButtonMap {
        left: PlayerControllerInputType::Either(Button::DPadLeft, Axis::LeftX, AxisDirection::Left),
        up: PlayerControllerInputType::Either(Button::DPadUp, Axis::LeftY, AxisDirection::Up),
        right: PlayerControllerInputType::Either(Button::DPadRight, Axis::LeftX, AxisDirection::Right),
        down: PlayerControllerInputType::Either(Button::DPadDown, Axis::LeftY, AxisDirection::Down),
        prev_weapon: PlayerControllerInputType::ButtonInput(Button::LeftShoulder),
        next_weapon: PlayerControllerInputType::ButtonInput(Button::RightShoulder),
        jump: PlayerControllerInputType::ButtonInput(Button::East),
        shoot: PlayerControllerInputType::ButtonInput(Button::South),
        skip: PlayerControllerInputType::ButtonInput(Button::West),
        inventory: PlayerControllerInputType::ButtonInput(Button::West),
        map: PlayerControllerInputType::ButtonInput(Button::North),
        strafe: PlayerControllerInputType::AxisInput(Axis::TriggerRight, AxisDirection::Either),
        menu_ok: PlayerControllerInputType::ButtonInput(Button::South),
        menu_back: PlayerControllerInputType::ButtonInput(Button::East),
    }
}

/// The default (Xbox) layout: the map on North or Back.
pub open spec fn default_map() -> PlayerControllerButtonMap {
    PlayerControllerButtonMap {
        map: PlayerControllerInputType::EitherButtons(Button::North, Button::Back),
        ..legacy_map()
    }
}

/// The PSP layout: the default with East confirming and South cancelling menus.
pub open spec fn psp_map() -> PlayerControllerButtonMap {
    PlayerControllerButtonMap {
        menu_ok: PlayerControllerInputType::ButtonInput(Button::East),
        menu_back: PlayerControllerInputType::ButtonInput(Button::South),
        ..default_map()
    }
}

/// Layout number: 0 for the Xbox layout (either version), 1 for PSP, 2 for custom.
pub open spec fn layout_of(m: PlayerControllerButtonMap) -> usize {
    if m == default_map() || m == legacy_map() {
        0
    } else if m == psp_map() {
        1
    } else {
        2
    }
}

fn legacy_controller_button_map() -> (r: PlayerControllerButtonMap)
    ensures
        r == legacy_map(),
{
    PlayerControllerButtonMap {
        left: PlayerControllerInputType::Either(Button::DPadLeft, Axis::LeftX, AxisDirection::Left),
        up: PlayerControllerInputType::Either(Button::DPadUp, Axis::LeftY, AxisDirection::Up),
        right: PlayerControllerInputType::Either(Button::DPadRight, Axis::LeftX, AxisDirection::Right),
        down: PlayerControllerInputType::Either(Button::DPadDown, Axis::LeftY, AxisDirection::Down),
        prev_weapon: PlayerControllerInputType::ButtonInput(Button::LeftShoulder),
        next_weapon: PlayerControllerInputType::ButtonInput(Button::RightShoulder),
        jump: PlayerControllerInputType::ButtonInput(Button::East),
        shoot: PlayerControllerInputType::ButtonInput(Button::South),
        skip: PlayerControllerInputType::ButtonInput(Button::West),
        strafe: PlayerControllerInputType::AxisInput(Axis::TriggerRight, AxisDirection::Either),
        inventory: PlayerControllerInputType::ButtonInput(Button::West),
        map: PlayerControllerInputType::ButtonInput(Button::North),
        menu_ok: PlayerControllerInputType::ButtonInput(Button::South),
        menu_back: PlayerControllerInputType::ButtonInput(Button::East),
    }
}

/// The default (Xbox) gamepad layout.
pub fn player_default_controller_button_map() -> (r: PlayerControllerButtonMap)
    ensures
        r == default_map(),
{
    let mut map = legacy_controller_button_map();
    map.map = PlayerControllerInputType::EitherButtons(Button::North, Button::Back);
    map
}

/// The PSP gamepad layout.
pub fn psp_controller_button_map() -> (r: PlayerControllerButtonMap)
    ensures
        r == psp_map(),
{
    let mut map = player_default_controller_button_map();
    map.menu_ok = PlayerControllerInputType::ButtonInput(Button::East);
    map.menu_back = PlayerControllerInputType::ButtonInput(Button::South);
    map
}

/// The result of `switch_layout`: the new bindings and the saved custom layout.
pub open spec fn switched(
    m: PlayerControllerButtonMap,
    custom: Option<PlayerControllerButtonMap>,
    layout: usize,
) -> (PlayerControllerButtonMap, Option<PlayerControllerButtonMap>) {
    let saved = if layout_of(m) == 2 { Some(m) } else { custom };
    let next = if layout == 0 {
        default_map()
    } else if layout == 1 {
        psp_map()
    } else if layout == 2 {
        match saved {
            Some(s) => s,
            None => m,
        }
    } else {
        m
    };
    (next, saved)
}

impl PlayerControllerButtonMap {
    /// 0 for the Xbox layout (either version), 1 for PSP, 2 for custom bindings.
    pub fn layout_index(&self) -> (r: usize)
        ensures
            r == layout_of(*self),
    {
        if *self == player_default_controller_button_map() || *self == legacy_controller_button_map() {
            0
        } else if *self == psp_controller_button_map() {
            1
        } else {
            2
        }
    }

    /// Switches to layout `layout`, first saving custom bindings into `custom`;
    /// layout 2 restores the saved custom bindings.
    pub fn switch_layout(&mut self, layout: usize, custom: &mut Option<Self>)
        ensures
            (*final(self), *final(custom)) == switched(*old(self), *old(custom), layout),
    {
        if self.layout_index() == 2 {
            *custom = Some(*self);
        }
        if layout == 0 {
            *self = player_default_controller_button_map();
        } else if layout == 1 {
            *self = psp_controller_button_map();
        } else if layout == 2 {
            if let Some(saved) = custom {
                *self = *saved;
            }
        }
    }
}

/// The presets have their own layout numbers.
pub proof fn law_preset_layouts()
    ensures
        layout_of(default_map()) == 0,
        layout_of(legacy_map()) == 0,
        layout_of(psp_map()) == 1,
{
    assert(psp_map() != default_map());
    assert(psp_map() != legacy_map());
}

/// Leaving custom bindings for a preset and switching back to the custom
/// layout restores them, whatever was saved before.
pub proof fn law_custom_layout_round_trip(
    m: PlayerControllerButtonMap,
    custom: Option<PlayerControllerButtonMap>,
    preset: usize,
)
    requires
        layout_of(m) == 2,
        preset == 0 || preset == 1,
    ensures
        ({
            let (away, saved) = switched(m, custom, preset);
            let (back, saved2) = switched(away, saved, 2);
            back == m && saved2 == Some(m)
        }),
{
    law_preset_layouts();
}

/// All user settings. Floating-point values are held by their IEEE-754 bits.
pub struct Settings {
    pub version: u32,
    pub seasonal_textures: bool,
    pub original_textures: bool,
    pub shader_effects: bool,
    pub light_cone: bool,
    pub subpixel_coords: bool,
    pub motion_interpolation: bool,
    pub touch_controls: bool,
    pub display_touch_controls: bool,
    pub auto_hide_touch_controls: bool,
    pub soundtrack: String,
    /// Music volume (an `f32`, by its IEEE-754 bits).
    pub bgm_volume: u32,
    /// Sound effect volume (an `f32`, by its IEEE-754 bits).
    pub sfx_volume: u32,
    pub timing_mode: TimingMode,
    pub pause_on_focus_loss: bool,
    pub organya_interpolation: InterpolationMode,
    pub player1_controller_type: ControllerType,
    pub player2_controller_type: ControllerType,
    pub auto_controller_switching: bool,
    pub player1_key_map: PlayerKeyMap,
    pub player2_key_map: PlayerKeyMap,
    pub player1_controller_button_map: PlayerControllerButtonMap,
    pub player2_controller_button_map: PlayerControllerButtonMap,
    pub player1_custom_controller_button_map: Option<PlayerControllerButtonMap>,
    pub player2_custom_controller_button_map: Option<PlayerControllerButtonMap>,
    /// Stick threshold of player one (an `f64`, by its IEEE-754 bits).
    pub player1_controller_axis_sensitivity: u64,
    /// Stick threshold of player two (an `f64`, by its IEEE-754 bits).
    pub player2_controller_axis_sensitivity: u64,
    pub player1_rumble: bool,
    pub player2_rumble: bool,
    pub player1_rumble_mode: RumbleMode,
    pub player2_rumble_mode: RumbleMode,
    /// Game speed (an `f64`, by its IEEE-754 bits); not saved.
    pub speed: u64,
    pub god_mode: bool,
    pub infinite_booster: bool,
    pub debug_outlines: bool,
    pub fps_counter: bool,
    pub locale: String,
    /// Settings saved before this field existed hold an explicit language choice.
    pub follow_system_language: bool,
    /// The last platform language selection seen, as `source:locale[:tag]`.
    pub android_language: Option<String>,
    pub window_mode: WindowMode,
    pub vsync_mode: VSyncMode,
    pub screen_shake_intensity: ScreenShakeIntensity,
    pub debug_mode: bool,
    pub noclip: bool,
    pub more_rust: bool,
    pub cutscene_skip_mode: CutsceneSkipMode,
    pub discord_rpc: bool,
    pub allow_strafe: bool,
}

/// The settings as values: strings by their characters.
pub struct SettingsView {
    pub version: u32,
    pub seasonal_textures: bool,
    pub original_textures: bool,
    pub shader_effects: bool,
    pub light_cone: bool,
    pub subpixel_coords: bool,
    pub motion_interpolation: bool,
    pub touch_controls: bool,
    pub display_touch_controls: bool,
    pub auto_hide_touch_controls: bool,
    pub soundtrack: Seq<char>,
    pub bgm_volume: u32,
    pub sfx_volume: u32,
    pub timing_mode: TimingMode,
    pub pause_on_focus_loss: bool,
    pub organya_interpolation: InterpolationMode,
    pub player1_controller_type: ControllerType,
    pub player2_controller_type: ControllerType,
    pub auto_controller_switching: bool,
    pub player1_key_map: PlayerKeyMap,
    pub player2_key_map: PlayerKeyMap,
    pub player1_controller_button_map: PlayerControllerButtonMap,
    pub player2_controller_button_map: PlayerControllerButtonMap,
    pub player1_custom_controller_button_map: Option<PlayerControllerButtonMap>,
    pub player2_custom_controller_button_map: Option<PlayerControllerButtonMap>,
    pub player1_controller_axis_sensitivity: u64,
    pub player2_controller_axis_sensitivity: u64,
    pub player1_rumble: bool,
    pub player2_rumble: bool,
    pub player1_rumble_mode: RumbleMode,
    pub player2_rumble_mode: RumbleMode,
    pub speed: u64,
    pub god_mode: bool,
    pub infinite_booster: bool,
    pub debug_outlines: bool,
    pub fps_counter: bool,
    pub locale: Seq<char>,
    pub follow_system_language: bool,
    pub android_language: Option<Seq<char>>,
    pub window_mode: WindowMode,
    pub vsync_mode: VSyncMode,
    pub screen_shake_intensity: ScreenShakeIntensity,
    pub debug_mode: bool,
    pub noclip: bool,
    pub more_rust: bool,
    pub cutscene_skip_mode: CutsceneSkipMode,
    pub discord_rpc: bool,
    pub allow_strafe: bool,
}

/// An optional string by its characters.
pub open spec fn opt_string_view(o: Option<String>) -> Option<Seq<char>> {
    match o {
        Some(s) => Some(s@),
        None => None,
    }
}

/// `s` holds the values `v`, field by field.
#[verifier::opaque]
pub open spec fn agrees(s: Settings, v: SettingsView) -> bool {
    &&& s.version == v.version
    &&& s.seasonal_textures == v.seasonal_textures
    &&& s.original_textures == v.original_textures
    &&& s.shader_effects == v.shader_effects
    &&& s.light_cone == v.light_cone
    &&& s.subpixel_coords == v.subpixel_coords
    &&& s.motion_interpolation == v.motion_interpolation
    &&& s.touch_controls == v.touch_controls
    &&& s.display_touch_controls == v.display_touch_controls
    &&& s.auto_hide_touch_controls == v.auto_hide_touch_controls
    &&& s.soundtrack@ == v.soundtrack
    &&& s.bgm_volume == v.bgm_volume
    &&& s.sfx_volume == v.sfx_volume
    &&& s.timing_mode == v.timing_mode
    &&& s.pause_on_focus_loss == v.pause_on_focus_loss
    &&& s.organya_interpolation == v.organya_interpolation
    &&& s.player1_controller_type == v.player1_controller_type
    &&& s.player2_controller_type == v.player2_controller_type
    &&& s.auto_controller_switching == v.auto_controller_switching
    &&& s.player1_key_map == v.player1_key_map
    &&& s.player2_key_map == v.player2_key_map
    &&& s.player1_controller_button_map == v.player1_controller_button_map
    &&& s.player2_controller_button_map == v.player2_controller_button_map
    &&& s.player1_custom_controller_button_map == v.player1_custom_controller_button_map
    &&& s.player2_custom_controller_button_map == v.player2_custom_controller_button_map
    &&& s.player1_controller_axis_sensitivity == v.player1_controller_axis_sensitivity
    &&& s.player2_controller_axis_sensitivity == v.player2_controller_axis_sensitivity
    &&& s.player1_rumble == v.player1_rumble
    &&& s.player2_rumble == v.player2_rumble
    &&& s.player1_rumble_mode == v.player1_rumble_mode
    &&& s.player2_rumble_mode == v.player2_rumble_mode
    &&& s.speed == v.speed
    &&& s.god_mode == v.god_mode
    &&& s.infinite_booster == v.infinite_booster
    &&& s.debug_outlines == v.debug_outlines
    &&& s.fps_counter == v.fps_counter
    &&& s.locale@ == v.locale
    &&& s.follow_system_language == v.follow_system_language
    &&& opt_string_view(s.android_language) == v.android_language
    &&& s.window_mode == v.window_mode
    &&& s.vsync_mode == v.vsync_mode
    &&& s.screen_shake_intensity == v.screen_shake_intensity
    &&& s.debug_mode == v.debug_mode
    &&& s.noclip == v.noclip
    &&& s.more_rust == v.more_rust
    &&& s.cutscene_skip_mode == v.cutscene_skip_mode
    &&& s.discord_rpc == v.discord_rpc
    &&& s.allow_strafe == v.allow_strafe
}

/// Agreement fixes the version.
pub proof fn lemma_agrees_version(s: Settings, v: SettingsView)
    requires
        agrees(s, v),
    ensures
        s.version == v.version,
{
    reveal(agrees);
}

/// Settings agree with their own view.
pub proof fn lemma_agrees_view(s: Settings)
    ensures
        agrees(s, s@),
{
    reveal(agrees);
}

impl View for Settings {
    type V = SettingsView;

    open spec fn view(&self) -> SettingsView {
        SettingsView {
            version: self.version,
            seasonal_textures: self.seasonal_textures,
            original_textures: self.original_textures,
            shader_effects: self.shader_effects,
            light_cone: self.light_cone,
            subpixel_coords: self.subpixel_coords,
            motion_interpolation: self.motion_interpolation,
            touch_controls: self.touch_controls,
            display_touch_controls: self.display_touch_controls,
            auto_hide_touch_controls: self.auto_hide_touch_controls,
            soundtrack: self.soundtrack@,
            bgm_volume: self.bgm_volume,
            sfx_volume: self.sfx_volume,
            timing_mode: self.timing_mode,
            pause_on_focus_loss: self.pause_on_focus_loss,
            organya_interpolation: self.organya_interpolation,
            player1_controller_type: self.player1_controller_type,
            player2_controller_type: self.player2_controller_type,
            auto_controller_switching: self.auto_controller_switching,
            player1_key_map: self.player1_key_map,
            player2_key_map: self.player2_key_map,
            player1_controller_button_map: self.player1_controller_button_map,
            player2_controller_button_map: self.player2_controller_button_map,
            player1_custom_controller_button_map: self.player1_custom_controller_button_map,
            player2_custom_controller_button_map: self.player2_custom_controller_button_map,
            player1_controller_axis_sensitivity: self.player1_controller_axis_sensitivity,
            player2_controller_axis_sensitivity: self.player2_controller_axis_sensitivity,
            player1_rumble: self.player1_rumble,
            player2_rumble: self.player2_rumble,
            player1_rumble_mode: self.player1_rumble_mode,
            player2_rumble_mode: self.player2_rumble_mode,
            speed: self.speed,
            god_mode: self.god_mode,
            infinite_booster: self.infinite_booster,
            debug_outlines: self.debug_outlines,
            fps_counter: self.fps_counter,
            locale: self.locale@,
            follow_system_language: self.follow_system_language,
            android_language: opt_string_view(self.android_language),
            window_mode: self.window_mode,
            vsync_mode: self.vsync_mode,
            screen_shake_intensity: self.screen_shake_intensity,
            debug_mode: self.debug_mode,
            noclip: self.noclip,
            more_rust: self.more_rust,
            cutscene_skip_mode: self.cutscene_skip_mode,
            discord_rpc: self.discord_rpc,
            allow_strafe: self.allow_strafe,
        }
    }
}

/// Current settings file version.
pub open spec fn current_version() -> u32 {
    26
}

/// Default axis threshold, 0.3 as `f64` bits.
pub open spec fn default_sensitivity() -> u64 {
    0x3FD3_3333_3333_3333
}

/// Default volume, 1.0 as `f32` bits.
pub open spec fn default_volume() -> u32 {
    0x3F80_0000
}

/// 0.3 as `f64` bits.
pub const DEFAULT_SENSITIVITY: u64 = 0x3FD3_3333_3333_3333;

/// 1.0 as `f32` bits.
pub const DEFAULT_VOLUME: u32 = 0x3F80_0000;

/// 1.0 as `f64` bits.
pub const DEFAULT_SPEED: u64 = 0x3FF0_0000_0000_0000;

/// The settings of a new installation (desktop build: no touch controls, a
/// saved language rather than the system's).
pub open spec fn default_settings() -> SettingsView {
    SettingsView {
        version: current_version(),
        seasonal_textures: true,
        original_textures: false,
        shader_effects: false,
        light_cone: true,
        subpixel_coords: true,
        motion_interpolation: true,
        touch_controls: false,
        display_touch_controls: true,
        auto_hide_touch_controls: false,
        soundtrack: "Organya"@,
        bgm_volume: default_volume(),
        sfx_volume: default_volume(),
        timing_mode: TimingMode::_50Hz,
        pause_on_focus_loss: true,
        organya_interpolation: InterpolationMode::Linear,
        player1_controller_type: ControllerType::Keyboard,
        player2_controller_type: ControllerType::Keyboard,
        auto_controller_switching: true,
        player1_key_map: p1_keymap(),
        player2_key_map: p2_keymap(),
        player1_controller_button_map: default_map(),
        player2_controller_button_map: default_map(),
        player1_custom_controller_button_map: None,
        player2_custom_controller_button_map: None,
        player1_controller_axis_sensitivity: default_sensitivity(),
        player2_controller_axis_sensitivity: default_sensitivity(),
        player1_rumble: true,
        player2_rumble: true,
        player1_rumble_mode: RumbleMode::Enhanced,
        player2_rumble_mode: RumbleMode::Enhanced,
        speed: DEFAULT_SPEED,
        god_mode: false,
        infinite_booster: false,
        debug_outlines: false,
        fps_counter: false,
        locale: "en"@,
        follow_system_language: false,
        android_language: None,
        window_mode: WindowMode::Windowed,
        vsync_mode: VSyncMode::VSync,
        screen_shake_intensity: ScreenShakeIntensity::Full,
        debug_mode: false,
        noclip: false,
        more_rust: false,
        cutscene_skip_mode: CutsceneSkipMode::Hold,
        discord_rpc: true,
        allow_strafe: true,
    }
}

/// Player one's device on a fresh install: the keyboard.
pub fn default_p1_controller_type() -> (r: ControllerType)
    ensures
        r == ControllerType::Keyboard,
{
    ControllerType::Keyboard
}

/// Player two's device on a fresh install: the keyboard too.
pub fn default_p2_controller_type() -> (r: ControllerType)
    ensures
        r == ControllerType::Keyboard,
{
    ControllerType::Keyboard
}

/// The settings of a fresh install: the defaults, in Chinese where the
/// complete Chinese data is installed (its marker and its locale both present).
pub fn fresh_install_settings(chinese_install: bool, chinese_locale: bool) -> (r: Settings)
    ensures
        agrees(
            r,
            if chinese_install && chinese_locale {
                SettingsView { locale: "zh-Hans"@, ..default_settings() }
            } else {
                default_settings()
            },
        ),
{
    let mut s = Settings::default();
    if chinese_install && chinese_locale {
        s.locale = string_of("zh-Hans");
        proof {
            reveal(agrees);
        }
    }
    s
}

/// The default settings on the platform: touch controls are on by default
/// on Android only.
pub fn platform_default(android: bool) -> (r: Settings)
    ensures
        agrees(r, SettingsView { touch_controls: android, ..default_settings() }),
{
    let mut s = Settings::default();
    s.touch_controls = android;
    proof {
        reveal(agrees);
    }
    s
}

/// What a refresh of the language from the platform did.
#[derive(Clone, Copy, Debug, PartialEq, Eq, Structural)]
pub struct LanguageRefresh {
    /// The game's language changed.
    pub locale_changed: bool,
    /// The remembered selection changed: the settings are to be saved.
    pub save: bool,
}

impl Default for Settings {
    fn default() -> (r: Settings)
        ensures
            agrees(r, default_settings()),
    {
        proof {
            reveal(agrees);
            reveal_strlit("Organya");
            reveal_strlit("en");
        }
        Settings {
            version: 26,
            seasonal_textures: true,
            original_textures: false,
            shader_effects: false,
            light_cone: true,
            subpixel_coords: true,
            motion_interpolation: true,
            touch_controls: false,
            display_touch_controls: true,
            auto_hide_touch_controls: false,
            soundtrack: string_of("Organya"),
            bgm_volume: DEFAULT_VOLUME,
            sfx_volume: DEFAULT_VOLUME,
            timing_mode: TimingMode::_50Hz,
            pause_on_focus_loss: true,
            organya_interpolation: InterpolationMode::Linear,
            player1_controller_type: default_p1_controller_type(),
            player2_controller_type: default_p2_controller_type(),
            auto_controller_switching: true,
            player1_key_map: p1_default_keymap(),
            player2_key_map: p2_default_keymap(),
            player1_controller_button_map: player_default_controller_button_map(),
            player2_controller_button_map: player_default_controller_button_map(),
            player1_custom_controller_button_map: None,
            player2_custom_controller_button_map: None,
            player1_controller_axis_sensitivity: DEFAULT_SENSITIVITY,
            player2_controller_axis_sensitivity: DEFAULT_SENSITIVITY,
            player1_rumble: true,
            player2_rumble: true,
            player1_rumble_mode: RumbleMode::Enhanced,
            player2_rumble_mode: RumbleMode::Enhanced,
            speed: DEFAULT_SPEED,
            god_mode: false,
            infinite_booster: false,
            debug_outlines: false,
            fps_counter: false,
            locale: string_of("en"),
            follow_system_language: false,
            android_language: None,
            window_mode: WindowMode::Windowed,
            vsync_mode: VSyncMode::VSync,
            screen_shake_intensity: ScreenShakeIntensity::Full,
            debug_mode: false,
            noclip: false,
            more_rust: false,
            cutscene_skip_mode: CutsceneSkipMode::Hold,
            discord_rpc: true,
            allow_strafe: true,
        }
    }
}

/// The source of an Android language selection `source:locale[:tag]`.
#[verifier::opaque]
pub open spec fn selection_source(sel: Seq<char>) -> Seq<char> {
    sel.take(index_of(sel, ':') as int)
}

/// The locale of an Android language selection, if it has one.
#[verifier::opaque]
pub open spec fn selection_locale(sel: Seq<char>) -> Option<Seq<char>> {
    let c = index_of(sel, ':');
    if c < sel.len() {
        let rest = sel.skip((c + 1) as int);
        Some(rest.take(index_of(rest, ':') as int))
    } else {
        None
    }
}

/// Whether the game offers a locale that Android can select.
pub open spec fn android_locale_known(locale: Seq<char>) -> bool {
    locale == "en"@ || locale == "jp"@ || locale == "zh-Hans"@
}

/// Settings after the platform reported the language selection `sel`: a
/// selection of unknown form changes nothing; otherwise it is remembered, and
/// its locale is taken where the game follows the system language or the
/// selection is new (a first one only when the app itself chose it).
pub open spec fn android_language_applied(s: SettingsView, sel: Seq<char>) -> SettingsView {
    if !selection_known(sel) {
        s
    } else if s.follow_system_language || language_changed(s, sel) {
        language_followed(s, selection_locale(sel)->0, sel)
    } else {
        language_remembered(s, sel)
    }
}

/// Whether `sel` differs from the last selection seen; with none seen, only a
/// choice made in the app itself counts as a change.
pub open spec fn language_changed(s: SettingsView, sel: Seq<char>) -> bool {
    match s.android_language {
        None => selection_source(sel) == "app"@,
        Some(previous) => previous != sel,
    }
}

/// The game follows the platform and takes `locale`, remembering `sel`.
#[verifier::opaque]
pub open spec fn language_followed(s: SettingsView, locale: Seq<char>, sel: Seq<char>) -> SettingsView {
    SettingsView { locale, follow_system_language: true, android_language: Some(sel), ..s }
}

/// The game keeps its language and only remembers `sel`.
#[verifier::opaque]
pub open spec fn language_remembered(s: SettingsView, sel: Seq<char>) -> SettingsView {
    SettingsView { android_language: Some(sel), ..s }
}

/// The stick threshold that applies to the gamepad in slot `id`: player two's
/// for the pad assigned to player two, else player one's where player one
/// switches automatically or was assigned that pad, else the default.
pub open spec fn axis_sensitivity(s: SettingsView, id: u32) -> u64 {
    if s.player2_controller_type == ControllerType::Gamepad(id) {
        s.player2_controller_axis_sensitivity
    } else if s.auto_controller_switching || s.player1_controller_type == ControllerType::Gamepad(id) {
        s.player1_controller_axis_sensitivity
    } else {
        default_sensitivity()
    }
}

/// Whether an Android language selection has a known source and a known locale.
#[verifier::opaque]
pub open spec fn selection_known(sel: Seq<char>) -> bool {
    let source = selection_source(sel);
    &&& selection_locale(sel) is Some
    &&& source == "app"@ || source == "system"@
    &&& android_locale_known(selection_locale(sel)->0)
}

/// Reads a selection `source:locale[:tag]`: whether the app itself chose it,
/// and its locale; `None` for one of unknown form.
fn read_android_selection(selection: &str) -> (r: Option<(bool, String)>)
    ensures
        match r {
            None => !selection_known(selection@),
            Some((app, locale)) => {
                &&& selection_known(selection@)
                &&& app == (selection_source(selection@) == "app"@)
                &&& Some(locale@) == selection_locale(selection@)
            },
        },
{
    proof {
        reveal(selection_source);
        reveal(selection_locale);
        reveal(selection_known);
        reveal_strlit("app");
        reveal_strlit("system");
        reveal_strlit("en");
        reveal_strlit("jp");
        reveal_strlit("zh-Hans");
        lemma_index_of(selection@, ':');
        assert(selection@.skip(0) =~= selection@);
    }
    let n = selection.unicode_len();
    let c = find_char(selection, ':', 0);
    if c >= n {
        return None;
    }
    let e = find_char(selection, ':', c + 1);
    proof {
        let rest = selection@.skip(c + 1);
        assert(rest.take(index_of(rest, ':') as int) =~= selection@.subrange(c + 1, e as int));
        assert(selection@.take(c as int) =~= selection@.subrange(0, c as int));
    }
    let app = segment_is(selection, 0, c, "app");
    let system = segment_is(selection, 0, c, "system");
    if !(app || system) {
        return None;
    }
    if segment_is(selection, c + 1, e, "en") {
        Some((app, string_of("en")))
    } else if segment_is(selection, c + 1, e, "jp") {
        Some((app, string_of("jp")))
    } else if segment_is(selection, c + 1, e, "zh-Hans") {
        Some((app, string_of("zh-Hans")))
    } else {
        None
    }
}

proof fn lemma_followed_fields(s: SettingsView, locale: Seq<char>, sel: Seq<char>)
    ensures
        language_followed(s, locale, sel).locale == locale,
        language_followed(s, locale, sel).follow_system_language,
        language_followed(s, locale, sel).android_language == Some(sel),
{
    reveal(language_followed);
}

proof fn lemma_remembered_fields(s: SettingsView, sel: Seq<char>)
    ensures
        language_remembered(s, sel).locale == s.locale,
        language_remembered(s, sel).follow_system_language == s.follow_system_language,
        language_remembered(s, sel).android_language == Some(sel),
{
    reveal(language_remembered);
}

/// Applying the same platform selection again changes the language state
/// no further (the selection touches no other setting).
pub proof fn law_android_language_idempotent(s: SettingsView, sel: Seq<char>)
    ensures
        ({
            let once = android_language_applied(s, sel);
            let twice = android_language_applied(once, sel);
            &&& twice.locale == once.locale
            &&& twice.follow_system_language == once.follow_system_language
            &&& twice.android_language == once.android_language
        }),
{
    let once = android_language_applied(s, sel);
    if selection_known(sel) {
        let locale = selection_locale(sel)->0;
        if s.follow_system_language || language_changed(s, sel) {
            lemma_followed_fields(s, locale, sel);
            lemma_followed_fields(once, locale, sel);
        } else {
            lemma_remembered_fields(s, sel);
            lemma_remembered_fields(once, sel);
        }
    }
}

/// The platform's selection `sel` (`source:locale[:tag]`) read field by
/// field: one of unknown form (a field missing, a source other than `app` or
/// `system`, a locale the game lacks) changes nothing; otherwise it is
/// remembered, and where the game follows the platform or the selection
/// changed (with none seen before, only a choice made in the app counts) the
/// game takes its locale and follows the platform; else the game keeps its
/// language. No other setting changes.
pub proof fn law_android_selection_rule(s: SettingsView, sel: Seq<char>)
    ensures
        !selection_known(sel) ==> android_language_applied(s, sel) == s,
        selection_known(sel) && (s.follow_system_language || language_changed(s, sel)) ==> android_language_applied(s, sel)
            == (SettingsView {
            locale: selection_locale(sel)->0,
            follow_system_language: true,
            android_language: Some(sel),
            ..s
        }),
        selection_known(sel) && !(s.follow_system_language || language_changed(s, sel)) ==> android_language_applied(
            s,
            sel,
        ) == (SettingsView { android_language: Some(sel), ..s }),
{
    reveal(language_followed);
    reveal(language_remembered);
}

/// A later change of the platform's language takes effect again, even after
/// a language was chosen in the game: the game follows the new selection.
pub proof fn law_new_platform_language_takes_effect(s: SettingsView, sel: Seq<char>)
    requires
        selection_known(sel),
        s.android_language is Some,
        s.android_language != Some(sel),
    ensures
        android_language_applied(s, sel).locale == selection_locale(sel)->0,
        android_language_applied(s, sel).follow_system_language,
        android_language_applied(s, sel).android_language == Some(sel),
{
    lemma_followed_fields(s, selection_locale(sel)->0, sel);
}

/// A language chosen in the game survives a restart on which the platform
/// reports the selection it reported before.
pub proof fn law_manual_language_survives(s: SettingsView, sel: Seq<char>)
    requires
        !s.follow_system_language,
        s.android_language == Some(sel),
    ensures
        ({
            let r = android_language_applied(s, sel);
            &&& r.locale == s.locale
            &&& r.follow_system_language == s.follow_system_language
            &&& r.android_language == s.android_language
        }),
{
    lemma_remembered_fields(s, sel);
}

impl Settings {
    /// Applies the platform's language selection, written `source:locale[:tag]`.
    pub fn apply_android_language(&mut self, selection: &str)
        ensures
            agrees(*final(self), android_language_applied(old(self)@, selection@)),
    {
        let mut current = Settings::default();
        core::mem::swap(self, &mut current);
        *self = current.with_android_language(selection);
    }

    /// Whether `selection` differs from the platform selection remembered.
    pub fn android_selection_is_new(&self, selection: &str) -> (r: bool)
        ensures
            r == (self@.android_language != Some(selection@)),
    {
        match &self.android_language {
            None => true,
            Some(previous) => !str_eq(previous.as_str(), selection),
        }
    }

    /// A refresh of the game's language from the platform's `selection`. A
    /// new selection is not taken while the saved settings cannot be read, so
    /// that an automatic refresh never replaces them; otherwise the selection
    /// is applied, and the settings are to be saved where the remembered
    /// selection changed.
    pub fn refresh_android_language(&mut self, selection: &str, saved_unreadable: bool) -> (r: LanguageRefresh)
        ensures
            old(self)@.android_language != Some(selection@) && saved_unreadable ==> {
                &&& *final(self) == *old(self)
                &&& r == (LanguageRefresh { locale_changed: false, save: false })
            },
            !(old(self)@.android_language != Some(selection@) && saved_unreadable) ==> {
                &&& agrees(*final(self), android_language_applied(old(self)@, selection@))
                &&& r.locale_changed == (android_language_applied(old(self)@, selection@).locale != old(self)@.locale)
                &&& r.save == (android_language_applied(old(self)@, selection@).android_language
                    != old(self)@.android_language)
            },
    {
        if self.android_selection_is_new(selection) && saved_unreadable {
            return LanguageRefresh { locale_changed: false, save: false };
        }
        let ghost before = self@;
        let previous_locale = string_of(self.locale.as_str());
        let previous_selection: Option<String> = match &self.android_language {
            None => None,
            Some(p) => Some(string_of(p.as_str())),
        };
        self.apply_android_language(selection);
        proof {
            reveal(agrees);
        }
        let locale_changed = !str_eq(previous_locale.as_str(), self.locale.as_str());
        let save = match (&previous_selection, &self.android_language) {
            (None, None) => false,
            (Some(a), Some(b)) => !str_eq(a.as_str(), b.as_str()),
            _ => true,
        };
        LanguageRefresh { locale_changed, save }
    }

    /// These settings after the platform's language selection `selection`.
    fn with_android_language(self, selection: &str) -> (r: Settings)
        ensures
            agrees(r, android_language_applied(self@, selection@)),
    {
        proof {
            lemma_agrees_view(self);
        }
        match read_android_selection(selection) {
            None => self,
            Some((app, locale)) => {
                let changed = match &self.android_language {
                    None => app,
                    Some(previous) => !str_eq(previous.as_str(), selection),
                };
                if self.follow_system_language || changed {
                    self.follow_language(locale, selection, Ghost(self@))
                } else {
                    self.remember_language(selection, Ghost(self@))
                }
            }
        }
    }

    /// Takes `locale` and follows the platform from now on.
    fn follow_language(self, locale: String, selection: &str, Ghost(cur): Ghost<SettingsView>) -> (r: Settings)
        requires
            agrees(self, cur),
        ensures
            agrees(r, language_followed(cur, locale@, selection@)),
    {
        proof {
            reveal(agrees);
            reveal(language_followed);
        }
        let android_language = Some(string_of(selection));
        Settings { locale, follow_system_language: true, android_language, ..self }
    }

    /// Remembers the selection and keeps the language.
    fn remember_language(self, selection: &str, Ghost(cur): Ghost<SettingsView>) -> (r: Settings)
        requires
            agrees(self, cur),
        ensures
            agrees(r, language_remembered(cur, selection@)),
    {
        proof {
            reveal(agrees);
            reveal(language_remembered);
        }
        let android_language = Some(string_of(selection));
        Settings { android_language, ..self }
    }

    /// The stick threshold, as `f64` bits, for the gamepad in slot `id`.
    pub fn get_gamepad_axis_sensitivity(&self, id: u32) -> (r: u64)
        ensures
            r == axis_sensitivity(self@, id),
    {
        if self.player2_controller_type == ControllerType::Gamepad(id) {
            self.player2_controller_axis_sensitivity
        } else if self.auto_controller_switching || self.player1_controller_type == ControllerType::Gamepad(id) {
            self.player1_controller_axis_sensitivity
        } else {
            DEFAULT_SENSITIVITY
        }
    }
}

/// The devices a player's controller reads: the keyboard, a gamepad slot
/// (with its rumble switch where the settings set it), and the touch overlay.
#[derive(Clone, Copy, Debug, PartialEq, Eq, Structural)]
pub struct PlayerInputs {
    pub keyboard: bool,
    pub gamepad: Option<u32>,
    pub gamepad_rumble: Option<bool>,
    pub touch: bool,
}

/// What player one's controller reads under `s`.
pub open spec fn player1_inputs(s: Settings) -> PlayerInputs {
    PlayerInputs { keyboard: true, gamepad: Some(0), gamepad_rumble: None, touch: s.touch_controls }
}

/// What player two's controller reads under `s`.
pub open spec fn player2_inputs(s: Settings) -> PlayerInputs {
    match s.player2_controller_type {
        ControllerType::Keyboard => PlayerInputs { keyboard: true, gamepad: None, gamepad_rumble: None, touch: false },
        ControllerType::Gamepad(i) => PlayerInputs {
            keyboard: true,
            gamepad: Some(i),
            gamepad_rumble: Some(s.player2_rumble),
            touch: false,
        },
    }
}

impl Settings {
    /// Player one reads the keyboard and the pad in slot 0 (kept even in
    /// keyboard mode, so that a pad plugged in later works at once), and the
    /// touch overlay where touch controls are on.
    pub fn create_player1_controller(&self) -> (r: PlayerInputs)
        ensures
            r == player1_inputs(*self),
    {
        PlayerInputs { keyboard: true, gamepad: Some(0), gamepad_rumble: None, touch: self.touch_controls }
    }

    /// Player two reads the keyboard, and its pad with its rumble switch
    /// where it is assigned one.
    pub fn create_player2_controller(&self) -> (r: PlayerInputs)
        ensures
            r == player2_inputs(*self),
    {
        match self.player2_controller_type {
            ControllerType::Keyboard => PlayerInputs { keyboard: true, gamepad: None, gamepad_rumble: None, touch: false },
            ControllerType::Gamepad(i) => PlayerInputs {
                keyboard: true,
                gamepad: Some(i),
                gamepad_rumble: Some(self.player2_rumble),
                touch: false,
            },
        }
    }
}

} // verus!
