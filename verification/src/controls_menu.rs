//! The rules of the controls menu: which device a player uses, which devices
//! a player may pick, and how a control is rebound to a key or a gamepad input.
use vstd::prelude::*;
use crate::gamepad::{Axis, AxisDirection, Button, PlayerControllerInputType};
use crate::gamepad_context::{player1_pad, present, GamepadContext, PadView};
use crate::keyboard::ScanCode;
use crate::settings::{
    default_map, layout_of, p1_default_keymap, p1_keymap, p2_default_keymap, p2_keymap,
    player_default_controller_button_map, switched, ControllerType, PlayerControllerButtonMap, PlayerKeyMap,
    Settings, RumbleMode,
};

verus! {

/// A control that can be rebound.
#[derive(Clone, Copy, Debug, PartialEq, Eq, Hash, Structural)]
pub enum ControlEntry {
    Left,
    Up,
    Right,
    Down,
    PrevWeapon,
    NextWeapon,
    Jump,
    Shoot,
    Skip,
    Inventory,
    ShowMap,
    Strafe,
    MenuOk,
    MenuBack,
}

/// The page of the controls menu on screen.
#[derive(Clone, Copy, Debug, PartialEq, Eq, Structural)]
pub enum CurrentMenu {
    MainMenu,
    SelectControllerMenu,
    RebindMenu,
    ConfirmRebindMenu,
    ConfirmResetMenu,
}

/// The player whose controls the menu shows.
#[derive(Clone, Copy, Debug, PartialEq, Eq, Structural)]
pub enum MenuPlayer {
    Player1,
    Player2,
}

/// The control that pairs with `c` and trades places with it when `c` takes
/// the partner's binding: jump with shoot, menu confirm with menu cancel.
pub open spec fn partner(c: ControlEntry) -> Option<ControlEntry> {
    match c {
        ControlEntry::Jump => Some(ControlEntry::Shoot),
        ControlEntry::Shoot => Some(ControlEntry::Jump),
        ControlEntry::MenuOk => Some(ControlEntry::MenuBack),
        ControlEntry::MenuBack => Some(ControlEntry::MenuOk),
        _ => None,
    }
}

/// The key bound to control `c`.
pub open spec fn key_of(m: PlayerKeyMap, c: ControlEntry) -> ScanCode {
    match c {
        ControlEntry::Left => m.left,
        ControlEntry::Up => m.up,
        ControlEntry::Right => m.right,
        ControlEntry::Down => m.down,
        ControlEntry::PrevWeapon => m.prev_weapon,
        ControlEntry::NextWeapon => m.next_weapon,
        ControlEntry::Jump => m.jump,
        ControlEntry::Shoot => m.shoot,
        ControlEntry::Skip => m.skip,
        ControlEntry::Inventory => m.inventory,
        ControlEntry::ShowMap => m.map,
        ControlEntry::Strafe => m.strafe,
        ControlEntry::MenuOk => m.menu_ok,
        ControlEntry::MenuBack => m.menu_back,
    }
}

/// Key map `m` with control `c` bound to `k`.
pub open spec fn with_key(m: PlayerKeyMap, c: ControlEntry, k: ScanCode) -> PlayerKeyMap {
    match c {
        ControlEntry::Left => PlayerKeyMap { left: k, ..m },
        ControlEntry::Up => PlayerKeyMap { up: k, ..m },
        ControlEntry::Right => PlayerKeyMap { right: k, ..m },
        ControlEntry::Down => PlayerKeyMap { down: k, ..m },
        ControlEntry::PrevWeapon => PlayerKeyMap { prev_weapon: k, ..m },
        ControlEntry::NextWeapon => PlayerKeyMap { next_weapon: k, ..m },
        ControlEntry::Jump => PlayerKeyMap { jump: k, ..m },
        ControlEntry::Shoot => PlayerKeyMap { shoot: k, ..m },
        ControlEntry::Skip => PlayerKeyMap { skip: k, ..m },
        ControlEntry::Inventory => PlayerKeyMap { inventory: k, ..m },
        ControlEntry::ShowMap => PlayerKeyMap { map: k, ..m },
        ControlEntry::Strafe => PlayerKeyMap { strafe: k, ..m },
        ControlEntry::MenuOk => PlayerKeyMap { menu_ok: k, ..m },
        ControlEntry::MenuBack => PlayerKeyMap { menu_back: k, ..m },
    }
}

/// Key map `m` after binding control `c` to `k`: where `c` has a partner that
/// held `k`, the partner takes `c`'s old key; the flag tells whether it did.
pub open spec fn rebound_key(m: PlayerKeyMap, c: ControlEntry, k: ScanCode) -> (PlayerKeyMap, bool) {
    match partner(c) {
        Some(p) => if key_of(m, p) == k {
            (with_key(with_key(m, p, key_of(m, c)), c, k), true)
        } else {
            (with_key(m, c, k), false)
        },
        None => (with_key(m, c, k), false),
    }
}

/// The gamepad input bound to control `c`.
pub open spec fn input_of(m: PlayerControllerButtonMap, c: ControlEntry) -> PlayerControllerInputType {
    match c {
        ControlEntry::Left => m.left,
        ControlEntry::Up => m.up,
        ControlEntry::Right => m.right,
        ControlEntry::Down => m.down,
        ControlEntry::PrevWeapon => m.prev_weapon,
        ControlEntry::NextWeapon => m.next_weapon,
        ControlEntry::Jump => m.jump,
        ControlEntry::Shoot => m.shoot,
        ControlEntry::Skip => m.skip,
        ControlEntry::Inventory => m.inventory,
        ControlEntry::ShowMap => m.map,
        ControlEntry::Strafe => m.strafe,
        ControlEntry::MenuOk => m.menu_ok,
        ControlEntry::MenuBack => m.menu_back,
    }
}

/// Gamepad map `m` with control `c` bound to `i`.
pub open spec fn with_input(m: PlayerControllerButtonMap, c: ControlEntry, i: PlayerControllerInputType) -> PlayerControllerButtonMap {
    match c {
        ControlEntry::Left => PlayerControllerButtonMap { left: i, ..m },
        ControlEntry::Up => PlayerControllerButtonMap { up: i, ..m },
        ControlEntry::Right => PlayerControllerButtonMap { right: i, ..m },
        ControlEntry::Down => PlayerControllerButtonMap { down: i, ..m },
        ControlEntry::PrevWeapon => PlayerControllerButtonMap { prev_weapon: i, ..m },
        ControlEntry::NextWeapon => PlayerControllerButtonMap { next_weapon: i, ..m },
        ControlEntry::Jump => PlayerControllerButtonMap { jump: i, ..m },
        ControlEntry::Shoot => PlayerControllerButtonMap { shoot: i, ..m },
        ControlEntry::Skip => PlayerControllerButtonMap { skip: i, ..m },
        ControlEntry::Inventory => PlayerControllerButtonMap { inventory: i, ..m },
        ControlEntry::ShowMap => PlayerControllerButtonMap { map: i, ..m },
        ControlEntry::Strafe => PlayerControllerButtonMap { strafe: i, ..m },
        ControlEntry::MenuOk => PlayerControllerButtonMap { menu_ok: i, ..m },
        ControlEntry::MenuBack => PlayerControllerButtonMap { menu_back: i, ..m },
    }
}

/// Gamepad map `m` after binding control `c` to `i`, trading with the partner
/// as for keys.
pub open spec fn rebound_input(m: PlayerControllerButtonMap, c: ControlEntry, i: PlayerControllerInputType) -> (PlayerControllerButtonMap, bool) {
    match partner(c) {
        Some(p) => if input_of(m, p) == i {
            (with_input(with_input(m, p, input_of(m, c)), c, i), true)
        } else {
            (with_input(m, c, i), false)
        },
        None => (with_input(m, c, i), false),
    }
}

/// The order in which the rebind page lists the controls.
pub open spec fn menu_order() -> Seq<ControlEntry> {
    seq![
        ControlEntry::MenuOk,
        ControlEntry::MenuBack,
        ControlEntry::Up,
        ControlEntry::Down,
        ControlEntry::Left,
        ControlEntry::Right,
        ControlEntry::Jump,
        ControlEntry::Shoot,
        ControlEntry::PrevWeapon,
        ControlEntry::NextWeapon,
        ControlEntry::Inventory,
        ControlEntry::ShowMap,
        ControlEntry::Skip,
        ControlEntry::Strafe,
    ]
}

/// The rebind page's rows for a key map.
pub open spec fn key_rows(m: PlayerKeyMap) -> Seq<(ControlEntry, ScanCode)> {
    menu_order().map_values(|c: ControlEntry| (c, key_of(m, c)))
}

/// The rebind page's rows for a gamepad map.
pub open spec fn input_rows(m: PlayerControllerButtonMap) -> Seq<(ControlEntry, PlayerControllerInputType)> {
    menu_order().map_values(|c: ControlEntry| (c, input_of(m, c)))
}

/// The controls in the order of the rebind page.
fn menu_controls() -> (r: [ControlEntry; 14])
    ensures
        r@ == menu_order(),
{
    let r = [
        ControlEntry::MenuOk,
        ControlEntry::MenuBack,
        ControlEntry::Up,
        ControlEntry::Down,
        ControlEntry::Left,
        ControlEntry::Right,
        ControlEntry::Jump,
        ControlEntry::Shoot,
        ControlEntry::PrevWeapon,
        ControlEntry::NextWeapon,
        ControlEntry::Inventory,
        ControlEntry::ShowMap,
        ControlEntry::Skip,
        ControlEntry::Strafe,
    ];
    assert(r@ =~= menu_order());
    r
}

/// The key bound to control `c`.
pub fn key_for(m: &PlayerKeyMap, c: ControlEntry) -> (r: ScanCode)
    ensures
        r == key_of(*m, c),
{
    match c {
        ControlEntry::Left => m.left,
        ControlEntry::Up => m.up,
        ControlEntry::Right => m.right,
        ControlEntry::Down => m.down,
        ControlEntry::PrevWeapon => m.prev_weapon,
        ControlEntry::NextWeapon => m.next_weapon,
        ControlEntry::Jump => m.jump,
        ControlEntry::Shoot => m.shoot,
        ControlEntry::Skip => m.skip,
        ControlEntry::Inventory => m.inventory,
        ControlEntry::ShowMap => m.map,
        ControlEntry::Strafe => m.strafe,
        ControlEntry::MenuOk => m.menu_ok,
        ControlEntry::MenuBack => m.menu_back,
    }
}

/// The gamepad input bound to control `c`.
pub fn input_for(m: &PlayerControllerButtonMap, c: ControlEntry) -> (r: PlayerControllerInputType)
    ensures
        r == input_of(*m, c),
{
    match c {
        ControlEntry::Left => m.left,
        ControlEntry::Up => m.up,
        ControlEntry::Right => m.right,
        ControlEntry::Down => m.down,
        ControlEntry::PrevWeapon => m.prev_weapon,
        ControlEntry::NextWeapon => m.next_weapon,
        ControlEntry::Jump => m.jump,
        ControlEntry::Shoot => m.shoot,
        ControlEntry::Skip => m.skip,
        ControlEntry::Inventory => m.inventory,
        ControlEntry::ShowMap => m.map,
        ControlEntry::Strafe => m.strafe,
        ControlEntry::MenuOk => m.menu_ok,
        ControlEntry::MenuBack => m.menu_back,
    }
}

fn set_key_of(m: &mut PlayerKeyMap, c: ControlEntry, k: ScanCode)
    ensures
        *final(m) == with_key(*old(m), c, k),
{
    match c {
        ControlEntry::Left => m.left = k,
        ControlEntry::Up => m.up = k,
        ControlEntry::Right => m.right = k,
        ControlEntry::Down => m.down = k,
        ControlEntry::PrevWeapon => m.prev_weapon = k,
        ControlEntry::NextWeapon => m.next_weapon = k,
        ControlEntry::Jump => m.jump = k,
        ControlEntry::Shoot => m.shoot = k,
        ControlEntry::Skip => m.skip = k,
        ControlEntry::Inventory => m.inventory = k,
        ControlEntry::ShowMap => m.map = k,
        ControlEntry::Strafe => m.strafe = k,
        ControlEntry::MenuOk => m.menu_ok = k,
        ControlEntry::MenuBack => m.menu_back = k,
    }
}

fn set_input_of(m: &mut PlayerControllerButtonMap, c: ControlEntry, i: PlayerControllerInputType)
    ensures
        *final(m) == with_input(*old(m), c, i),
{
    match c {
        ControlEntry::Left => m.left = i,
        ControlEntry::Up => m.up = i,
        ControlEntry::Right => m.right = i,
        ControlEntry::Down => m.down = i,
        ControlEntry::PrevWeapon => m.prev_weapon = i,
        ControlEntry::NextWeapon => m.next_weapon = i,
        ControlEntry::Jump => m.jump = i,
        ControlEntry::Shoot => m.shoot = i,
        ControlEntry::Skip => m.skip = i,
        ControlEntry::Inventory => m.inventory = i,
        ControlEntry::ShowMap => m.map = i,
        ControlEntry::Strafe => m.strafe = i,
        ControlEntry::MenuOk => m.menu_ok = i,
        ControlEntry::MenuBack => m.menu_back = i,
    }
}

fn partner_of(c: ControlEntry) -> (r: Option<ControlEntry>)
    ensures
        r == partner(c),
{
    match c {
        ControlEntry::Jump => Some(ControlEntry::Shoot),
        ControlEntry::Shoot => Some(ControlEntry::Jump),
        ControlEntry::MenuOk => Some(ControlEntry::MenuBack),
        ControlEntry::MenuBack => Some(ControlEntry::MenuOk),
        _ => None,
    }
}

/// Binds control `c` of key map `m` to `k`, trading with its partner where
/// the partner held `k`; true when they traded.
pub fn rebind_key(m: &mut PlayerKeyMap, c: ControlEntry, k: ScanCode) -> (swapped: bool)
    ensures
        (*final(m), swapped) == rebound_key(*old(m), c, k),
{
    match partner_of(c) {
        Some(p) => {
            if key_for(m, p) == k {
                let previous = key_for(m, c);
                set_key_of(m, p, previous);
                set_key_of(m, c, k);
                true
            } else {
                set_key_of(m, c, k);
                false
            }
        },
        None => {
            set_key_of(m, c, k);
            false
        },
    }
}

/// Binds control `c` of gamepad map `m` to `i`, trading with its partner
/// where the partner held `i`; true when they traded.
pub fn rebind_input(m: &mut PlayerControllerButtonMap, c: ControlEntry, i: PlayerControllerInputType) -> (swapped: bool)
    ensures
        (*final(m), swapped) == rebound_input(*old(m), c, i),
{
    match partner_of(c) {
        Some(p) => {
            if input_for(m, p) == i {
                let previous = input_for(m, c);
                set_input_of(m, p, previous);
                set_input_of(m, c, i);
                true
            } else {
                set_input_of(m, c, i);
                false
            }
        },
        None => {
            set_input_of(m, c, i);
            false
        },
    }
}

/// The rebind page's rows for a key map.
pub fn init_key_map(m: &PlayerKeyMap) -> (r: Vec<(ControlEntry, ScanCode)>)
    ensures
        r@ == key_rows(*m),
{
    let order = menu_controls();
    let mut r: Vec<(ControlEntry, ScanCode)> = Vec::new();
    let mut i: usize = 0;
    while i < 14
        invariant
            i <= 14,
            order@ == menu_order(),
            r@ == key_rows(*m).subrange(0, i as int),
        decreases 14 - i,
    {
        let c = order[i];
        r.push((c, key_for(m, c)));
        assert(r@ =~= key_rows(*m).subrange(0, i + 1));
        i = i + 1;
    }
    assert(r@ =~= key_rows(*m));
    r
}

/// The rebind page's rows for a gamepad map.
pub fn init_controller_button_map(m: &PlayerControllerButtonMap) -> (r: Vec<(ControlEntry, PlayerControllerInputType)>)
    ensures
        r@ == input_rows(*m),
{
    let order = menu_controls();
    let mut r: Vec<(ControlEntry, PlayerControllerInputType)> = Vec::new();
    let mut i: usize = 0;
    while i < 14
        invariant
            i <= 14,
            order@ == menu_order(),
            r@ == input_rows(*m).subrange(0, i as int),
        decreases 14 - i,
    {
        let c = order[i];
        r.push((c, input_for(m, c)));
        assert(r@ =~= input_rows(*m).subrange(0, i + 1));
        i = i + 1;
    }
    assert(r@ =~= input_rows(*m));
    r
}

/// A stick direction or a direction pad button becomes the binding that
/// accepts both: the pad button and the stick direction.
pub open spec fn normalized(input: PlayerControllerInputType) -> PlayerControllerInputType {
    match input {
        PlayerControllerInputType::ButtonInput(Button::DPadUp) =>
            PlayerControllerInputType::Either(Button::DPadUp, Axis::LeftY, AxisDirection::Up),
        PlayerControllerInputType::ButtonInput(Button::DPadDown) =>
            PlayerControllerInputType::Either(Button::DPadDown, Axis::LeftY, AxisDirection::Down),
        PlayerControllerInputType::ButtonInput(Button::DPadLeft) =>
            PlayerControllerInputType::Either(Button::DPadLeft, Axis::LeftX, AxisDirection::Left),
        PlayerControllerInputType::ButtonInput(Button::DPadRight) =>
            PlayerControllerInputType::Either(Button::DPadRight, Axis::LeftX, AxisDirection::Right),
        PlayerControllerInputType::AxisInput(Axis::LeftY, AxisDirection::Up) =>
            PlayerControllerInputType::Either(Button::DPadUp, Axis::LeftY, AxisDirection::Up),
        PlayerControllerInputType::AxisInput(Axis::LeftY, AxisDirection::Down) =>
            PlayerControllerInputType::Either(Button::DPadDown, Axis::LeftY, AxisDirection::Down),
        PlayerControllerInputType::AxisInput(Axis::LeftX, AxisDirection::Left) =>
            PlayerControllerInputType::Either(Button::DPadLeft, Axis::LeftX, AxisDirection::Left),
        PlayerControllerInputType::AxisInput(Axis::LeftX, AxisDirection::Right) =>
            PlayerControllerInputType::Either(Button::DPadRight, Axis::LeftX, AxisDirection::Right),
        PlayerControllerInputType::AxisInput(Axis::RightY, AxisDirection::Up) =>
            PlayerControllerInputType::Either(Button::DPadUp, Axis::RightY, AxisDirection::Up),
        PlayerControllerInputType::AxisInput(Axis::RightY, AxisDirection::Down) =>
            PlayerControllerInputType::Either(Button::DPadDown, Axis::RightY, AxisDirection::Down),
        PlayerControllerInputType::AxisInput(Axis::RightX, AxisDirection::Left) =>
            PlayerControllerInputType::Either(Button::DPadLeft, Axis::RightX, AxisDirection::Left),
        PlayerControllerInputType::AxisInput(Axis::RightX, AxisDirection::Right) =>
            PlayerControllerInputType::Either(Button::DPadRight, Axis::RightX, AxisDirection::Right),
        _ => input,
    }
}

/// The binding stored for a gamepad input pressed while rebinding.
pub fn normalize_gamepad_input(input: PlayerControllerInputType) -> (r: PlayerControllerInputType)
    ensures
        r == normalized(input),
{
    match input {
        PlayerControllerInputType::ButtonInput(Button::DPadUp) =>
            PlayerControllerInputType::Either(Button::DPadUp, Axis::LeftY, AxisDirection::Up),
        PlayerControllerInputType::ButtonInput(Button::DPadDown) =>
            PlayerControllerInputType::Either(Button::DPadDown, Axis::LeftY, AxisDirection::Down),
        PlayerControllerInputType::ButtonInput(Button::DPadLeft) =>
            PlayerControllerInputType::Either(Button::DPadLeft, Axis::LeftX, AxisDirection::Left),
        PlayerControllerInputType::ButtonInput(Button::DPadRight) =>
            PlayerControllerInputType::Either(Button::DPadRight, Axis::LeftX, AxisDirection::Right),
        PlayerControllerInputType::AxisInput(Axis::LeftY, AxisDirection::Up) =>
            PlayerControllerInputType::Either(Button::DPadUp, Axis::LeftY, AxisDirection::Up),
        PlayerControllerInputType::AxisInput(Axis::LeftY, AxisDirection::Down) =>
            PlayerControllerInputType::Either(Button::DPadDown, Axis::LeftY, AxisDirection::Down),
        PlayerControllerInputType::AxisInput(Axis::LeftX, AxisDirection::Left) =>
            PlayerControllerInputType::Either(Button::DPadLeft, Axis::LeftX, AxisDirection::Left),
        PlayerControllerInputType::AxisInput(Axis::LeftX, AxisDirection::Right) =>
            PlayerControllerInputType::Either(Button::DPadRight, Axis::LeftX, AxisDirection::Right),
        PlayerControllerInputType::AxisInput(Axis::RightY, AxisDirection::Up) =>
            PlayerControllerInputType::Either(Button::DPadUp, Axis::RightY, AxisDirection::Up),
        PlayerControllerInputType::AxisInput(Axis::RightY, AxisDirection::Down) =>
            PlayerControllerInputType::Either(Button::DPadDown, Axis::RightY, AxisDirection::Down),
        PlayerControllerInputType::AxisInput(Axis::RightX, AxisDirection::Left) =>
            PlayerControllerInputType::Either(Button::DPadLeft, Axis::RightX, AxisDirection::Left),
        PlayerControllerInputType::AxisInput(Axis::RightX, AxisDirection::Right) =>
            PlayerControllerInputType::Either(Button::DPadRight, Axis::RightX, AxisDirection::Right),
        _ => input,
    }
}

/// Function keys are kept for the game itself and cannot be bound.
pub open spec fn forbidden_key(k: ScanCode) -> bool {
    ||| k == ScanCode::F1
    ||| k == ScanCode::F2
    ||| k == ScanCode::F3
    ||| k == ScanCode::F4
    ||| k == ScanCode::F5
    ||| k == ScanCode::F6
    ||| k == ScanCode::F7
    ||| k == ScanCode::F8
    ||| k == ScanCode::F9
    ||| k == ScanCode::F10
    ||| k == ScanCode::F11
    ||| k == ScanCode::F12
}

fn is_forbidden(k: ScanCode) -> (r: bool)
    ensures
        r == forbidden_key(k),
{
    match k {
        ScanCode::F1 | ScanCode::F2 | ScanCode::F3 | ScanCode::F4 | ScanCode::F5 | ScanCode::F6 | ScanCode::F7
        | ScanCode::F8 | ScanCode::F9 | ScanCode::F10 | ScanCode::F11 | ScanCode::F12 => true,
        _ => false,
    }
}

/// The controls menu's state: the page shown, the player and device whose
/// controls it shows, the control being rebound, and the rows of the rebind
/// page for both players' key and gamepad maps.
pub struct ControlsMenu {
    pub current: CurrentMenu,
    pub selected_player: MenuPlayer,
    pub selected_controller: ControllerType,
    pub selected_control: Option<ControlEntry>,
    pub player1_key_map: Vec<(ControlEntry, ScanCode)>,
    pub player2_key_map: Vec<(ControlEntry, ScanCode)>,
    pub player1_controller_button_map: Vec<(ControlEntry, PlayerControllerInputType)>,
    pub player2_controller_button_map: Vec<(ControlEntry, PlayerControllerInputType)>,
    /// Input is held since the last action; nothing new is taken until it is released.
    pub input_busy: bool,
    /// The entries of the main page, in order.
    pub main_entries: Vec<MainMenuEntry>,
}

/// The rows of the selected player's keys.
pub open spec fn selected_key_rows(menu: ControlsMenu) -> Seq<(ControlEntry, ScanCode)> {
    match menu.selected_player {
        MenuPlayer::Player1 => menu.player1_key_map@,
        MenuPlayer::Player2 => menu.player2_key_map@,
    }
}

/// The rows of the selected player's gamepad bindings.
pub open spec fn selected_input_rows(menu: ControlsMenu) -> Seq<(ControlEntry, PlayerControllerInputType)> {
    match menu.selected_player {
        MenuPlayer::Player1 => menu.player1_controller_button_map@,
        MenuPlayer::Player2 => menu.player2_controller_button_map@,
    }
}

/// The rows of the other player's keys.
pub open spec fn other_key_rows(menu: ControlsMenu) -> Seq<(ControlEntry, ScanCode)> {
    match menu.selected_player {
        MenuPlayer::Player1 => menu.player2_key_map@,
        MenuPlayer::Player2 => menu.player1_key_map@,
    }
}

/// The menu's rows show the maps of settings `s`.
pub open spec fn mirrors(menu: ControlsMenu, s: Settings) -> bool {
    &&& menu.player1_key_map@ == key_rows(s.player1_key_map)
    &&& menu.player2_key_map@ == key_rows(s.player2_key_map)
    &&& menu.player1_controller_button_map@ == input_rows(s.player1_controller_button_map)
    &&& menu.player2_controller_button_map@ == input_rows(s.player2_controller_button_map)
}

/// The other player uses key `k`.
pub open spec fn key_taken(menu: ControlsMenu, k: ScanCode) -> bool {
    exists|j: int| 0 <= j < other_key_rows(menu).len() && #[trigger] other_key_rows(menu)[j].1 == k
}

/// The device a player uses now: for player one with automatic switching,
/// the pad used last (other than player two's) or else the keyboard.
pub open spec fn device_of(player: MenuPlayer, s: Settings, slots: Seq<Option<PadView>>, p1: Option<u32>) -> ControllerType {
    match player {
        MenuPlayer::Player1 => if s.auto_controller_switching {
            match p1 {
                Some(i) => ControllerType::Gamepad(i),
                None => ControllerType::Keyboard,
            }
        } else {
            s.player1_controller_type
        },
        MenuPlayer::Player2 => s.player2_controller_type,
    }
}

/// A choice on the controller page.
#[derive(Clone, Copy, Debug, PartialEq, Eq, Structural)]
pub enum SelectControllerMenuEntry {
    Automatic,
    Keyboard,
    Gamepad(usize),
    Back,
}

/// The other player's device, whose pad the selected player may not pick:
/// none for player two while player one switches automatically.
pub open spec fn other_device(player: MenuPlayer, s: Settings) -> ControllerType {
    match player {
        MenuPlayer::Player1 => s.player2_controller_type,
        MenuPlayer::Player2 => if s.auto_controller_switching {
            ControllerType::Keyboard
        } else {
            s.player1_controller_type
        },
    }
}

/// The pads of slots `0..n` that the controller page offers, in slot order.
pub open spec fn offered_pads(player: MenuPlayer, s: Settings, slots: Seq<Option<PadView>>, n: int) -> Seq<SelectControllerMenuEntry>
    decreases n,
{
    if n <= 0 {
        Seq::empty()
    } else {
        let rest = offered_pads(player, s, slots, n - 1);
        let i = n - 1;
        if slots[i] is Some && other_device(player, s) != ControllerType::Gamepad(i as u32) {
            rest.push(SelectControllerMenuEntry::Gamepad(i as usize))
        } else {
            rest
        }
    }
}

/// The controller page: automatic switching (player one only), the
/// keyboard, each connected pad the other player does not use, and back.
pub open spec fn controller_page(player: MenuPlayer, s: Settings, slots: Seq<Option<PadView>>) -> Seq<SelectControllerMenuEntry> {
    (if player == MenuPlayer::Player1 { seq![SelectControllerMenuEntry::Automatic] } else { Seq::empty() })
        + seq![SelectControllerMenuEntry::Keyboard]
        + offered_pads(player, s, slots, slots.len() as int)
        + seq![SelectControllerMenuEntry::Back]
}

/// The outcome of a press while the menu waits for a new binding.
#[derive(Clone, Copy, Debug, PartialEq, Eq, Structural)]
pub enum RebindOutcome {
    /// Rebinding was cancelled; back to the rebind page.
    Cancelled,
    /// The input cannot be used; the menu plays the error sound.
    Refused,
    /// The control was rebound and the settings must be saved.
    Bound,
    /// Nothing to do yet.
    Waiting,
}

/// Whether `keys` holds `key`.
fn has_key(keys: &Vec<ScanCode>, key: ScanCode) -> (r: bool)
    ensures
        r == keys@.contains(key),
{
    let mut j: usize = 0;
    while j < keys.len()
        invariant
            j <= keys@.len(),
            forall|k: int| 0 <= k < j ==> keys@[k] != key,
        decreases keys@.len() - j,
    {
        if keys[j] == key {
            assert(keys@[j as int] == key);
            return true;
        }
        j = j + 1;
    }
    false
}

impl ControlsMenu {
    /// The menu on its main page, for player one's keyboard.
    pub fn new() -> (r: ControlsMenu)
        ensures
            r.current == CurrentMenu::MainMenu,
            r.selected_player == MenuPlayer::Player1,
            r.selected_controller == ControllerType::Keyboard,
            r.selected_control is None,
            r.player1_key_map@.len() == 0,
            r.player2_key_map@.len() == 0,
            r.player1_controller_button_map@.len() == 0,
            r.player2_controller_button_map@.len() == 0,
            !r.input_busy,
            r.main_entries@.len() == 0,
    {
        ControlsMenu {
            current: CurrentMenu::MainMenu,
            selected_player: MenuPlayer::Player1,
            selected_controller: ControllerType::Keyboard,
            selected_control: None,
            player1_key_map: Vec::new(),
            player2_key_map: Vec::new(),
            player1_controller_button_map: Vec::new(),
            player2_controller_button_map: Vec::new(),
            input_busy: false,
            main_entries: Vec::new(),
        }
    }

    /// Fills the rows of the rebind page from the settings.
    pub fn init(&mut self, settings: &Settings, two_player_support: bool, android: bool)
        ensures
            mirrors(*final(self), *settings),
            final(self).main_entries@ == main_page(two_player_support, settings.touch_controls, android),
            final(self).current == old(self).current,
            final(self).selected_player == old(self).selected_player,
            final(self).selected_controller == old(self).selected_controller,
            final(self).selected_control == old(self).selected_control,
            final(self).input_busy == old(self).input_busy,
    {
        self.player1_key_map = init_key_map(&settings.player1_key_map);
        self.player2_key_map = init_key_map(&settings.player2_key_map);
        self.player1_controller_button_map = init_controller_button_map(&settings.player1_controller_button_map);
        self.player2_controller_button_map = init_controller_button_map(&settings.player2_controller_button_map);
        self.main_entries = main_entries(two_player_support, settings.touch_controls, android);
    }

    /// Whether the other player already uses key `scan_code`.
    pub fn is_key_occupied(&self, scan_code: ScanCode) -> (r: bool)
        ensures
            r == key_taken(*self, scan_code),
    {
        let rows = match self.selected_player {
            MenuPlayer::Player1 => &self.player2_key_map,
            MenuPlayer::Player2 => &self.player1_key_map,
        };
        assert(rows@ == other_key_rows(*self));
        let mut j: usize = 0;
        while j < rows.len()
            invariant
                j <= rows@.len(),
                rows@ == other_key_rows(*self),
                forall|k: int| 0 <= k < j ==> rows@[k].1 != scan_code,
            decreases rows@.len() - j,
        {
            if rows[j].1 == scan_code {
                assert(other_key_rows(*self)[j as int].1 == scan_code);
                return true;
            }
            j = j + 1;
        }
        false
    }

    /// Binds the control being rebound to key `scan_code` in `key_map`, the
    /// selected player's key map of the settings, and updates the rows; true
    /// when the settings changed (a control was being rebound).
    pub fn set_key(&mut self, key_map: &mut PlayerKeyMap, scan_code: ScanCode) -> (changed: bool)
        requires
            selected_key_rows(*old(self)) == key_rows(*old(key_map)),
        ensures
            changed == old(self).selected_control is Some,
            *final(key_map) == match old(self).selected_control {
                Some(c) => rebound_key(*old(key_map), c, scan_code).0,
                None => *old(key_map),
            },
            selected_key_rows(*final(self)) == key_rows(*final(key_map)),
            final(self).selected_player == old(self).selected_player,
            final(self).selected_control == old(self).selected_control,
            final(self).selected_controller == old(self).selected_controller,
            final(self).current == old(self).current,
            final(self).input_busy == old(self).input_busy,
            final(self).player1_controller_button_map@ == old(self).player1_controller_button_map@,
            final(self).player2_controller_button_map@ == old(self).player2_controller_button_map@,
            old(self).selected_player == MenuPlayer::Player1 ==> final(self).player2_key_map@ == old(self).player2_key_map@,
            old(self).selected_player == MenuPlayer::Player2 ==> final(self).player1_key_map@ == old(self).player1_key_map@,
    {
        let control = match self.selected_control {
            Some(c) => c,
            None => {
                return false;
            },
        };
        rebind_key(key_map, control, scan_code);
        let rows = init_key_map(key_map);
        match self.selected_player {
            MenuPlayer::Player1 => {
                self.player1_key_map = rows;
            },
            MenuPlayer::Player2 => {
                self.player2_key_map = rows;
            },
        }
        true
    }

    /// Binds the control being rebound to gamepad input `input` in
    /// `button_map`, the selected player's gamepad map of the settings, and
    /// updates the rows; true when the settings changed.
    pub fn set_controller_input(&mut self, button_map: &mut PlayerControllerButtonMap, input: PlayerControllerInputType) -> (changed: bool)
        requires
            selected_input_rows(*old(self)) == input_rows(*old(button_map)),
        ensures
            changed == old(self).selected_control is Some,
            *final(button_map) == match old(self).selected_control {
                Some(c) => rebound_input(*old(button_map), c, input).0,
                None => *old(button_map),
            },
            selected_input_rows(*final(self)) == input_rows(*final(button_map)),
            final(self).selected_player == old(self).selected_player,
            final(self).selected_control == old(self).selected_control,
            final(self).selected_controller == old(self).selected_controller,
            final(self).current == old(self).current,
            final(self).input_busy == old(self).input_busy,
            final(self).player1_key_map@ == old(self).player1_key_map@,
            final(self).player2_key_map@ == old(self).player2_key_map@,
            old(self).selected_player == MenuPlayer::Player1
                ==> final(self).player2_controller_button_map@ == old(self).player2_controller_button_map@,
            old(self).selected_player == MenuPlayer::Player2
                ==> final(self).player1_controller_button_map@ == old(self).player1_controller_button_map@,
    {
        let control = match self.selected_control {
            Some(c) => c,
            None => {
                return false;
            },
        };
        rebind_input(button_map, control, input);
        let rows = init_controller_button_map(button_map);
        match self.selected_player {
            MenuPlayer::Player1 => {
                self.player1_controller_button_map = rows;
            },
            MenuPlayer::Player2 => {
                self.player2_controller_button_map = rows;
            },
        }
        true
    }

    /// Restores the selected player's default keys (while the keyboard is
    /// selected) or default gamepad layout, in the settings and the rows.
    pub fn reset_controls(&mut self, key_map: &mut PlayerKeyMap, button_map: &mut PlayerControllerButtonMap)
        ensures
            old(self).selected_controller == ControllerType::Keyboard ==> {
                &&& *final(key_map) == match old(self).selected_player {
                    MenuPlayer::Player1 => p1_keymap(),
                    MenuPlayer::Player2 => p2_keymap(),
                }
                &&& *final(button_map) == *old(button_map)
                &&& selected_key_rows(*final(self)) == key_rows(*final(key_map))
                &&& selected_input_rows(*final(self)) == selected_input_rows(*old(self))
            },
            old(self).selected_controller != ControllerType::Keyboard ==> {
                &&& *final(key_map) == *old(key_map)
                &&& *final(button_map) == default_map()
                &&& selected_input_rows(*final(self)) == input_rows(*final(button_map))
                &&& selected_key_rows(*final(self)) == selected_key_rows(*old(self))
            },
            final(self).selected_player == old(self).selected_player,
            final(self).selected_control == old(self).selected_control,
            final(self).selected_controller == old(self).selected_controller,
            final(self).current == old(self).current,
            final(self).input_busy == old(self).input_busy,
    {
        if self.selected_controller == ControllerType::Keyboard {
            match self.selected_player {
                MenuPlayer::Player1 => {
                    *key_map = p1_default_keymap();
                    self.player1_key_map = init_key_map(key_map);
                },
                MenuPlayer::Player2 => {
                    *key_map = p2_default_keymap();
                    self.player2_key_map = init_key_map(key_map);
                },
            }
        } else {
            *button_map = player_default_controller_button_map();
            match self.selected_player {
                MenuPlayer::Player1 => {
                    self.player1_controller_button_map = init_controller_button_map(button_map);
                },
                MenuPlayer::Player2 => {
                    self.player2_controller_button_map = init_controller_button_map(button_map);
                },
            }
        }
    }

    /// A key press while the menu waits for a new key: Escape or a touch
    /// cancels; a single new key is bound unless the other player uses it,
    /// it is a function key, or the device is not the keyboard.
    pub fn confirm_rebind_key(&mut self, key_map: &mut PlayerKeyMap, pressed_keys: &Vec<ScanCode>, touched: bool) -> (r: RebindOutcome)
        requires
            selected_key_rows(*old(self)) == key_rows(*old(key_map)),
            old(self).selected_control is Some,
        ensures
            selected_key_rows(*final(self)) == key_rows(*final(key_map)),
            final(self).selected_player == old(self).selected_player,
            (touched || pressed_keys@.contains(ScanCode::Escape)) ==> {
                &&& r == RebindOutcome::Cancelled
                &&& final(self).current == CurrentMenu::RebindMenu
                &&& *final(key_map) == *old(key_map)
            },
            !(touched || pressed_keys@.contains(ScanCode::Escape)) && (pressed_keys@.len() != 1 || old(self).input_busy) ==> {
                &&& r == RebindOutcome::Waiting
                &&& *final(key_map) == *old(key_map)
                &&& final(self).current == old(self).current
            },
            r == RebindOutcome::Refused ==> *final(key_map) == *old(key_map) && final(self).input_busy,
            !(touched || pressed_keys@.contains(ScanCode::Escape)) && pressed_keys@.len() == 1 && !old(self).input_busy
                ==> {
                let k = pressed_keys@[0];
                let refused = key_taken(*old(self), k) || forbidden_key(k) || old(self).selected_controller
                    != ControllerType::Keyboard;
                &&& final(self).input_busy
                &&& refused ==> r == RebindOutcome::Refused && final(self).current == old(self).current
                &&& !refused ==> r == RebindOutcome::Bound
            },
            r == RebindOutcome::Bound ==> {
                let k = pressed_keys@[0];
                &&& pressed_keys@.len() == 1
                &&& !old(self).input_busy
                &&& !forbidden_key(k)
                &&& old(self).selected_controller == ControllerType::Keyboard
                &&& *final(key_map) == rebound_key(*old(key_map), old(self).selected_control->0, k).0
                &&& final(self).selected_control is None
                &&& final(self).current == CurrentMenu::RebindMenu
                &&& final(self).input_busy
            },
    {
        if touched || has_key(pressed_keys, ScanCode::Escape) {
            self.current = CurrentMenu::RebindMenu;
            return RebindOutcome::Cancelled;
        }
        if pressed_keys.len() != 1 || self.input_busy {
            return RebindOutcome::Waiting;
        }
        self.input_busy = true;
        let key = pressed_keys[0];
        assert(other_key_rows(*self) == other_key_rows(*old(self)));
        let taken = self.is_key_occupied(key);
        assert(taken == key_taken(*old(self), key));
        if taken || is_forbidden(key) || self.selected_controller != ControllerType::Keyboard {
            return RebindOutcome::Refused;
        }
        self.set_key(key_map, key);
        self.selected_control = None;
        self.current = CurrentMenu::RebindMenu;
        RebindOutcome::Bound
    }
}

/// The next gamepad layout when stepping by `direction` through the presets
/// and, where one is saved or in use, the custom layout.
pub open spec fn next_layout(current: int, has_custom: bool, direction: int) -> int {
    let count = if has_custom || current == 2 { 3int } else { 2int };
    (current + direction) % count
}

/// The layout the layout option moves to.
pub fn step_layout(current: usize, has_custom: bool, direction: i8) -> (r: usize)
    requires
        current <= 2,
    ensures
        r == next_layout(current as int, has_custom, direction as int),
        r <= 2,
{
    let count: u32 = if has_custom || current == 2 { 3 } else { 2 };
    let shifted: u32 = (current as i32 + direction as i32 + 768) as u32;
    let r = shifted % count;
    proof {
        let sum = current as int + direction as int;
        if count == 2 {
            assert((sum + 768) % 2 == sum % 2);
        } else {
            assert((sum + 768) % 3 == sum % 3);
        }
    }
    r as usize
}

impl MenuPlayer {
    /// The device this player uses now.
    pub fn controller_type(self, settings: &Settings, pads: &GamepadContext) -> (r: ControllerType)
        requires
            pads@.len() <= u32::MAX,
        ensures
            self == MenuPlayer::Player1 ==> exists|p1: Option<u32>| #[trigger] player1_pad(*settings, pads@, p1)
                && r == device_of(self, *settings, pads@, p1),
            self == MenuPlayer::Player2 ==> r == settings.player2_controller_type,
    {
        match self {
            MenuPlayer::Player1 => {
                if settings.auto_controller_switching {
                    match settings.player1_gamepad_index(pads) {
                        Some(index) => ControllerType::Gamepad(index),
                        None => ControllerType::Keyboard,
                    }
                } else {
                    proof {
                        let q = match settings.player1_controller_type {
                            ControllerType::Gamepad(i) => if present(pads@, i as int) { Some(i) } else { None },
                            ControllerType::Keyboard => None,
                        };
                        assert(player1_pad(*settings, pads@, q));
                    }
                    settings.player1_controller_type
                }
            },
            MenuPlayer::Player2 => settings.player2_controller_type,
        }
    }
}

/// The choices of the controller page for `player`.
pub fn controller_choices(player: MenuPlayer, settings: &Settings, pads: &GamepadContext) -> (r: Vec<SelectControllerMenuEntry>)
    requires
        pads@.len() <= u32::MAX,
    ensures
        r@ == controller_page(player, *settings, pads@),
{
    let mut r: Vec<SelectControllerMenuEntry> = Vec::new();
    if player == MenuPlayer::Player1 {
        r.push(SelectControllerMenuEntry::Automatic);
    }
    r.push(SelectControllerMenuEntry::Keyboard);
    let ghost head = r@;
    let other = match player {
        MenuPlayer::Player1 => settings.player2_controller_type,
        MenuPlayer::Player2 => if settings.auto_controller_switching {
            ControllerType::Keyboard
        } else {
            settings.player1_controller_type
        },
    };
    let n = pads.slot_count();
    let mut i: usize = 0;
    while i < n
        invariant
            i <= n == pads@.len() <= u32::MAX,
            other == other_device(player, *settings),
            r@ == head + offered_pads(player, *settings, pads@, i as int),
        decreases n - i,
    {
        if pads.instance_id(i as u32).is_some() && other != ControllerType::Gamepad(i as u32) {
            r.push(SelectControllerMenuEntry::Gamepad(i));
        }
        i = i + 1;
    }
    r.push(SelectControllerMenuEntry::Back);
    assert(r@ =~= controller_page(player, *settings, pads@));
    r
}

/// Whether `buttons` holds `button`.
fn has_button(buttons: &Vec<Button>, button: Button) -> (r: bool)
    ensures
        r == buttons@.contains(button),
{
    let mut j: usize = 0;
    while j < buttons.len()
        invariant
            j <= buttons@.len(),
            forall|k: int| 0 <= k < j ==> buttons@[k] != button,
        decreases buttons@.len() - j,
    {
        if buttons[j] == button {
            assert(buttons@[j as int] == button);
            return true;
        }
        j = j + 1;
    }
    false
}

impl ControlsMenu {
    /// Input while the menu waits for a new gamepad binding: a touch, Escape
    /// or Start cancels; a single new button, or else a single pushed axis
    /// (given with its direction), is bound (stick directions and the pad
    /// buttons bound together) unless the player now uses another device;
    /// with nothing held the menu takes input again.
    pub fn confirm_rebind_gamepad(
        &mut self,
        button_map: &mut PlayerControllerButtonMap,
        pressed_keys: &Vec<ScanCode>,
        buttons: &Vec<Button>,
        axes: &Vec<(Axis, AxisDirection)>,
        device: ControllerType,
        touched: bool,
    ) -> (r: RebindOutcome)
        requires
            selected_input_rows(*old(self)) == input_rows(*old(button_map)),
        ensures
            selected_input_rows(*final(self)) == input_rows(*final(button_map)),
            final(self).selected_player == old(self).selected_player,
            (touched || pressed_keys@.contains(ScanCode::Escape) || buttons@.contains(Button::Start)) ==> {
                &&& r == RebindOutcome::Cancelled
                &&& final(self).current == CurrentMenu::RebindMenu
                &&& *final(button_map) == *old(button_map)
            },
            r == RebindOutcome::Refused ==> *final(button_map) == *old(button_map) && final(self).input_busy,
            !(touched || pressed_keys@.contains(ScanCode::Escape) || buttons@.contains(Button::Start)) ==> {
                let by_button = buttons@.len() == 1 && !old(self).input_busy;
                let by_axis = !by_button && axes@.len() == 1 && !old(self).input_busy;
                &&& (by_button || by_axis) ==> r == if device != old(self).selected_controller {
                    RebindOutcome::Refused
                } else if old(self).selected_control is Some {
                    RebindOutcome::Bound
                } else {
                    RebindOutcome::Waiting
                }
                &&& !(by_button || by_axis) ==> r == RebindOutcome::Waiting
                &&& final(self).input_busy == ((old(self).input_busy || by_button || by_axis) && !(pressed_keys@.len()
                    == 0 && buttons@.len() == 0 && axes@.len() == 0))
            },
            r == RebindOutcome::Bound ==> {
                &&& !old(self).input_busy
                &&& device == old(self).selected_controller
                &&& old(self).selected_control is Some
                &&& (buttons@.len() == 1 ==> *final(button_map) == rebound_input(
                    *old(button_map),
                    old(self).selected_control->0,
                    normalized(PlayerControllerInputType::ButtonInput(buttons@[0])),
                ).0)
                &&& (buttons@.len() != 1 ==> axes@.len() == 1 && *final(button_map) == rebound_input(
                    *old(button_map),
                    old(self).selected_control->0,
                    normalized(PlayerControllerInputType::AxisInput(axes@[0].0, axes@[0].1)),
                ).0)
                &&& final(self).selected_control is None
                &&& final(self).current == CurrentMenu::RebindMenu
            },
            r == RebindOutcome::Waiting ==> *final(button_map) == *old(button_map),
    {
        if touched || has_key(pressed_keys, ScanCode::Escape) || has_button(buttons, Button::Start) {
            self.current = CurrentMenu::RebindMenu;
            return RebindOutcome::Cancelled;
        }
        let mut outcome = RebindOutcome::Waiting;
        if buttons.len() == 1 && !self.input_busy {
            self.input_busy = true;
            if device != self.selected_controller {
                outcome = RebindOutcome::Refused;
            } else {
                let input = normalize_gamepad_input(PlayerControllerInputType::ButtonInput(buttons[0]));
                if self.set_controller_input(button_map, input) {
                    self.selected_control = None;
                    self.current = CurrentMenu::RebindMenu;
                    outcome = RebindOutcome::Bound;
                }
            }
        }
        if axes.len() == 1 && !self.input_busy {
            self.input_busy = true;
            if device != self.selected_controller {
                outcome = RebindOutcome::Refused;
            } else {
                let (axis, direction) = axes[0];
                let input = normalize_gamepad_input(PlayerControllerInputType::AxisInput(axis, direction));
                if self.set_controller_input(button_map, input) {
                    self.selected_control = None;
                    self.current = CurrentMenu::RebindMenu;
                    outcome = RebindOutcome::Bound;
                }
            }
        }
        if pressed_keys.len() == 0 && buttons.len() == 0 && axes.len() == 0 {
            self.input_busy = false;
        }
        outcome
    }
}

/// Rebinding never gives a control and its partner the same key where they
/// had different keys before.
pub proof fn law_rebinding_keeps_partners_apart(m: PlayerKeyMap, c: ControlEntry, k: ScanCode)
    requires
        partner(c) is Some,
        key_of(m, c) != key_of(m, partner(c)->0),
    ensures
        key_of(rebound_key(m, c, k).0, c) == k,
        key_of(rebound_key(m, c, k).0, c) != key_of(rebound_key(m, c, k).0, partner(c)->0),
{
}

/// Rebinding a gamepad control with a partner (jump and shoot, menu confirm
/// and cancel) whose input differs from its own: the control takes the new
/// input; where the partner held that input the two trade places (the
/// partner takes the control's old input, and the swap is reported);
/// otherwise the partner keeps its input. The two never share an input, and
/// every other control keeps its own.
pub proof fn law_rebinding_input_trades_with_partner(m: PlayerControllerButtonMap, c: ControlEntry, i: PlayerControllerInputType)
    requires
        partner(c) is Some,
        input_of(m, c) != input_of(m, partner(c)->0),
    ensures
        ({
            let p = partner(c)->0;
            let (r, swapped) = rebound_input(m, c, i);
            &&& input_of(r, c) == i
            &&& input_of(r, c) != input_of(r, p)
            &&& input_of(m, p) == i ==> input_of(r, p) == input_of(m, c) && swapped
            &&& input_of(m, p) != i ==> input_of(r, p) == input_of(m, p) && !swapped
            &&& forall|q: ControlEntry| q != c && q != p ==> #[trigger] input_of(r, q) == input_of(m, q)
        }),
{
}

/// The same for keys: the control takes the new key, trading places with
/// its partner where the partner held it, and every other control keeps its
/// key.
pub proof fn law_rebinding_key_trades_with_partner(m: PlayerKeyMap, c: ControlEntry, k: ScanCode)
    requires
        partner(c) is Some,
        key_of(m, c) != key_of(m, partner(c)->0),
    ensures
        ({
            let p = partner(c)->0;
            let (r, swapped) = rebound_key(m, c, k);
            &&& key_of(r, c) == k
            &&& key_of(m, p) == k ==> key_of(r, p) == key_of(m, c) && swapped
            &&& key_of(m, p) != k ==> key_of(r, p) == key_of(m, p) && !swapped
            &&& forall|q: ControlEntry| q != c && q != p ==> #[trigger] key_of(r, q) == key_of(m, q)
        }),
{
}

/// Rebinding a control to the key it already has changes nothing.
pub proof fn law_rebinding_same_key_is_no_change(m: PlayerKeyMap, c: ControlEntry)
    requires
        partner(c) is None || key_of(m, c) != key_of(m, partner(c)->0),
    ensures
        rebound_key(m, c, key_of(m, c)).0 == m,
        !rebound_key(m, c, key_of(m, c)).1,
{
}

/// What the controls menu shows for the selected player's device: the
/// choices of the controller page and the one selected, and the rumble
/// switch and rumble scheme (0 original, 1 enhanced) where they are shown.
pub struct ControllerOptions {
    pub choices: Vec<SelectControllerMenuEntry>,
    pub selected: SelectControllerMenuEntry,
    pub rumble: Option<bool>,
    pub rumble_mode: Option<u8>,
}

/// The device the menu shows for `device`: a pad that is not connected shows
/// as the keyboard.
pub open spec fn shown_device(device: ControllerType, slots: Seq<Option<PadView>>) -> ControllerType {
    match device {
        ControllerType::Gamepad(i) => if present(slots, i as int) {
            device
        } else {
            ControllerType::Keyboard
        },
        ControllerType::Keyboard => ControllerType::Keyboard,
    }
}

/// The rumble scheme's place among the menu's options.
pub open spec fn mode_index(mode: RumbleMode) -> u8 {
    if mode == RumbleMode::Original {
        0
    } else {
        1
    }
}

/// The controller-page choice that stands for `shown`, automatic switching
/// for player one where it is on.
pub open spec fn selected_choice(player: MenuPlayer, s: Settings, shown: ControllerType) -> SelectControllerMenuEntry {
    if player == MenuPlayer::Player1 && s.auto_controller_switching {
        SelectControllerMenuEntry::Automatic
    } else {
        match shown {
            ControllerType::Keyboard => SelectControllerMenuEntry::Keyboard,
            ControllerType::Gamepad(i) => SelectControllerMenuEntry::Gamepad(i as usize),
        }
    }
}

impl ControlsMenu {
    /// Refreshes the device shown for the selected player, and says what the
    /// controller page and the rumble entries show.
    pub fn update_controller_options(&mut self, settings: &Settings, pads: &GamepadContext) -> (r: ControllerOptions)
        requires
            pads@.len() <= u32::MAX,
        ensures
            r.choices@ == controller_page(old(self).selected_player, *settings, pads@),
            old(self).selected_player == MenuPlayer::Player2 ==> final(self).selected_controller == shown_device(
                settings.player2_controller_type,
                pads@,
            ),
            old(self).selected_player == MenuPlayer::Player1 ==> exists|p1: Option<u32>|
                #[trigger] player1_pad(*settings, pads@, p1) && final(self).selected_controller == shown_device(
                    device_of(MenuPlayer::Player1, *settings, pads@, p1),
                    pads@,
                ),
            r.selected == selected_choice(old(self).selected_player, *settings, final(self).selected_controller),
            r.rumble == if final(self).selected_controller is Gamepad {
                Some(
                    if old(self).selected_player == MenuPlayer::Player1 {
                        settings.player1_rumble
                    } else {
                        settings.player2_rumble
                    },
                )
            } else {
                None
            },
            r.rumble_mode == if final(self).selected_controller is Gamepad {
                Some(
                    mode_index(
                        if old(self).selected_player == MenuPlayer::Player1 {
                            settings.player1_rumble_mode
                        } else {
                            settings.player2_rumble_mode
                        },
                    ),
                )
            } else {
                None
            },
            final(self).selected_player == old(self).selected_player,
            final(self).current == old(self).current,
            final(self).selected_control == old(self).selected_control,
            final(self).input_busy == old(self).input_busy,
            final(self).player1_key_map@ == old(self).player1_key_map@,
            final(self).player2_key_map@ == old(self).player2_key_map@,
            final(self).player1_controller_button_map@ == old(self).player1_controller_button_map@,
            final(self).player2_controller_button_map@ == old(self).player2_controller_button_map@,
    {
        let player = self.selected_player;
        let choices = controller_choices(player, settings, pads);
        let device = player.controller_type(settings, pads);
        let (rumble, mode) = match player {
            MenuPlayer::Player1 => (settings.player1_rumble, settings.player1_rumble_mode),
            MenuPlayer::Player2 => (settings.player2_rumble, settings.player2_rumble_mode),
        };
        let shown = match device {
            ControllerType::Gamepad(index) => if pads.instance_id(index).is_none() {
                ControllerType::Keyboard
            } else {
                device
            },
            ControllerType::Keyboard => ControllerType::Keyboard,
        };
        self.selected_controller = shown;
        let (rumble_entry, mode_entry) = match shown {
            ControllerType::Gamepad(_) => (Some(rumble), Some(if mode == RumbleMode::Original { 0u8 } else { 1u8 })),
            ControllerType::Keyboard => (None, None),
        };
        let selected = if player == MenuPlayer::Player1 && settings.auto_controller_switching {
            SelectControllerMenuEntry::Automatic
        } else {
            match shown {
                ControllerType::Keyboard => SelectControllerMenuEntry::Keyboard,
                ControllerType::Gamepad(index) => SelectControllerMenuEntry::Gamepad(index as usize),
            }
        };
        ControllerOptions { choices, selected, rumble: rumble_entry, rumble_mode: mode_entry }
    }
}

/// What the caller does after a choice in the menu: save the settings,
/// rebuild the menu's own input from them, leave the menu, play a test
/// rumble on a pad, or count the choice as touch activity.
#[derive(Clone, Copy, Debug, PartialEq, Eq, Structural)]
pub struct MenuAction {
    pub save: bool,
    pub rebuild_input: bool,
    pub exit: bool,
    pub rumble_test: Option<u32>,
    pub touch_activity: bool,
}

/// Nothing to do.
pub open spec fn no_action() -> MenuAction {
    MenuAction { save: false, rebuild_input: false, exit: false, rumble_test: None, touch_activity: false }
}

fn nothing() -> (r: MenuAction)
    ensures
        r == no_action(),
{
    MenuAction { save: false, rebuild_input: false, exit: false, rumble_test: None, touch_activity: false }
}

/// A choice on the rebind page.
#[derive(Clone, Copy, Debug, PartialEq, Eq, Structural)]
pub enum RebindMenuEntry {
    Control(ControlEntry),
    Reset,
    Back,
}

/// A choice on the page confirming a reset.
#[derive(Clone, Copy, Debug, PartialEq, Eq, Structural)]
pub enum ConfirmResetMenuEntry {
    Yes,
    No,
}

/// The same menu apart from its page, device, control and input state.
pub open spec fn same_rows(a: ControlsMenu, b: ControlsMenu) -> bool {
    &&& a.selected_player == b.selected_player
    &&& a.player1_key_map@ == b.player1_key_map@
    &&& a.player2_key_map@ == b.player2_key_map@
    &&& a.player1_controller_button_map@ == b.player1_controller_button_map@
    &&& a.player2_controller_button_map@ == b.player2_controller_button_map@
}

impl ControlsMenu {
    /// A choice on the controller page: automatic switching (player one), the
    /// keyboard or a pad becomes the player's device (held in the settings'
    /// `auto_switching`, `player1_type` and `player2_type`), and the menu
    /// returns to its main page with its input rebuilt; back just returns.
    pub fn controller_menu_choice(
        &mut self,
        choice: SelectControllerMenuEntry,
        auto_switching: &mut bool,
        player1_type: &mut ControllerType,
        player2_type: &mut ControllerType,
    ) -> (r: MenuAction)
        ensures
            same_rows(*old(self), *final(self)),
            final(self).current == CurrentMenu::MainMenu,
            final(self).selected_control == old(self).selected_control,
            choice == SelectControllerMenuEntry::Back ==> {
                &&& r == no_action()
                &&& *final(auto_switching) == *old(auto_switching)
                &&& *final(player1_type) == *old(player1_type)
                &&& *final(player2_type) == *old(player2_type)
                &&& final(self).selected_controller == old(self).selected_controller
                &&& final(self).input_busy == old(self).input_busy
            },
            choice == SelectControllerMenuEntry::Automatic ==> {
                &&& r == (MenuAction { save: true, rebuild_input: true, ..no_action() })
                &&& *final(auto_switching)
                &&& *final(player1_type) == *old(player1_type)
                &&& *final(player2_type) == *old(player2_type)
                &&& final(self).selected_controller == old(self).selected_controller
                &&& final(self).input_busy
            },
            choice != SelectControllerMenuEntry::Back && choice != SelectControllerMenuEntry::Automatic ==> {
                let device = match choice {
                    SelectControllerMenuEntry::Gamepad(i) => ControllerType::Gamepad(i as u32),
                    _ => ControllerType::Keyboard,
                };
                &&& r == (MenuAction { save: true, rebuild_input: true, ..no_action() })
                &&& final(self).selected_controller == device
                &&& final(self).input_busy
                &&& if old(self).selected_player == MenuPlayer::Player1 {
                    &&& !*final(auto_switching)
                    &&& *final(player1_type) == device
                    &&& *final(player2_type) == *old(player2_type)
                } else {
                    &&& *final(auto_switching) == *old(auto_switching)
                    &&& *final(player1_type) == *old(player1_type)
                    &&& *final(player2_type) == device
                }
            },
    {
        self.current = CurrentMenu::MainMenu;
        let device = match choice {
            SelectControllerMenuEntry::Back => {
                return nothing();
            },
            SelectControllerMenuEntry::Automatic => {
                *auto_switching = true;
                self.input_busy = true;
                return MenuAction { save: true, rebuild_input: true, exit: false, rumble_test: None, touch_activity: false };
            },
            SelectControllerMenuEntry::Keyboard => ControllerType::Keyboard,
            SelectControllerMenuEntry::Gamepad(i) => ControllerType::Gamepad(#[verifier::truncate] (i as u32)),
        };
        if self.selected_player == MenuPlayer::Player1 {
            *auto_switching = false;
            *player1_type = device;
        } else {
            *player2_type = device;
        }
        self.input_busy = true;
        self.selected_controller = device;
        MenuAction { save: true, rebuild_input: true, exit: false, rumble_test: None, touch_activity: false }
    }

    /// A choice on the rebind page: a control starts waiting for its new
    /// binding, back returns to the main page (both only once input is
    /// released), and reset asks for confirmation.
    pub fn rebind_menu_choice(&mut self, choice: RebindMenuEntry)
        ensures
            same_rows(*old(self), *final(self)),
            final(self).selected_controller == old(self).selected_controller,
            match choice {
                RebindMenuEntry::Back => {
                    &&& final(self).current == if old(self).input_busy {
                        old(self).current
                    } else {
                        CurrentMenu::MainMenu
                    }
                    &&& final(self).selected_control == old(self).selected_control
                    &&& final(self).input_busy == old(self).input_busy
                },
                RebindMenuEntry::Control(c) => if old(self).input_busy {
                    &&& final(self).current == old(self).current
                    &&& final(self).selected_control == old(self).selected_control
                    &&& final(self).input_busy
                } else {
                    &&& final(self).current == CurrentMenu::ConfirmRebindMenu
                    &&& final(self).selected_control == Some(c)
                    &&& final(self).input_busy
                },
                RebindMenuEntry::Reset => {
                    &&& final(self).current == CurrentMenu::ConfirmResetMenu
                    &&& final(self).selected_control == old(self).selected_control
                    &&& final(self).input_busy == old(self).input_busy
                },
            },
    {
        match choice {
            RebindMenuEntry::Back => {
                if !self.input_busy {
                    self.current = CurrentMenu::MainMenu;
                }
            },
            RebindMenuEntry::Control(c) => {
                if !self.input_busy {
                    self.selected_control = Some(c);
                    self.input_busy = true;
                    self.current = CurrentMenu::ConfirmRebindMenu;
                }
            },
            RebindMenuEntry::Reset => {
                self.current = CurrentMenu::ConfirmResetMenu;
            },
        }
    }

    /// A choice on the page confirming a reset of the selected player's
    /// `key_map` and `button_map`: yes restores the defaults of the shown
    /// device and takes input only once it is released; either way the
    /// rebind page returns.
    pub fn reset_menu_choice(
        &mut self,
        choice: ConfirmResetMenuEntry,
        key_map: &mut PlayerKeyMap,
        button_map: &mut PlayerControllerButtonMap,
    ) -> (r: MenuAction)
        requires
            selected_key_rows(*old(self)) == key_rows(*old(key_map)),
            selected_input_rows(*old(self)) == input_rows(*old(button_map)),
        ensures
            selected_key_rows(*final(self)) == key_rows(*final(key_map)),
            selected_input_rows(*final(self)) == input_rows(*final(button_map)),
            final(self).current == CurrentMenu::RebindMenu,
            final(self).selected_player == old(self).selected_player,
            final(self).selected_controller == old(self).selected_controller,
            final(self).selected_control == old(self).selected_control,
            choice == ConfirmResetMenuEntry::No ==> {
                &&& r == no_action()
                &&& *final(key_map) == *old(key_map)
                &&& *final(button_map) == *old(button_map)
                &&& final(self).input_busy == old(self).input_busy
            },
            choice == ConfirmResetMenuEntry::Yes ==> {
                &&& r == (MenuAction { save: true, ..no_action() })
                &&& final(self).input_busy
                &&& if old(self).selected_controller == ControllerType::Keyboard {
                    &&& *final(key_map) == match old(self).selected_player {
                        MenuPlayer::Player1 => p1_keymap(),
                        MenuPlayer::Player2 => p2_keymap(),
                    }
                    &&& *final(button_map) == *old(button_map)
                } else {
                    &&& *final(key_map) == *old(key_map)
                    &&& *final(button_map) == default_map()
                }
            },
    {
        self.current = CurrentMenu::RebindMenu;
        match choice {
            ConfirmResetMenuEntry::No => nothing(),
            ConfirmResetMenuEntry::Yes => {
                self.reset_controls(key_map, button_map);
                self.input_busy = true;
                MenuAction { save: true, rebuild_input: false, exit: false, rumble_test: None, touch_activity: false }
            },
        }
    }

    /// Once no key, button or axis is held any longer, the menu takes input again.
    pub fn release_input(&mut self, held: bool)
        ensures
            final(self).input_busy == (old(self).input_busy && held),
            same_rows(*old(self), *final(self)),
            final(self).current == old(self).current,
            final(self).selected_controller == old(self).selected_controller,
            final(self).selected_control == old(self).selected_control,
    {
        if self.input_busy {
            self.input_busy = held;
        }
    }
}

/// An entry of the menu's main page.
#[derive(Clone, Copy, Debug, PartialEq, Eq, Structural)]
pub enum MainMenuEntry {
    SelectedPlayer,
    Controller,
    Layout,
    Rebind,
    Rumble,
    RumbleMode,
    /// The platform's Bluetooth rumble settings (Android).
    ShizukuRumble,
    DisplayTouchControls,
    AutoHideTouchControls,
    Back,
}

/// The entries of the main page, in order: the player choice where two
/// players are supported; the device, rebinding, rumble switch and scheme;
/// the Bluetooth rumble settings on Android; the layout; the touch-overlay
/// switch where touch controls are on (with auto-hiding on Android); back.
pub open spec fn main_page(two_player_support: bool, touch_controls: bool, android: bool) -> Seq<MainMenuEntry> {
    (if two_player_support { seq![MainMenuEntry::SelectedPlayer] } else { Seq::empty() })
        + seq![MainMenuEntry::Controller, MainMenuEntry::Rebind, MainMenuEntry::Rumble, MainMenuEntry::RumbleMode]
        + (if android { seq![MainMenuEntry::ShizukuRumble] } else { Seq::empty() })
        + seq![MainMenuEntry::Layout]
        + (if touch_controls {
            seq![MainMenuEntry::DisplayTouchControls] + (if android {
                seq![MainMenuEntry::AutoHideTouchControls]
            } else {
                Seq::empty()
            })
        } else {
            Seq::empty()
        })
        + seq![MainMenuEntry::Back]
}

/// The entries of the main page (see `main_page`).
pub fn main_entries(two_player_support: bool, touch_controls: bool, android: bool) -> (r: Vec<MainMenuEntry>)
    ensures
        r@ == main_page(two_player_support, touch_controls, android),
{
    let mut r: Vec<MainMenuEntry> = Vec::new();
    if two_player_support {
        r.push(MainMenuEntry::SelectedPlayer);
    }
    r.push(MainMenuEntry::Controller);
    r.push(MainMenuEntry::Rebind);
    r.push(MainMenuEntry::Rumble);
    r.push(MainMenuEntry::RumbleMode);
    if android {
        r.push(MainMenuEntry::ShizukuRumble);
    }
    r.push(MainMenuEntry::Layout);
    if touch_controls {
        r.push(MainMenuEntry::DisplayTouchControls);
        if android {
            r.push(MainMenuEntry::AutoHideTouchControls);
        }
    }
    r.push(MainMenuEntry::Back);
    assert(r@ =~= main_page(two_player_support, touch_controls, android));
    r
}

/// The other player.
pub open spec fn other_player(p: MenuPlayer) -> MenuPlayer {
    match p {
        MenuPlayer::Player1 => MenuPlayer::Player2,
        MenuPlayer::Player2 => MenuPlayer::Player1,
    }
}

impl ControlsMenu {
    /// Shows the other player, with the device that player uses now.
    pub fn switch_player(&mut self, settings: &Settings, pads: &GamepadContext)
        requires
            pads@.len() <= u32::MAX,
        ensures
            final(self).selected_player == other_player(old(self).selected_player),
            final(self).selected_player == MenuPlayer::Player2 ==> final(self).selected_controller
                == settings.player2_controller_type,
            final(self).selected_player == MenuPlayer::Player1 ==> exists|p1: Option<u32>|
                #[trigger] player1_pad(*settings, pads@, p1) && final(self).selected_controller == device_of(
                    MenuPlayer::Player1,
                    *settings,
                    pads@,
                    p1,
                ),
            final(self).current == old(self).current,
            final(self).selected_control == old(self).selected_control,
            final(self).input_busy == old(self).input_busy,
            final(self).player1_key_map@ == old(self).player1_key_map@,
            final(self).player2_key_map@ == old(self).player2_key_map@,
            final(self).player1_controller_button_map@ == old(self).player1_controller_button_map@,
            final(self).player2_controller_button_map@ == old(self).player2_controller_button_map@,
    {
        let player = match self.selected_player {
            MenuPlayer::Player1 => MenuPlayer::Player2,
            MenuPlayer::Player2 => MenuPlayer::Player1,
        };
        self.selected_player = player;
        self.selected_controller = player.controller_type(settings, pads);
    }

    /// Steps the selected player's gamepad layout (`button_map`, with the
    /// saved custom layout `custom`) by `direction`, refreshes the rebind rows
    /// and rebuilds the menu's input.
    pub fn switch_layout(
        &mut self,
        direction: i8,
        button_map: &mut PlayerControllerButtonMap,
        custom: &mut Option<PlayerControllerButtonMap>,
    ) -> (r: MenuAction)
        requires
            selected_input_rows(*old(self)) == input_rows(*old(button_map)),
        ensures
            selected_input_rows(*final(self)) == input_rows(*final(button_map)),
            (*final(button_map), *final(custom)) == switched(
                *old(button_map),
                *old(custom),
                next_layout(layout_of(*old(button_map)) as int, (*old(custom)) is Some, direction as int) as usize,
            ),
            r == (MenuAction { save: true, rebuild_input: true, ..no_action() }),
            final(self).input_busy,
            final(self).current == old(self).current,
            final(self).selected_player == old(self).selected_player,
            final(self).selected_controller == old(self).selected_controller,
            final(self).selected_control == old(self).selected_control,
            selected_key_rows(*final(self)) == selected_key_rows(*old(self)),
            other_key_rows(*final(self)) == other_key_rows(*old(self)),
    {
        let current = button_map.layout_index();
        let next = step_layout(current, custom.is_some(), direction);
        button_map.switch_layout(next, custom);
        match self.selected_player {
            MenuPlayer::Player1 => {
                self.player1_controller_button_map = init_controller_button_map(button_map);
            },
            MenuPlayer::Player2 => {
                self.player2_controller_button_map = init_controller_button_map(button_map);
            },
        }
        self.input_busy = true;
        MenuAction { save: true, rebuild_input: true, exit: false, rumble_test: None, touch_activity: false }
    }

    /// A choice on the main page other than the player and the layout (see
    /// `switch_player` and `switch_layout`): the controller and rebind pages
    /// open (the controller page once input is released); the selected
    /// player's `rumble` switch and `rumble_mode`, and the overlay options
    /// `display_touch` and `auto_hide_touch`, toggle and are saved, a rumble
    /// turned on being tried on the shown pad; back leaves the menu.
    pub fn main_menu_choice(
        &mut self,
        choice: MainMenuEntry,
        rumble: &mut bool,
        rumble_mode: &mut RumbleMode,
        display_touch: &mut bool,
        auto_hide_touch: &mut bool,
    ) -> (r: MenuAction)
        ensures
            same_rows(*old(self), *final(self)),
            final(self).selected_controller == old(self).selected_controller,
            final(self).selected_control == old(self).selected_control,
            final(self).input_busy == old(self).input_busy,
            final(self).current == match choice {
                MainMenuEntry::Controller => if old(self).input_busy {
                    old(self).current
                } else {
                    CurrentMenu::SelectControllerMenu
                },
                MainMenuEntry::Rebind => CurrentMenu::RebindMenu,
                _ => old(self).current,
            },
            *final(rumble) == if choice == MainMenuEntry::Rumble { !*old(rumble) } else { *old(rumble) },
            *final(rumble_mode) == if choice == MainMenuEntry::RumbleMode {
                if *old(rumble_mode) == RumbleMode::Original {
                    RumbleMode::Enhanced
                } else {
                    RumbleMode::Original
                }
            } else {
                *old(rumble_mode)
            },
            *final(display_touch) == if choice == MainMenuEntry::DisplayTouchControls {
                !*old(display_touch)
            } else {
                *old(display_touch)
            },
            *final(auto_hide_touch) == if choice == MainMenuEntry::AutoHideTouchControls {
                !*old(auto_hide_touch)
            } else {
                *old(auto_hide_touch)
            },
            r == match choice {
                MainMenuEntry::Rumble => MenuAction {
                    save: true,
                    rumble_test: if !*old(rumble) && old(self).selected_controller is Gamepad {
                        Some(old(self).selected_controller->Gamepad_0)
                    } else {
                        None
                    },
                    ..no_action()
                },
                MainMenuEntry::RumbleMode | MainMenuEntry::DisplayTouchControls => MenuAction {
                    save: true,
                    ..no_action()
                },
                MainMenuEntry::AutoHideTouchControls => MenuAction {
                    save: true,
                    touch_activity: true,
                    ..no_action()
                },
                MainMenuEntry::Back => MenuAction { exit: true, ..no_action() },
                _ => no_action(),
            },
    {
        match choice {
            MainMenuEntry::Controller => {
                if !self.input_busy {
                    self.current = CurrentMenu::SelectControllerMenu;
                }
                nothing()
            },
            MainMenuEntry::Rebind => {
                self.current = CurrentMenu::RebindMenu;
                nothing()
            },
            MainMenuEntry::Rumble => {
                *rumble = !*rumble;
                let test = if *rumble {
                    match self.selected_controller {
                        ControllerType::Gamepad(index) => Some(index),
                        ControllerType::Keyboard => None,
                    }
                } else {
                    None
                };
                MenuAction { save: true, rebuild_input: false, exit: false, rumble_test: test, touch_activity: false }
            },
            MainMenuEntry::RumbleMode => {
                *rumble_mode = match *rumble_mode {
                    RumbleMode::Original => RumbleMode::Enhanced,
                    RumbleMode::Enhanced => RumbleMode::Original,
                };
                MenuAction { save: true, rebuild_input: false, exit: false, rumble_test: None, touch_activity: false }
            },
            MainMenuEntry::DisplayTouchControls => {
                *display_touch = !*display_touch;
                MenuAction { save: true, rebuild_input: false, exit: false, rumble_test: None, touch_activity: false }
            },
            MainMenuEntry::AutoHideTouchControls => {
                *auto_hide_touch = !*auto_hide_touch;
                MenuAction { save: true, rebuild_input: false, exit: false, rumble_test: None, touch_activity: true }
            },
            MainMenuEntry::Back => MenuAction {
                save: false,
                rebuild_input: false,
                exit: true,
                rumble_test: None,
                touch_activity: false,
            },
            _ => nothing(),
        }
    }
}

/// The Android key code of a button, for the buttons Android names.
pub open spec fn android_button_code(b: Button) -> Option<i32> {
    match b {
        Button::South => Some(96),
        Button::East => Some(97),
        Button::West => Some(99),
        Button::North => Some(100),
        Button::LeftShoulder => Some(102),
        Button::RightShoulder => Some(103),
        Button::LeftStick => Some(106),
        Button::RightStick => Some(107),
        Button::Start => Some(108),
        Button::Back => Some(109),
        _ => None,
    }
}

/// The Android key code of binding `input`: that of its (first) button, else
/// `fallback`.
pub open spec fn android_key(input: PlayerControllerInputType, fallback: i32) -> i32 {
    match input {
        PlayerControllerInputType::ButtonInput(b) | PlayerControllerInputType::EitherButtons(b, _) => match android_button_code(b) {
            Some(code) => code,
            None => fallback,
        },
        _ => fallback,
    }
}

/// The Android key code that stands for a menu binding in the platform's
/// rumble settings: that of its (first) button, else `fallback`.
pub fn android_key_code(input: PlayerControllerInputType, fallback: i32) -> (r: i32)
    ensures
        r == android_key(input, fallback),
{
    let button = match input {
        PlayerControllerInputType::ButtonInput(b) => b,
        PlayerControllerInputType::EitherButtons(b, _) => b,
        _ => return fallback,
    };
    match button {
        Button::South => 96,
        Button::East => 97,
        Button::West => 99,
        Button::North => 100,
        Button::LeftShoulder => 102,
        Button::RightShoulder => 103,
        Button::LeftStick => 106,
        Button::RightStick => 107,
        Button::Start => 108,
        Button::Back => 109,
        _ => fallback,
    }
}

/// What happened on the page shown this tick: a choice on one of the pages,
/// a cancel, or nothing.
#[derive(Clone, Copy, Debug, PartialEq, Eq, Structural)]
pub enum MenuEvent {
    Main(MainMenuEntry),
    Controller(SelectControllerMenuEntry),
    Rebind(RebindMenuEntry),
    Reset(ConfirmResetMenuEntry),
    Canceled,
    Nothing,
}

/// The outcome of a tick of the menu: the page shown next, whether the menu
/// is left, and whether rumble is reconciled with the settings this tick.
#[derive(Clone, Copy, Debug, PartialEq, Eq, Structural)]
pub struct MenuStep {
    pub next: CurrentMenu,
    pub exit: bool,
    pub reconcile: bool,
}

/// The tick's outcome on page `page` after `event`, with input `busy` or not.
/// Rumble is reconciled on every tick but one: the device page is not opened
/// while input is busy, and that tick ends at once. Events of another page
/// change nothing. While a binding is awaited, the confirmation functions
/// decide the page.
pub open spec fn step_of(page: CurrentMenu, event: MenuEvent, busy: bool) -> MenuStep {
    let stay = MenuStep { next: page, exit: false, reconcile: true };
    let go = |next: CurrentMenu| MenuStep { next, exit: false, reconcile: true };
    match page {
        CurrentMenu::MainMenu => match event {
            MenuEvent::Main(MainMenuEntry::Back) | MenuEvent::Canceled => MenuStep {
                next: CurrentMenu::MainMenu,
                exit: true,
                reconcile: true,
            },
            MenuEvent::Main(MainMenuEntry::Controller) => if busy {
                MenuStep { next: page, exit: false, reconcile: false }
            } else {
                go(CurrentMenu::SelectControllerMenu)
            },
            MenuEvent::Main(MainMenuEntry::Rebind) => go(CurrentMenu::RebindMenu),
            _ => stay,
        },
        CurrentMenu::SelectControllerMenu => match event {
            MenuEvent::Controller(_) | MenuEvent::Canceled => go(CurrentMenu::MainMenu),
            _ => stay,
        },
        CurrentMenu::RebindMenu => match event {
            MenuEvent::Rebind(RebindMenuEntry::Back) | MenuEvent::Canceled => if busy {
                stay
            } else {
                go(CurrentMenu::MainMenu)
            },
            MenuEvent::Rebind(RebindMenuEntry::Control(_)) => if busy {
                stay
            } else {
                go(CurrentMenu::ConfirmRebindMenu)
            },
            MenuEvent::Rebind(RebindMenuEntry::Reset) => go(CurrentMenu::ConfirmResetMenu),
            _ => stay,
        },
        CurrentMenu::ConfirmRebindMenu => stay,
        CurrentMenu::ConfirmResetMenu => match event {
            MenuEvent::Reset(_) | MenuEvent::Canceled => go(CurrentMenu::RebindMenu),
            _ => stay,
        },
    }
}

/// The page shown next, whether the menu is left, and whether rumble is
/// reconciled, for `event` on page `page`.
pub fn menu_step(page: CurrentMenu, event: MenuEvent, busy: bool) -> (r: MenuStep)
    ensures
        r == step_of(page, event, busy),
        r.exit <==> (page == CurrentMenu::MainMenu && (event == MenuEvent::Main(MainMenuEntry::Back)
            || event == MenuEvent::Canceled)),
{
    let stay = MenuStep { next: page, exit: false, reconcile: true };
    match page {
        CurrentMenu::MainMenu => match event {
            MenuEvent::Main(MainMenuEntry::Back) | MenuEvent::Canceled => MenuStep {
                next: CurrentMenu::MainMenu,
                exit: true,
                reconcile: true,
            },
            MenuEvent::Main(MainMenuEntry::Controller) => if busy {
                MenuStep { next: page, exit: false, reconcile: false }
            } else {
                MenuStep { next: CurrentMenu::SelectControllerMenu, exit: false, reconcile: true }
            },
            MenuEvent::Main(MainMenuEntry::Rebind) => MenuStep { next: CurrentMenu::RebindMenu, exit: false, reconcile: true },
            _ => stay,
        },
        CurrentMenu::SelectControllerMenu => match event {
            MenuEvent::Controller(_) | MenuEvent::Canceled => MenuStep {
                next: CurrentMenu::MainMenu,
                exit: false,
                reconcile: true,
            },
            _ => stay,
        },
        CurrentMenu::RebindMenu => match event {
            MenuEvent::Rebind(RebindMenuEntry::Back) | MenuEvent::Canceled => if busy {
                stay
            } else {
                MenuStep { next: CurrentMenu::MainMenu, exit: false, reconcile: true }
            },
            MenuEvent::Rebind(RebindMenuEntry::Control(_)) => if busy {
                stay
            } else {
                MenuStep { next: CurrentMenu::ConfirmRebindMenu, exit: false, reconcile: true }
            },
            MenuEvent::Rebind(RebindMenuEntry::Reset) => MenuStep {
                next: CurrentMenu::ConfirmResetMenu,
                exit: false,
                reconcile: true,
            },
            _ => stay,
        },
        CurrentMenu::ConfirmRebindMenu => stay,
        CurrentMenu::ConfirmResetMenu => match event {
            MenuEvent::Reset(_) | MenuEvent::Canceled => MenuStep {
                next: CurrentMenu::RebindMenu,
                exit: false,
                reconcile: true,
            },
            _ => stay,
        },
    }
}

/// The menu is left only from its main page, by its back entry or a cancel;
/// no other page and no other event leaves it.
pub proof fn law_menu_exits_only_from_main_page(page: CurrentMenu, event: MenuEvent, busy: bool)
    ensures
        step_of(page, event, busy).exit <==> (page == CurrentMenu::MainMenu && (event == MenuEvent::Main(
            MainMenuEntry::Back,
        ) || event == MenuEvent::Canceled)),
{
}

} // verus!
