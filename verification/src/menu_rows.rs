//! What the controls menu writes and draws on its rows: the names of the
//! controls, the pictures of gamepad bindings, the rebind page, the page
//! waiting for a new binding, and the layout choice.
use vstd::prelude::*;
use crate::controls_menu::{
    android_key, android_key_code, controller_page, device_of, offered_pads, other_device, selected_input_rows,
    SelectControllerMenuEntry, selected_key_rows, ControlEntry, ControlsMenu, MenuPlayer, RebindMenuEntry,
};
use crate::gamepad::{binding_rect, button_rect, gamepad_name, GamepadRects, PlayerControllerInputType, Rect};
use crate::gamepad_context::{player1_pad, rumble_pads, sprite_offset, GamepadContext, PadView};
use crate::i18n::{substitute, translation, view_str_pair, Locale};
use crate::keyboard::ScanCode;
use crate::settings::{layout_of, player1_inputs, player2_inputs, ControllerType, PlayerInputs, Settings};
use crate::text::{dec, push_char, push_dec, push_str, string_of};

verus! {

/// What `loc` shows for `key`: its translation, or the key itself.
pub open spec fn shown(loc: Locale, key: Seq<char>) -> Seq<char> {
    match translation(loc.code@, loc.strings@, key) {
        Some(t) => t,
        None => key,
    }
}

/// The locale key of the name of control `c`.
pub open spec fn control_key(c: ControlEntry) -> Seq<char> {
    match c {
        ControlEntry::Left => "menus.controls_menu.rebind_menu.left"@,
        ControlEntry::Up => "menus.controls_menu.rebind_menu.up"@,
        ControlEntry::Right => "menus.controls_menu.rebind_menu.right"@,
        ControlEntry::Down => "menus.controls_menu.rebind_menu.down"@,
        ControlEntry::PrevWeapon => "menus.controls_menu.rebind_menu.prev_weapon"@,
        ControlEntry::NextWeapon => "menus.controls_menu.rebind_menu.next_weapon"@,
        ControlEntry::Jump => "menus.controls_menu.rebind_menu.jump"@,
        ControlEntry::Shoot => "menus.controls_menu.rebind_menu.shoot"@,
        ControlEntry::Skip => "menus.controls_menu.rebind_menu.skip"@,
        ControlEntry::Inventory => "menus.controls_menu.rebind_menu.inventory"@,
        ControlEntry::ShowMap => "menus.controls_menu.rebind_menu.map"@,
        ControlEntry::Strafe => "menus.controls_menu.rebind_menu.strafe"@,
        ControlEntry::MenuOk => "menus.controls_menu.rebind_menu.menu_ok"@,
        ControlEntry::MenuBack => "menus.controls_menu.rebind_menu.menu_back"@,
    }
}

impl ControlEntry {
    /// The locale key of this control's name.
    pub fn locale_key(&self) -> (r: &'static str)
        ensures
            r@ == control_key(*self),
    {
        match self {
            ControlEntry::Left => "menus.controls_menu.rebind_menu.left",
            ControlEntry::Up => "menus.controls_menu.rebind_menu.up",
            ControlEntry::Right => "menus.controls_menu.rebind_menu.right",
            ControlEntry::Down => "menus.controls_menu.rebind_menu.down",
            ControlEntry::PrevWeapon => "menus.controls_menu.rebind_menu.prev_weapon",
            ControlEntry::NextWeapon => "menus.controls_menu.rebind_menu.next_weapon",
            ControlEntry::Jump => "menus.controls_menu.rebind_menu.jump",
            ControlEntry::Shoot => "menus.controls_menu.rebind_menu.shoot",
            ControlEntry::Skip => "menus.controls_menu.rebind_menu.skip",
            ControlEntry::Inventory => "menus.controls_menu.rebind_menu.inventory",
            ControlEntry::ShowMap => "menus.controls_menu.rebind_menu.map",
            ControlEntry::Strafe => "menus.controls_menu.rebind_menu.strafe",
            ControlEntry::MenuOk => "menus.controls_menu.rebind_menu.menu_ok",
            ControlEntry::MenuBack => "menus.controls_menu.rebind_menu.menu_back",
        }
    }

    /// This control's name in `loc`.
    pub fn to_string(&self, loc: &Locale) -> (r: String)
        ensures
            r@ == shown(*loc, control_key(*self)),
    {
        string_of(loc.t(self.locale_key()))
    }
}

/// The picture of a gamepad binding on a row: one button or axis, or the two
/// buttons of a pair.
#[derive(Clone, Copy, Debug, PartialEq, Eq, Structural)]
pub enum BindingPicture {
    Rect(Rect),
    RectPair(Rect, Rect),
}

/// The picture of `b` in sprite row `offset`.
pub open spec fn picture_of(b: PlayerControllerInputType, offset: int, rects: GamepadRects) -> BindingPicture {
    match b {
        PlayerControllerInputType::EitherButtons(first, second) => BindingPicture::RectPair(
            button_rect(first, offset, rects),
            button_rect(second, offset, rects),
        ),
        _ => BindingPicture::Rect(binding_rect(b, offset, rects)),
    }
}

/// The picture of `binding` in sprite row `offset`.
pub fn binding_display(binding: PlayerControllerInputType, offset: usize, rects: &GamepadRects) -> (r: BindingPicture)
    requires
        offset < 4,
    ensures
        r == picture_of(binding, offset as int, *rects),
{
    match binding {
        PlayerControllerInputType::EitherButtons(first, second) => BindingPicture::RectPair(
            first.get_rect(offset, rects),
            second.get_rect(offset, rects),
        ),
        _ => BindingPicture::Rect(binding.get_rect(offset, rects)),
    }
}

/// The sprite row for the pictures of `device`'s buttons: the Xbox row for
/// the keyboard or a vacant slot.
pub open spec fn device_offset(device: ControllerType, slots: Seq<Option<PadView>>) -> int {
    match device {
        ControllerType::Keyboard => 1,
        ControllerType::Gamepad(i) => if i < slots.len() && slots[i as int] is Some {
            sprite_offset(slots[i as int]->0.kind) as int
        } else {
            1
        },
    }
}

/// What a row of the rebind page shows beside the control's name.
#[derive(Clone, Copy, Debug, PartialEq, Eq, Structural)]
pub enum RowData {
    /// The key bound, written by its name.
    Key(ScanCode),
    /// The picture of the gamepad binding.
    Picture(BindingPicture),
}

/// A row of the rebind page.
pub struct RebindRow {
    pub entry: RebindMenuEntry,
    pub label: String,
    /// Nothing for the reset and back rows.
    pub data: Option<RowData>,
}

impl ControlsMenu {
    /// The rows of the rebind page: one per control of the selected player's
    /// keys (for the keyboard) or gamepad bindings (pictured in the sprite row
    /// of the device the player uses), then reset and back.
    pub fn update_rebind_menu(&self, settings: &Settings, pads: &GamepadContext, loc: &Locale, rects: &GamepadRects) -> (r: Vec<RebindRow>)
        requires
            pads@.len() <= u32::MAX,
        ensures
            self.selected_controller == ControllerType::Keyboard ==> {
                let rows = selected_key_rows(*self);
                &&& r@.len() == rows.len() + 2
                &&& forall|i: int| 0 <= i < rows.len() ==> {
                    &&& #[trigger] r@[i].entry == RebindMenuEntry::Control(rows[i].0)
                    &&& r@[i].label@ == shown(*loc, control_key(rows[i].0))
                    &&& r@[i].data == Some(RowData::Key(rows[i].1))
                }
            },
            self.selected_controller != ControllerType::Keyboard ==> {
                let rows = selected_input_rows(*self);
                &&& r@.len() == rows.len() + 2
                &&& exists|device: ControllerType| {
                    &&& #[trigger] is_device_of(self.selected_player, *settings, pads@, device)
                    &&& forall|i: int| 0 <= i < rows.len() ==> {
                        &&& #[trigger] r@[i].entry == RebindMenuEntry::Control(rows[i].0)
                        &&& r@[i].label@ == shown(*loc, control_key(rows[i].0))
                        &&& r@[i].data == Some(RowData::Picture(picture_of(rows[i].1, device_offset(device, pads@), *rects)))
                    }
                }
            },
            r@.len() >= 2,
            r@[r@.len() - 2].entry == RebindMenuEntry::Reset,
            r@[r@.len() - 2].label@ == shown(*loc, "menus.controls_menu.reset_confirm"@),
            r@[r@.len() - 2].data is None,
            r@[r@.len() - 1].entry == RebindMenuEntry::Back,
            r@[r@.len() - 1].label@ == shown(*loc, "common.back"@),
            r@[r@.len() - 1].data is None,
    {
        let mut out: Vec<RebindRow> = Vec::new();
        if self.selected_controller == ControllerType::Keyboard {
            let rows = match self.selected_player {
                MenuPlayer::Player1 => &self.player1_key_map,
                MenuPlayer::Player2 => &self.player2_key_map,
            };
            let mut i: usize = 0;
            while i < rows.len()
                invariant
                    rows@ == selected_key_rows(*self),
                    i <= rows@.len(),
                    out@.len() == i,
                    forall|j: int| 0 <= j < i ==> {
                        &&& #[trigger] out@[j].entry == RebindMenuEntry::Control(rows@[j].0)
                        &&& out@[j].label@ == shown(*loc, control_key(rows@[j].0))
                        &&& out@[j].data == Some(RowData::Key(rows@[j].1))
                    },
                decreases rows@.len() - i,
            {
                let (control, key) = rows[i];
                let label = control.to_string(loc);
                out.push(RebindRow { entry: RebindMenuEntry::Control(control), label, data: Some(RowData::Key(key)) });
                i = i + 1;
            }
        } else {
            let rows = match self.selected_player {
                MenuPlayer::Player1 => &self.player1_controller_button_map,
                MenuPlayer::Player2 => &self.player2_controller_button_map,
            };
            let device = self.selected_player.controller_type(settings, pads);
            let offset = device_sprite_offset(device, pads);
            let mut i: usize = 0;
            while i < rows.len()
                invariant
                    rows@ == selected_input_rows(*self),
                    offset < 4,
                    offset == device_offset(device, pads@),
                    i <= rows@.len(),
                    out@.len() == i,
                    forall|j: int| 0 <= j < i ==> {
                        &&& #[trigger] out@[j].entry == RebindMenuEntry::Control(rows@[j].0)
                        &&& out@[j].label@ == shown(*loc, control_key(rows@[j].0))
                        &&& out@[j].data == Some(RowData::Picture(picture_of(rows@[j].1, offset as int, *rects)))
                    },
                decreases rows@.len() - i,
            {
                let (control, input) = rows[i];
                let label = control.to_string(loc);
                let picture = binding_display(input, offset, rects);
                out.push(RebindRow { entry: RebindMenuEntry::Control(control), label, data: Some(RowData::Picture(picture)) });
                i = i + 1;
            }
            proof {
                assert(is_device_of(self.selected_player, *settings, pads@, device));
            }
        }
        let reset = string_of(loc.t("menus.controls_menu.reset_confirm"));
        out.push(RebindRow { entry: RebindMenuEntry::Reset, label: reset, data: None });
        let back = string_of(loc.t("common.back"));
        out.push(RebindRow { entry: RebindMenuEntry::Back, label: back, data: None });
        out
    }
}

/// `device` is the one `player` uses now.
pub open spec fn is_device_of(player: MenuPlayer, s: Settings, slots: Seq<Option<PadView>>, device: ControllerType) -> bool {
    match player {
        MenuPlayer::Player1 => exists|p1: Option<u32>| #[trigger] player1_pad(s, slots, p1) && device == device_of(player, s, slots, p1),
        MenuPlayer::Player2 => device == s.player2_controller_type,
    }
}

/// The sprite row for the pictures of `device`'s buttons.
fn device_sprite_offset(device: ControllerType, pads: &GamepadContext) -> (r: usize)
    ensures
        r == device_offset(device, pads@),
        r < 4,
{
    match device {
        ControllerType::Keyboard => 1,
        ControllerType::Gamepad(index) => pads.get_gamepad_sprite_offset(index as usize),
    }
}

/// The two lines of the page waiting for a new binding of `control`: the
/// title naming it, and how to cancel (by touch where touch controls are on).
pub open spec fn confirm_lines(loc: Locale, control: ControlEntry, touch: bool) -> (Seq<char>, Seq<char>) {
    (
        substitute(
            shown(loc, "menus.controls_menu.rebind_confirm_menu.title"@),
            seq![("control"@, shown(loc, control_key(control)))],
        ),
        shown(
            loc,
            if touch {
                "menus.controls_menu.rebind_confirm_menu.cancel_touch"@
            } else {
                "menus.controls_menu.rebind_confirm_menu.cancel"@
            },
        ),
    )
}

/// The choice of button layout on the main page.
pub struct LayoutOptions {
    pub label: String,
    /// The layout in use: 0 Xbox, 1 PSP, 2 custom.
    pub selected: usize,
    pub names: Vec<String>,
}

impl ControlsMenu {
    /// The lines of the page waiting for a new binding, none while no control
    /// is being rebound.
    pub fn update_confirm_controls_menu(&self, settings: &Settings, loc: &Locale) -> (r: Option<(String, String)>)
        ensures
            self.selected_control is None ==> r is None,
            self.selected_control matches Some(c) ==> (r matches Some(lines) && (lines.0@, lines.1@)
                == confirm_lines(*loc, c, settings.touch_controls)),
    {
        match self.selected_control {
            Some(control) => {
                let name = control.to_string(loc);
                let args: [(&str, &str); 1] = [("control", name.as_str())];
                let title = loc.tt("menus.controls_menu.rebind_confirm_menu.title", &args);
                proof {
                    assert(args@.map_values(|a: (&str, &str)| view_str_pair(a)) =~= seq![("control"@, name@)]);
                }
                let cancel = if settings.touch_controls {
                    string_of(loc.t("menus.controls_menu.rebind_confirm_menu.cancel_touch"))
                } else {
                    string_of(loc.t("menus.controls_menu.rebind_confirm_menu.cancel"))
                };
                Some((title, cancel))
            },
            None => None,
        }
    }

    /// The layout choice for the selected player: Xbox and PSP, and the
    /// custom layout where custom bindings are saved or in use.
    pub fn update_layout_options(&self, settings: &Settings, loc: &Locale) -> (r: LayoutOptions)
        ensures
            ({
                let (map, custom) = match self.selected_player {
                    MenuPlayer::Player1 => (settings.player1_controller_button_map, settings.player1_custom_controller_button_map),
                    MenuPlayer::Player2 => (settings.player2_controller_button_map, settings.player2_custom_controller_button_map),
                };
                let n: int = if custom is Some || layout_of(map) == 2 { 3 } else { 2 };
                &&& r.label@ == shown(*loc, "menus.controls_menu.layout"@)
                &&& r.selected == layout_of(map)
                &&& r.names@.len() == n
                &&& r.names@[0]@ == "Xbox"@
                &&& r.names@[1]@ == "PSP"@
                &&& n == 3 ==> r.names@[2]@ == shown(*loc, "menus.controls_menu.custom_layout"@)
            }),
    {
        let (map, custom) = match self.selected_player {
            MenuPlayer::Player1 => (&settings.player1_controller_button_map, &settings.player1_custom_controller_button_map),
            MenuPlayer::Player2 => (&settings.player2_controller_button_map, &settings.player2_custom_controller_button_map),
        };
        let selected = map.layout_index();
        let mut names: Vec<String> = Vec::new();
        names.push(string_of("Xbox"));
        names.push(string_of("PSP"));
        if custom.is_some() || selected == 2 {
            names.push(string_of(loc.t("menus.controls_menu.custom_layout")));
        }
        LayoutOptions { label: string_of(loc.t("menus.controls_menu.layout")), selected, names }
    }
}

/// What the platform's Bluetooth rumble settings are opened with: the player
/// (1 or 2), the instance of the pad it uses, whether gameplay rumble reaches
/// that player, and the Android keys of its menu confirm and cancel bindings.
#[derive(Clone, Copy, Debug, PartialEq, Eq, Structural)]
pub struct RumbleSettingsRequest {
    pub player: i32,
    pub instance: Option<u32>,
    pub allowed: bool,
    pub ok: i32,
    pub back: i32,
}

/// The instance of the pad `device` names, none for the keyboard or a vacant slot.
pub open spec fn device_instance(device: ControllerType, slots: Seq<Option<PadView>>) -> Option<u32> {
    match device {
        ControllerType::Gamepad(i) => if (i as int) < slots.len() && slots[i as int] is Some {
            Some(slots[i as int]->0.id)
        } else {
            None
        },
        ControllerType::Keyboard => None,
    }
}

impl ControlsMenu {
    /// The request that opens the platform's Bluetooth rumble settings for the
    /// selected player.
    pub fn rumble_settings_request(&self, settings: &Settings, pads: &GamepadContext, two_players: bool) -> (r: RumbleSettingsRequest)
        requires
            pads@.len() <= u32::MAX,
        ensures
            r.player == (if self.selected_player == MenuPlayer::Player1 { 1i32 } else { 2i32 }),
            exists|owners: (Option<u32>, Option<u32>)| #[trigger] rumble_pads(*settings, pads@, two_players, owners)
                && r.allowed == (if self.selected_player == MenuPlayer::Player1 { owners.0 } else { owners.1 }) is Some,
            exists|device: ControllerType| #[trigger] is_device_of(self.selected_player, *settings, pads@, device)
                && r.instance == device_instance(device, pads@),
            r.ok == android_key(
                if self.selected_player == MenuPlayer::Player1 {
                    settings.player1_controller_button_map.menu_ok
                } else {
                    settings.player2_controller_button_map.menu_ok
                },
                96,
            ),
            r.back == android_key(
                if self.selected_player == MenuPlayer::Player1 {
                    settings.player1_controller_button_map.menu_back
                } else {
                    settings.player2_controller_button_map.menu_back
                },
                97,
            ),
    {
        let owners = pads.rumble_indices(settings, two_players);
        let (player, allowed, map) = match self.selected_player {
            MenuPlayer::Player1 => (1i32, owners.0.is_some(), &settings.player1_controller_button_map),
            MenuPlayer::Player2 => (2i32, owners.1.is_some(), &settings.player2_controller_button_map),
        };
        let device = self.selected_player.controller_type(settings, pads);
        let instance = match device {
            ControllerType::Gamepad(index) => pads.instance_id(index),
            ControllerType::Keyboard => None,
        };
        proof {
            assert(is_device_of(self.selected_player, *settings, pads@, device));
        }
        RumbleSettingsRequest {
            player,
            instance,
            allowed,
            ok: android_key_code(map.menu_ok, 96),
            back: android_key_code(map.menu_back, 97),
        }
    }
}

impl ControlsMenu {
    /// The menu's input rebuilt from the settings, after a change of device:
    /// what both players' controllers read. Input is busy until released.
    pub fn rebuild_menu_controller(&mut self, settings: &Settings) -> (r: (PlayerInputs, PlayerInputs))
        ensures
            r == (player1_inputs(*settings), player2_inputs(*settings)),
            final(self).input_busy,
            final(self).current == old(self).current,
            final(self).selected_player == old(self).selected_player,
            final(self).selected_controller == old(self).selected_controller,
            final(self).selected_control == old(self).selected_control,
            final(self).player1_key_map@ == old(self).player1_key_map@,
            final(self).player2_key_map@ == old(self).player2_key_map@,
            final(self).player1_controller_button_map@ == old(self).player1_controller_button_map@,
            final(self).player2_controller_button_map@ == old(self).player2_controller_button_map@,
    {
        self.input_busy = true;
        (settings.create_player1_controller(), settings.create_player2_controller())
    }
}

/// The text of a choice of the controller page: automatic switching, the
/// keyboard (with the touch controls where they are on), a pad by its model
/// and its slot counted from one, and back.
pub open spec fn controller_label(e: SelectControllerMenuEntry, s: Settings, slots: Seq<Option<PadView>>, loc: Locale) -> Seq<char> {
    match e {
        SelectControllerMenuEntry::Automatic => shown(loc, "menus.controls_menu.controller.automatic"@),
        SelectControllerMenuEntry::Keyboard => shown(
            loc,
            if s.touch_controls {
                "menus.controls_menu.controller.touch_controls_or_keyboard"@
            } else {
                "menus.controls_menu.controller.keyboard"@
            },
        ),
        SelectControllerMenuEntry::Gamepad(i) => gamepad_name(slots[i as int]->0.kind) + seq![' '] + dec((i + 1) as nat),
        SelectControllerMenuEntry::Back => shown(loc, "common.back"@),
    }
}

/// A choice that names a pad names a connected one.
pub open spec fn names_connected(e: SelectControllerMenuEntry, slots: Seq<Option<PadView>>) -> bool {
    match e {
        SelectControllerMenuEntry::Gamepad(i) => i < slots.len() && slots[i as int] is Some,
        _ => true,
    }
}

/// Every pad the controller page offers is connected.
proof fn lemma_offered_pads_present(player: MenuPlayer, s: Settings, slots: Seq<Option<PadView>>, n: int)
    requires
        n <= slots.len() <= u32::MAX,
    ensures
        forall|k: int| 0 <= k < offered_pads(player, s, slots, n).len() ==> #[trigger] names_connected(
            offered_pads(player, s, slots, n)[k],
            slots,
        ),
    decreases n,
{
    if n > 0 {
        lemma_offered_pads_present(player, s, slots, n - 1);
        let rest = offered_pads(player, s, slots, n - 1);
        let all = offered_pads(player, s, slots, n);
        assert forall|k: int| 0 <= k < all.len() implies #[trigger] names_connected(all[k], slots) by {
            if k < rest.len() {
                assert(all[k] == rest[k]);
                assert(names_connected(rest[k], slots));
            } else {
                assert(slots[n - 1] is Some);
                assert(all[k] == SelectControllerMenuEntry::Gamepad((n - 1) as usize));
                assert(((n - 1) as usize) as int == n - 1);
            }
        }
    }
}

impl ControlsMenu {
    /// The choices of the controller page for the selected player, each with
    /// its text.
    pub fn controller_entries(&self, settings: &Settings, pads: &GamepadContext, loc: &Locale) -> (r: Vec<(SelectControllerMenuEntry, String)>)
        requires
            pads@.len() <= u32::MAX,
        ensures
            r@.len() == controller_page(self.selected_player, *settings, pads@).len(),
            forall|k: int| 0 <= k < r@.len() ==> {
                &&& #[trigger] r@[k].0 == controller_page(self.selected_player, *settings, pads@)[k]
                &&& r@[k].1@ == controller_label(r@[k].0, *settings, pads@, *loc)
            },
    {
        let choices = crate::controls_menu::controller_choices(self.selected_player, settings, pads);
        proof {
            lemma_offered_pads_present(self.selected_player, *settings, pads@, pads@.len() as int);
            let page = controller_page(self.selected_player, *settings, pads@);
            let head: Seq<SelectControllerMenuEntry> = if self.selected_player == MenuPlayer::Player1 {
                seq![SelectControllerMenuEntry::Automatic]
            } else {
                Seq::empty()
            } + seq![SelectControllerMenuEntry::Keyboard];
            let pads_part = offered_pads(self.selected_player, *settings, pads@, pads@.len() as int);
            assert forall|k: int| 0 <= k < page.len() implies #[trigger] names_connected(page[k], pads@) by {
                if head.len() <= k < head.len() + pads_part.len() {
                    assert(page[k] == pads_part[k - head.len()]);
                }
            }
        }
        let mut out: Vec<(SelectControllerMenuEntry, String)> = Vec::new();
        let mut k: usize = 0;
        while k < choices.len()
            invariant
                choices@ == controller_page(self.selected_player, *settings, pads@),
                pads@.len() <= u32::MAX,
                forall|j: int| 0 <= j < choices@.len() ==> #[trigger] names_connected(choices@[j], pads@),
                k <= choices@.len(),
                out@.len() == k,
                forall|j: int| 0 <= j < k ==> {
                    &&& #[trigger] out@[j].0 == choices@[j]
                    &&& out@[j].1@ == controller_label(out@[j].0, *settings, pads@, *loc)
                },
            decreases choices@.len() - k,
        {
            let choice = choices[k];
            let label = match choice {
                SelectControllerMenuEntry::Automatic => string_of(loc.t("menus.controls_menu.controller.automatic")),
                SelectControllerMenuEntry::Keyboard => if settings.touch_controls {
                    string_of(loc.t("menus.controls_menu.controller.touch_controls_or_keyboard"))
                } else {
                    string_of(loc.t("menus.controls_menu.controller.keyboard"))
                },
                SelectControllerMenuEntry::Gamepad(i) => {
                    assert(names_connected(choices@[k as int], pads@));
                    let mut text = match pads.get_gamepad_name(i as u32) {
                        Some(name) => name,
                        None => String::new(),
                    };
                    push_char(&mut text, ' ');
                    push_dec(&mut text, (i + 1) as u64);
                    text
                },
                SelectControllerMenuEntry::Back => string_of(loc.t("common.back")),
            };
            out.push((choice, label));
            k = k + 1;
        }
        out
    }
}

} // verus!
