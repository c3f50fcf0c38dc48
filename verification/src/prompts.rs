//! Which input device the on-screen hints show, and how a binding is drawn.
//! Hints only: input availability and saved device assignments stay apart.
use vstd::prelude::*;
use crate::gamepad::{
    binding_rect, Axis, AxisDirection, Button, GamepadRects, PlayerControllerInputType, Rect,
};
use crate::gamepad_context::{
    connected, holds_pad, player1_pad, present, pressed_after, press_activates, sprite_offset, GamepadContext,
    PadView,
};
use crate::keyboard::{key_name, ScanCode};
use crate::controls_menu::{input_of, ControlEntry};
use crate::settings::{ControllerType, PlayerControllerButtonMap, PlayerKeyMap, Settings};
use crate::text::{push_char, push_str};

verus! {

/// A device the player used.
#[derive(Clone, Copy, Debug, PartialEq, Eq, Structural)]
pub enum InputSource {
    Keyboard,
    /// A gamepad, by instance.
    Gamepad(u32),
    Touch,
}

/// The devices used, the most recent last, each once.
pub struct PromptHistory {
    sources: Vec<InputSource>,
}

impl View for PromptHistory {
    type V = Seq<InputSource>;

    closed spec fn view(&self) -> Seq<InputSource> {
        self.sources@
    }
}

/// No device is listed twice.
pub open spec fn distinct_sources(s: Seq<InputSource>) -> bool {
    forall|i: int, j: int| 0 <= i < j < s.len() ==> s[i] != s[j]
}

/// `s` without `source`, in order.
pub open spec fn without_source(s: Seq<InputSource>, source: InputSource) -> Seq<InputSource>
    decreases s.len(),
{
    if s.len() == 0 {
        Seq::empty()
    } else {
        let rest = without_source(s.drop_last(), source);
        if s.last() == source {
            rest
        } else {
            rest.push(s.last())
        }
    }
}

proof fn lemma_without_source(s: Seq<InputSource>, source: InputSource)
    requires
        distinct_sources(s),
    ensures
        distinct_sources(without_source(s, source)),
        !without_source(s, source).contains(source),
        forall|x: InputSource| x != source ==> (without_source(s, source).contains(x) <==> s.contains(x)),
    decreases s.len(),
{
    if s.len() > 0 {
        let rest = s.drop_last();
        assert(distinct_sources(rest));
        lemma_without_source(rest, source);
        let w = without_source(rest, source);
        assert forall|x: InputSource| x != source implies (without_source(s, source).contains(x) <==> s.contains(x)) by {
            vstd::seq_lib::lemma_seq_contains_after_push(w, s.last(), x);
            assert(s =~= rest.push(s.last()));
            vstd::seq_lib::lemma_seq_contains_after_push(rest, s.last(), x);
        }
        if s.last() != source {
            assert(!rest.contains(s.last()));
            assert forall|i: int, j: int| 0 <= i < j < w.push(s.last()).len() implies w.push(s.last())[i] != w.push(s.last())[j] by {
                if j == w.len() {
                    assert(w.contains(w[i]));
                }
            }
            vstd::seq_lib::lemma_seq_contains_after_push(w, s.last(), source);
        }
    }
}

impl PromptHistory {
    /// No device used yet.
    pub fn new() -> (r: PromptHistory)
        ensures
            r@.len() == 0,
    {
        PromptHistory { sources: Vec::new() }
    }

    /// The devices used, the most recent last.
    pub fn sources(&self) -> (r: Vec<InputSource>)
        ensures
            r@ == self@,
    {
        let mut r: Vec<InputSource> = Vec::new();
        let mut i: usize = 0;
        while i < self.sources.len()
            invariant
                i <= self.sources@.len(),
                r@ == self.sources@.subrange(0, i as int),
            decreases self.sources@.len() - i,
        {
            r.push(self.sources[i]);
            i = i + 1;
        }
        assert(r@ =~= self@);
        r
    }

    /// Drops `source` from the list.
    fn forget(&mut self, source: InputSource)
        ensures
            final(self)@ == without_source(old(self)@, source),
    {
        let mut kept: Vec<InputSource> = Vec::new();
        let mut i: usize = 0;
        while i < self.sources.len()
            invariant
                i <= self.sources@.len(),
                self == old(self),
                kept@ == without_source(self.sources@.subrange(0, i as int), source),
            decreases self.sources@.len() - i,
        {
            let s = self.sources[i];
            assert(self.sources@.subrange(0, i + 1).drop_last() =~= self.sources@.subrange(0, i as int));
            if s != source {
                kept.push(s);
            }
            i = i + 1;
        }
        assert(self.sources@.subrange(0, self.sources@.len() as int) =~= self.sources@);
        self.sources = kept;
    }

    /// Notes that `source` was just used: it moves to the end of the list.
    pub fn record(&mut self, source: InputSource)
        ensures
            final(self)@ == without_source(old(self)@, source).push(source),
    {
        self.forget(source);
        self.sources.push(source);
    }

    /// Forgets a gamepad that was unplugged.
    pub fn remove_gamepad(&mut self, id: u32)
        ensures
            final(self)@ == without_source(old(self)@, InputSource::Gamepad(id)),
    {
        self.forget(InputSource::Gamepad(id));
    }
}

/// Recording keeps each device listed once, with the new one last.
pub proof fn law_record_keeps_sources_distinct(s: Seq<InputSource>, source: InputSource)
    requires
        distinct_sources(s),
    ensures
        distinct_sources(without_source(s, source).push(source)),
        without_source(s, source).push(source).last() == source,
        forall|x: InputSource| #[trigger] s.contains(x) ==> without_source(s, source).push(source).contains(x),
{
    lemma_without_source(s, source);
    let w = without_source(s, source);
    assert forall|i: int, j: int| 0 <= i < j < w.push(source).len() implies w.push(source)[i] != w.push(source)[j] by {
        if j == w.len() {
            assert(w.contains(w[i]));
        }
    }
    assert forall|x: InputSource| #[trigger] s.contains(x) implies w.push(source).contains(x) by {
        vstd::seq_lib::lemma_seq_contains_after_push(w, source, x);
    }
}

/// Player one's pad as a manual assignment names it, by instance.
pub open spec fn assigned_pad(s: Settings, slots: Seq<Option<PadView>>) -> Option<u32> {
    match s.player1_controller_type {
        ControllerType::Gamepad(i) => if present(slots, i as int) { Some(slots[i as int]->0.id) } else { None },
        ControllerType::Keyboard => None,
    }
}

/// Whether a hint may show `source`: the keyboard always, touch while the
/// touch controls are on, and a gamepad that player one can use (with
/// automatic switching any connected pad but player two's, else player one's
/// assigned pad).
pub open spec fn usable(source: InputSource, s: Settings, slots: Seq<Option<PadView>>) -> bool {
    match source {
        InputSource::Keyboard => true,
        InputSource::Touch => s.touch_controls,
        InputSource::Gamepad(id) => {
            if s.auto_controller_switching {
                exists|i: int| holds_pad(slots, i, id) && s.player2_controller_type != ControllerType::Gamepad(i as u32)
            } else {
                Some(id) == assigned_pad(s, slots)
            }
        },
    }
}

/// The most recently used device of `history` that a hint may show, else the
/// touch controls where they are on, else the keyboard.
pub open spec fn hint_source(history: Seq<InputSource>, s: Settings, slots: Seq<Option<PadView>>) -> InputSource
    decreases history.len(),
{
    if history.len() == 0 {
        if s.touch_controls {
            InputSource::Touch
        } else {
            InputSource::Keyboard
        }
    } else if usable(history.last(), s, slots) {
        history.last()
    } else {
        hint_source(history.drop_last(), s, slots)
    }
}

/// The device the hints show.
pub fn source(history: &PromptHistory, pads: &GamepadContext, settings: &Settings) -> (r: InputSource)
    requires
        pads.wf(),
        pads@.len() <= u32::MAX,
    ensures
        r == hint_source(history@, *settings, pads@),
{
    let pad = if settings.auto_controller_switching {
        None
    } else {
        match settings.player1_gamepad_index(pads) {
            Some(index) => pads.instance_id(index),
            None => None,
        }
    };
    let n = history.sources.len();
    let mut i: usize = n;
    assert(history@.subrange(0, n as int) =~= history@);
    while i > 0
        invariant
            i <= n == history@.len(),
            !settings.auto_controller_switching ==> pad == assigned_pad(*settings, pads@),
            pads@.len() <= u32::MAX,
            pads.wf(),
            hint_source(history@, *settings, pads@) == hint_source(history@.subrange(0, i as int), *settings, pads@),
        decreases i,
    {
        let candidate = history.sources[i - 1];
        assert(history@.subrange(0, i as int).drop_last() =~= history@.subrange(0, i - 1));
        let ok = match candidate {
            InputSource::Keyboard => true,
            InputSource::Touch => settings.touch_controls,
            InputSource::Gamepad(id) => {
                if settings.auto_controller_switching {
                    let found = pads.index_for_instance(id);
                    proof {
                        match found {
                            Some(index) => {
                                assert forall|k: int| holds_pad(pads@, k, id) implies k == index as int by {
                                    if k != index as int {
                                        assert(pads@[k]->0.id != pads@[index as int]->0.id);
                                    }
                                }
                            },
                            None => {},
                        }
                    }
                    match found {
                        Some(index) => settings.player2_controller_type != ControllerType::Gamepad(index),
                        None => false,
                    }
                } else {
                    Some(id) == pad
                }
            },
        };
        assert(ok == usable(candidate, *settings, pads@));
        if ok {
            return candidate;
        }
        i = i - 1;
    }
    if settings.touch_controls {
        InputSource::Touch
    } else {
        InputSource::Keyboard
    }
}

/// A hint never shows a pad that is not connected: a disconnected pad falls
/// back to another device.
pub proof fn law_hinted_pad_is_connected(history: Seq<InputSource>, s: Settings, slots: Seq<Option<PadView>>, id: u32)
    requires
        hint_source(history, s, slots) == InputSource::Gamepad(id),
    ensures
        connected(slots, id),
    decreases history.len(),
{
    if history.len() > 0 {
        if usable(history.last(), s, slots) {
            if !s.auto_controller_switching {
                let i = match s.player1_controller_type {
                    ControllerType::Gamepad(i) => i,
                    ControllerType::Keyboard => 0,
                };
                assert(holds_pad(slots, i as int, id));
            }
        } else {
            law_hinted_pad_is_connected(history.drop_last(), s, slots, id);
        }
    }
}

/// A hint for a binding: its text, where private-use characters stand for
/// button pictures, and the pictures by their characters.
#[derive(Clone, Debug, PartialEq, Eq)]
pub struct BindingPrompt {
    pub key: String,
    pub symbols: Vec<(char, Rect)>,
}

/// The single inputs a binding is drawn as.
pub open spec fn binding_parts(b: PlayerControllerInputType) -> Seq<PlayerControllerInputType> {
    match b {
        PlayerControllerInputType::EitherButtons(x, y) => seq![
            PlayerControllerInputType::ButtonInput(x),
            PlayerControllerInputType::ButtonInput(y),
        ],
        PlayerControllerInputType::Either(button, axis, direction) => seq![
            PlayerControllerInputType::ButtonInput(button),
            PlayerControllerInputType::AxisInput(axis, direction),
        ],
        _ => seq![b],
    }
}

/// The character standing for the picture of part `i`.
pub open spec fn part_symbol(i: int) -> char {
    if i == 0 {
        '\u{e000}'
    } else {
        '\u{e001}'
    }
}

/// The arrow drawn after an axis part.
pub open spec fn direction_suffix(part: PlayerControllerInputType) -> Seq<char> {
    match part {
        PlayerControllerInputType::AxisInput(_, direction) => match direction {
            AxisDirection::Left => "<"@,
            AxisDirection::Right => ">"@,
            AxisDirection::Up => "^"@,
            AxisDirection::Down => "v"@,
            _ => ""@,
        },
        _ => ""@,
    }
}

/// A picture of no width (the Guide button's) is written out by name.
pub open spec fn pictured(r: Rect) -> bool {
    r.right > r.left
}

/// The text of part `i`: a separator before all but the first, the picture's
/// character (or the word Guide), and an axis arrow.
pub open spec fn part_key(part: PlayerControllerInputType, i: int, offset: int, rects: GamepadRects) -> Seq<char> {
    (if i > 0 { "/"@ } else { ""@ }) + (if pictured(binding_rect(part, offset, rects)) {
        seq![part_symbol(i)]
    } else {
        "Guide"@
    }) + direction_suffix(part)
}

/// The pictures of part `i`.
pub open spec fn part_symbols(part: PlayerControllerInputType, i: int, offset: int, rects: GamepadRects) -> Seq<(char, Rect)> {
    if pictured(binding_rect(part, offset, rects)) {
        seq![(part_symbol(i), binding_rect(part, offset, rects))]
    } else {
        Seq::empty()
    }
}

/// The text of the first `n` parts.
pub open spec fn parts_key(parts: Seq<PlayerControllerInputType>, n: int, offset: int, rects: GamepadRects) -> Seq<char>
    decreases n,
{
    if n <= 0 {
        Seq::empty()
    } else {
        parts_key(parts, n - 1, offset, rects) + part_key(parts[n - 1], n - 1, offset, rects)
    }
}

/// The pictures of the first `n` parts.
pub open spec fn parts_symbols(parts: Seq<PlayerControllerInputType>, n: int, offset: int, rects: GamepadRects) -> Seq<(char, Rect)>
    decreases n,
{
    if n <= 0 {
        Seq::empty()
    } else {
        parts_symbols(parts, n - 1, offset, rects) + part_symbols(parts[n - 1], n - 1, offset, rects)
    }
}

/// The hint for `binding` with the pictures of row `offset`.
pub fn binding_prompt(binding: PlayerControllerInputType, offset: usize, rects: &GamepadRects) -> (r: BindingPrompt)
    requires
        offset < 4,
    ensures
        r.key@ == parts_key(binding_parts(binding), binding_parts(binding).len() as int, offset as int, *rects),
        r.symbols@ == parts_symbols(binding_parts(binding), binding_parts(binding).len() as int, offset as int, *rects),
{
    let parts: Vec<PlayerControllerInputType> = match binding {
        PlayerControllerInputType::EitherButtons(a, b) => vec![
            PlayerControllerInputType::ButtonInput(a),
            PlayerControllerInputType::ButtonInput(b),
        ],
        PlayerControllerInputType::Either(button, axis, direction) => vec![
            PlayerControllerInputType::ButtonInput(button),
            PlayerControllerInputType::AxisInput(axis, direction),
        ],
        other => vec![other],
    };
    assert(parts@ =~= binding_parts(binding));
    let mut key = String::new();
    let mut symbols: Vec<(char, Rect)> = Vec::new();
    let mut i: usize = 0;
    proof {
        reveal_strlit("/");
        reveal_strlit("Guide");
        reveal_strlit("<");
        reveal_strlit(">");
        reveal_strlit("^");
        reveal_strlit("v");
        reveal_strlit("");
    }
    while i < parts.len()
        invariant
            offset < 4,
            i <= parts@.len(),
            key@ == parts_key(parts@, i as int, offset as int, *rects),
            symbols@ == parts_symbols(parts@, i as int, offset as int, *rects),
        decreases parts@.len() - i,
    {
        let part = parts[i];
        let ghost before = key@;
        proof {
            reveal_strlit("/");
            reveal_strlit("Guide");
            reveal_strlit("<");
            reveal_strlit(">");
            reveal_strlit("^");
            reveal_strlit("v");
            reveal_strlit("");
        }
        if i > 0 {
            push_char(&mut key, '/');
        }
        assert(key@ =~= before + (if i > 0 { "/"@ } else { ""@ }));
        let ghost with_separator = key@;
        let symbol = if i == 0 { '\u{e000}' } else { '\u{e001}' };
        let rect = part.get_rect(offset, rects);
        let ghost symbols_before = symbols@;
        if rect.width() == 0 {
            push_str(&mut key, "Guide");
        } else {
            push_char(&mut key, symbol);
            symbols.push((symbol, rect));
        }
        assert(key@ =~= with_separator + (if pictured(binding_rect(part, offset as int, *rects)) {
            seq![part_symbol(i as int)]
        } else {
            "Guide"@
        }));
        let ghost with_picture = key@;
        match part {
            PlayerControllerInputType::AxisInput(_, direction) => {
                let suffix = match direction {
                    AxisDirection::Left => "<",
                    AxisDirection::Right => ">",
                    AxisDirection::Up => "^",
                    AxisDirection::Down => "v",
                    _ => "",
                };
                push_str(&mut key, suffix);
            },
            _ => {},
        }
        assert(key@ =~= with_picture + direction_suffix(part));
        assert(key@ =~= before + part_key(part, i as int, offset as int, *rects));
        assert(symbols@ =~= symbols_before + part_symbols(part, i as int, offset as int, *rects));
        i = i + 1;
    }
    BindingPrompt { key, symbols }
}

/// The hint for player one's skip control, for the device the hints show:
/// the key's name, the touch arrows, or the pad's binding in its row of pictures.
pub fn skip_prompt(history: &PromptHistory, pads: &GamepadContext, settings: &Settings, rects: &GamepadRects) -> (r: BindingPrompt)
    requires
        pads.wf(),
        pads@.len() <= u32::MAX,
    ensures
        match hint_source(history@, *settings, pads@) {
            InputSource::Keyboard => r.key@ == key_name(settings.player1_key_map.skip) && r.symbols@.len() == 0,
            InputSource::Touch => r.key@ == ">>"@ && r.symbols@.len() == 0,
            InputSource::Gamepad(id) => exists|i: int| {
                let offset = sprite_offset(pads@[i]->0.kind) as int;
                let parts = binding_parts(settings.player1_controller_button_map.skip);
                &&& #[trigger] holds_pad(pads@, i, id)
                &&& r.key@ == parts_key(parts, parts.len() as int, offset, *rects)
                &&& r.symbols@ == parts_symbols(parts, parts.len() as int, offset, *rects)
            },
        },
{
    match source(history, pads, settings) {
        InputSource::Keyboard => BindingPrompt {
            key: crate::text::string_of(settings.player1_key_map.skip.name()),
            symbols: Vec::new(),
        },
        InputSource::Touch => BindingPrompt { key: crate::text::string_of(">>"), symbols: Vec::new() },
        InputSource::Gamepad(id) => {
            proof {
                law_hinted_pad_is_connected(history@, *settings, pads@, id);
            }
            let index = match pads.index_for_instance(id) {
                Some(index) => index,
                None => 0,
            };
            let offset = pads.get_gamepad_sprite_offset(index as usize);
            binding_prompt(settings.player1_controller_button_map.skip, offset, rects)
        },
    }
}

/// A key of player one's key map.
pub open spec fn key_bound(m: PlayerKeyMap, key: ScanCode) -> bool {
    ||| key == m.left
    ||| key == m.up
    ||| key == m.right
    ||| key == m.down
    ||| key == m.prev_weapon
    ||| key == m.next_weapon
    ||| key == m.jump
    ||| key == m.shoot
    ||| key == m.skip
    ||| key == m.inventory
    ||| key == m.map
    ||| key == m.strafe
    ||| key == m.menu_ok
    ||| key == m.menu_back
}

/// A binding uses `button`.
pub open spec fn uses_button(b: PlayerControllerInputType, button: Button) -> bool {
    match b {
        PlayerControllerInputType::ButtonInput(x) => x == button,
        PlayerControllerInputType::Either(x, _, _) => x == button,
        PlayerControllerInputType::EitherButtons(x, y) => x == button || y == button,
        PlayerControllerInputType::AxisInput(_, _) => false,
    }
}

/// A binding of player one's gamepad map uses `button`.
pub open spec fn button_bound(m: PlayerControllerButtonMap, button: Button) -> bool {
    ||| uses_button(m.left, button)
    ||| uses_button(m.up, button)
    ||| uses_button(m.right, button)
    ||| uses_button(m.down, button)
    ||| uses_button(m.prev_weapon, button)
    ||| uses_button(m.next_weapon, button)
    ||| uses_button(m.jump, button)
    ||| uses_button(m.shoot, button)
    ||| uses_button(m.skip, button)
    ||| uses_button(m.inventory, button)
    ||| uses_button(m.map, button)
    ||| uses_button(m.strafe, button)
    ||| uses_button(m.menu_ok, button)
    ||| uses_button(m.menu_back, button)
}

/// Every binding of player one's gamepad map counts, the map's included:
/// a button that any control's binding uses (either button of a pair, the
/// button of a button-or-stick binding) is one whose press can switch the
/// hints to the pad.
pub proof fn law_every_bound_button_counts(m: PlayerControllerButtonMap, c: ControlEntry, button: Button)
    ensures
        input_of(m, c) == PlayerControllerInputType::ButtonInput(button) ==> button_bound(m, button),
        input_of(m, c) matches PlayerControllerInputType::EitherButtons(x, y) && (x == button || y == button)
            ==> button_bound(m, button),
        input_of(m, c) matches PlayerControllerInputType::Either(x, _, _) && x == button ==> button_bound(m, button),
{
}

/// New activity on player one's pad makes it the hinted device: after a
/// press that counts (the pad's last activity changed and the pad is player
/// one's), the hints show that pad, whatever the history held.
pub proof fn law_new_activity_on_player_one_pad_shows_it(
    history: Seq<InputSource>,
    s: Settings,
    slots: Seq<Option<PadView>>,
    id: u32,
    before: u64,
    i: int,
)
    requires
        holds_pad(slots, i, id),
        slots[i]->0.last_input != before,
        i <= u32::MAX,
        player1_pad(s, slots, Some(i as u32)),
    ensures
        hint_source(after_pad_activity(history, slots, id, before, Some(i as u32)), s, slots) == InputSource::Gamepad(id),
{
    let h = after_pad_activity(history, slots, id, before, Some(i as u32));
    assert(h == without_source(history, InputSource::Gamepad(id)).push(InputSource::Gamepad(id)));
    assert(h.last() == InputSource::Gamepad(id));
    assert((i as u32) as int == i);
    if s.auto_controller_switching {
        assert(s.player2_controller_type != ControllerType::Gamepad(i as u32));
        let w = i;
        assert(holds_pad(slots, w, id) && s.player2_controller_type != ControllerType::Gamepad(w as u32));
        let g = InputSource::Gamepad(id);
        assert(!(g is Keyboard) && !(g is Touch) && g->0 == id);
        assert(usable(g, s, slots)) by {
            assert(holds_pad(slots, w, id));
        }
    } else {
        assert(s.player1_controller_type == ControllerType::Gamepad(i as u32));
        assert(assigned_pad(s, slots) == Some(id));
        assert(usable(InputSource::Gamepad(id), s, slots));
    }
}

fn binding_uses(b: PlayerControllerInputType, button: Button) -> (r: bool)
    ensures
        r == uses_button(b, button),
{
    match b {
        PlayerControllerInputType::ButtonInput(x) => x == button,
        PlayerControllerInputType::Either(x, _, _) => x == button,
        PlayerControllerInputType::EitherButtons(x, y) => x == button || y == button,
        PlayerControllerInputType::AxisInput(_, _) => false,
    }
}

/// Whether `key` is one of the keys of `m`, Escape or Return.
fn key_listed(m: &PlayerKeyMap, key: ScanCode) -> (r: bool)
    ensures
        r == (key_bound(*m, key) || key == ScanCode::Escape || key == ScanCode::Return),
{
    if key == ScanCode::Escape || key == ScanCode::Return {
        return true;
    }
    let keys = [
        m.left, m.up, m.right, m.down, m.prev_weapon, m.next_weapon, m.jump, m.shoot, m.skip, m.inventory,
        m.map, m.strafe, m.menu_ok, m.menu_back,
    ];
    let mut i: usize = 0;
    while i < 14
        invariant
            i <= 14,
            keys@ == seq![
                m.left, m.up, m.right, m.down, m.prev_weapon, m.next_weapon, m.jump, m.shoot, m.skip,
                m.inventory, m.map, m.strafe, m.menu_ok, m.menu_back,
            ],
            forall|j: int| 0 <= j < i ==> keys@[j] != key,
        decreases 14 - i,
    {
        if keys[i] == key {
            return true;
        }
        i = i + 1;
    }
    assert(!key_bound(*m, key)) by {
        assert(keys@[0] != key && keys@[1] != key && keys@[2] != key && keys@[3] != key);
        assert(keys@[4] != key && keys@[5] != key && keys@[6] != key && keys@[7] != key);
        assert(keys@[8] != key && keys@[9] != key && keys@[10] != key && keys@[11] != key);
        assert(keys@[12] != key && keys@[13] != key);
    }
    false
}

/// Notes a key press: a new press of one of player one's keys, or of Escape
/// or Return, makes the keyboard the hinted device. `was_pressed` tells
/// whether the key was already held.
pub fn prompt_key(history: &mut PromptHistory, settings: &Settings, key: ScanCode, pressed: bool, was_pressed: bool)
    ensures
        final(history)@ == if pressed && !was_pressed && (key_bound(settings.player1_key_map, key)
            || key == ScanCode::Escape || key == ScanCode::Return) {
            without_source(old(history)@, InputSource::Keyboard).push(InputSource::Keyboard)
        } else {
            old(history)@
        },
{
    let listed = key_listed(&settings.player1_key_map, key);
    if pressed && !was_pressed && listed {
        history.record(InputSource::Keyboard);
    }
}

/// The history after activity on the pad `id` that was used last at `before`:
/// the pad becomes the hinted device where it has new activity and is player
/// one's pad `p1`.
pub open spec fn after_pad_activity(
    history: Seq<InputSource>,
    slots: Seq<Option<PadView>>,
    id: u32,
    before: u64,
    p1: Option<u32>,
) -> Seq<InputSource> {
    if exists|i: int| holds_pad(slots, i, id) && slots[i]->0.last_input != before && p1 == Some(i as u32) {
        without_source(history, InputSource::Gamepad(id)).push(InputSource::Gamepad(id))
    } else {
        history
    }
}

/// Notes activity on the pad `id`, which had been used last at `before`.
pub fn prompt_gamepad_activity(history: &mut PromptHistory, pads: &GamepadContext, settings: &Settings, id: u32, before: u64)
    requires
        pads.wf(),
        pads@.len() <= u32::MAX,
    ensures
        exists|p1: Option<u32>| #[trigger] player1_pad(*settings, pads@, p1)
            && final(history)@ == after_pad_activity(old(history)@, pads@, id, before, p1),
{
    let p1 = settings.player1_gamepad_index(pads);
    match pads.index_for_instance(id) {
        Some(index) => {
            proof {
                assert forall|k: int| holds_pad(pads@, k, id) implies k == index as int by {
                    if k != index as int {
                        assert(pads@[k]->0.id != pads@[index as int]->0.id);
                    }
                }
            }
            if pads.last_input(index) != before && p1 == Some(index) {
                history.record(InputSource::Gamepad(id));
            }
        },
        None => {},
    }
}

/// The sequence number of the last activity of the pad `id`, none where it
/// is not connected.
pub open spec fn last_input_of(slots: Seq<Option<PadView>>, id: u32) -> u64 {
    if connected(slots, id) {
        slots[choose|i: int| holds_pad(slots, i, id)]->0.last_input
    } else {
        0
    }
}

/// A button press or release on the pad `id`: the pad records it, and a
/// press of a button player one uses (or of Start) may make the pad the
/// hinted device.
pub fn prompt_button(
    history: &mut PromptHistory,
    pads: &mut GamepadContext,
    settings: &Settings,
    id: u32,
    button: Button,
    pressed: bool,
)
    requires
        old(pads).wf(),
        old(pads)@.len() <= u32::MAX,
        old(pads).input_sequence() < u64::MAX,
    ensures
        final(pads).wf(),
        final(pads).input_sequence() == if press_activates(old(pads)@, id, button, pressed) {
            (old(pads).input_sequence() + 1) as u64
        } else {
            old(pads).input_sequence()
        },
        !connected(old(pads)@, id) ==> final(pads)@ == old(pads)@,
        forall|i: int| holds_pad(old(pads)@, i, id) ==> final(pads)@ == old(pads)@.update(
            i,
            Some(pressed_after(
                old(pads)@[i]->0,
                button,
                pressed,
                press_activates(old(pads)@, id, button, pressed),
                final(pads).input_sequence(),
            )),
        ),
        (button == Button::Start || button_bound(settings.player1_controller_button_map, button)) ==> exists|p1: Option<u32>|
            #[trigger] player1_pad(*settings, final(pads)@, p1) && final(history)@ == after_pad_activity(
                old(history)@,
                final(pads)@,
                id,
                last_input_of(old(pads)@, id),
                p1,
            ),
        !(button == Button::Start || button_bound(settings.player1_controller_button_map, button))
            ==> final(history)@ == old(history)@,
{
    let before = match pads.index_for_instance(id) {
        Some(index) => pads.last_input(index),
        None => 0,
    };
    proof {
        if connected(pads@, id) {
            let k = choose|i: int| holds_pad(pads@, i, id);
            let found = pads@.len();
            assert forall|j: int| holds_pad(pads@, j, id) implies j == k by {
                if j != k {
                    assert(pads@[j]->0.id != pads@[k]->0.id);
                }
            }
        }
    }
    assert(before == last_input_of(pads@, id));
    pads.set_button(id, button, pressed);
    let m = settings.player1_controller_button_map;
    let mapped = button == Button::Start || binding_uses(m.left, button) || binding_uses(m.up, button)
        || binding_uses(m.right, button) || binding_uses(m.down, button) || binding_uses(m.prev_weapon, button)
        || binding_uses(m.next_weapon, button) || binding_uses(m.jump, button) || binding_uses(m.shoot, button)
        || binding_uses(m.skip, button) || binding_uses(m.inventory, button) || binding_uses(m.map, button)
        || binding_uses(m.strafe, button) || binding_uses(m.menu_ok, button) || binding_uses(m.menu_back, button);
    if mapped {
        prompt_gamepad_activity(history, pads, settings, id, before);
    }
}

/// A touch: makes the touch controls the hinted device while they are enabled.
pub fn prompt_touch(history: &mut PromptHistory, enabled: bool)
    ensures
        final(history)@ == if enabled {
            without_source(old(history)@, InputSource::Touch).push(InputSource::Touch)
        } else {
            old(history)@
        },
{
    if enabled {
        history.record(InputSource::Touch);
    }
}

/// The direction in which a binding reads `axis`, if it reads it.
pub open spec fn axis_direction_of(b: PlayerControllerInputType, axis: Axis) -> Option<AxisDirection> {
    match b {
        PlayerControllerInputType::AxisInput(a, d) => if a == axis { Some(d) } else { None },
        PlayerControllerInputType::Either(_, a, d) => if a == axis { Some(d) } else { None },
        _ => None,
    }
}

/// The bindings of a gamepad map, in the order of its controls.
pub open spec fn map_bindings(m: PlayerControllerButtonMap) -> Seq<PlayerControllerInputType> {
    seq![
        m.left,
        m.up,
        m.right,
        m.down,
        m.prev_weapon,
        m.next_weapon,
        m.jump,
        m.shoot,
        m.skip,
        m.inventory,
        m.map,
        m.strafe,
        m.menu_ok,
        m.menu_back,
    ]
}

/// The directions in which the first `n` bindings read `axis`, in order.
pub open spec fn directions_of(bindings: Seq<PlayerControllerInputType>, axis: Axis, n: int) -> Seq<AxisDirection>
    decreases n,
{
    if n <= 0 {
        Seq::empty()
    } else {
        let rest = directions_of(bindings, axis, n - 1);
        match axis_direction_of(bindings[n - 1], axis) {
            Some(d) => rest.push(d),
            None => rest,
        }
    }
}

/// The directions in which the bindings of `map` read `axis`: a movement of
/// that axis is a bound input where it goes in one of them.
pub fn bound_directions(map: &PlayerControllerButtonMap, axis: Axis) -> (r: Vec<AxisDirection>)
    ensures
        r@ == directions_of(map_bindings(*map), axis, 14),
{
    let bindings = vec![
        map.left,
        map.up,
        map.right,
        map.down,
        map.prev_weapon,
        map.next_weapon,
        map.jump,
        map.shoot,
        map.skip,
        map.inventory,
        map.map,
        map.strafe,
        map.menu_ok,
        map.menu_back,
    ];
    assert(bindings@ =~= map_bindings(*map));
    let mut r: Vec<AxisDirection> = Vec::new();
    let mut i: usize = 0;
    while i < bindings.len()
        invariant
            i <= bindings@.len() == 14,
            bindings@ == map_bindings(*map),
            r@ == directions_of(bindings@, axis, i as int),
        decreases bindings@.len() - i,
    {
        match bindings[i] {
            PlayerControllerInputType::AxisInput(a, d) => {
                if a == axis {
                    r.push(d);
                }
            },
            PlayerControllerInputType::Either(_, a, d) => {
                if a == axis {
                    r.push(d);
                }
            },
            _ => {},
        }
        i = i + 1;
    }
    r
}

} // verus!
