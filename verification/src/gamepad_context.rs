//! Connected gamepads in stable session slots: pressed buttons, which pad was
//! used last, and the rumble each pad plays. Axis positions are floating
//! point and kept by the caller, which reports when an axis was pushed.
use vstd::prelude::*;
use crate::gamepad::{gamepad_name, Button, GamepadType, PlayerControllerInputType};
use crate::rumble::{accepts, saturating_mul_u32, RumbleEffect, RumblePlayback, NANOS_PER_MILLI};
use crate::settings::{opt_string_view, ControllerType, RumbleMode, Settings};
use crate::text::string_of;

verus! {

/// One connected gamepad.
pub struct GamepadData {
    pub instance_id: u32,
    pub controller_type: GamepadType,
    /// Input sequence number of the last real activity on this pad.
    pub last_input: u64,
    pub pressed: Vec<Button>,
    pub rumble: RumblePlayback,
}

/// A gamepad as values.
pub struct PadView {
    pub id: u32,
    pub kind: GamepadType,
    pub last_input: u64,
    pub pressed: Set<Button>,
    pub rumble: Option<(RumbleEffect, u64)>,
}

/// A gamepad as values.
pub open spec fn pad_view(d: GamepadData) -> PadView {
    PadView {
        id: d.instance_id,
        kind: d.controller_type,
        last_input: d.last_input,
        pressed: d.pressed@.to_set(),
        rumble: d.rumble@,
    }
}

/// A slot as values.
pub open spec fn slot_view(s: Option<GamepadData>) -> Option<PadView> {
    match s {
        Some(d) => Some(pad_view(d)),
        None => None,
    }
}

/// Gamepads in session slots; a slot keeps its number while another pad is
/// unplugged, so each player's assignment stays intact.
pub struct GamepadContext {
    gamepads: Vec<Option<GamepadData>>,
    input_sequence: u64,
}

impl View for GamepadContext {
    type V = Seq<Option<PadView>>;

    closed spec fn view(&self) -> Seq<Option<PadView>> {
        self.gamepads@.map_values(|s: Option<GamepadData>| slot_view(s))
    }
}

/// A motor command for the pad `instance_id`: strengths and duration.
#[derive(Clone, Copy, Debug, PartialEq, Eq, Structural)]
pub struct RumbleCommand {
    pub instance_id: u32,
    pub low: u16,
    pub high: u16,
    pub duration_ms: u32,
}

/// Times are nanoseconds on a clock that started with the game; it stays
/// far below this bound, which leaves room for any effect's end.
pub open spec fn time_in_range(now: u64) -> bool {
    now < 0x8000_0000_0000_0000
}

/// Slot `i` holds the pad with instance `id`.
pub open spec fn holds_pad(slots: Seq<Option<PadView>>, i: int, id: u32) -> bool {
    0 <= i < slots.len() && slots[i] is Some && slots[i]->0.id == id
}

/// Some slot holds the pad with instance `id`.
pub open spec fn connected(slots: Seq<Option<PadView>>, id: u32) -> bool {
    exists|i: int| holds_pad(slots, i, id)
}

/// No two pads share an instance.
pub open spec fn ids_distinct(slots: Seq<Option<PadView>>) -> bool {
    forall|i: int, j: int|
        0 <= i < slots.len() && 0 <= j < slots.len() && i != j && slots[i] is Some && slots[j] is Some
            ==> slots[i]->0.id != slots[j]->0.id
}

/// The first vacant slot, or the number of slots where none is.
pub open spec fn first_vacancy(slots: Seq<Option<PadView>>) -> int
    decreases slots.len(),
{
    if slots.len() == 0 {
        0
    } else if slots[0] is None {
        0
    } else {
        1 + first_vacancy(slots.drop_first())
    }
}

proof fn lemma_first_vacancy(slots: Seq<Option<PadView>>)
    ensures
        0 <= first_vacancy(slots) <= slots.len(),
        first_vacancy(slots) < slots.len() ==> slots[first_vacancy(slots)] is None,
        forall|j: int| 0 <= j < first_vacancy(slots) ==> slots[j] is Some,
    decreases slots.len(),
{
    if slots.len() > 0 && slots[0] is Some {
        let rest = slots.drop_first();
        lemma_first_vacancy(rest);
        assert forall|j: int| 0 <= j < first_vacancy(slots) implies slots[j] is Some by {
            if j > 0 {
                assert(slots[j] == rest[j - 1]);
            }
        }
    }
}

/// A newly connected pad with instance `id`.
pub open spec fn new_pad(id: u32) -> PadView {
    PadView { id, kind: GamepadType::Unknown, last_input: 0, pressed: Set::empty(), rumble: None }
}

/// The sprite row of a controller model's button pictures.
pub open spec fn sprite_offset(kind: GamepadType) -> usize {
    match kind {
        GamepadType::PS3 | GamepadType::PS4 | GamepadType::PS5 => 0,
        GamepadType::Xbox360 | GamepadType::XboxOne => 1,
        GamepadType::NintendoSwitchPro
        | GamepadType::NintendoSwitchJoyConLeft
        | GamepadType::NintendoSwitchJoyConRight
        | GamepadType::NintendoSwitchJoyConPair => 3,
        _ => 1,
    }
}

/// Whether `input` is held on a pad whose pressed buttons are `pressed`,
/// where `axis_held` says whether the input's axis part is pushed.
pub open spec fn input_held(pressed: Set<Button>, input: PlayerControllerInputType, axis_held: bool) -> bool {
    match input {
        PlayerControllerInputType::ButtonInput(b) => pressed.contains(b),
        PlayerControllerInputType::EitherButtons(a, b) => pressed.contains(a) || pressed.contains(b),
        PlayerControllerInputType::AxisInput(_, _) => axis_held,
        PlayerControllerInputType::Either(b, _, _) => pressed.contains(b) || axis_held,
    }
}

/// The pad chosen for automatic switching: among the present pads other than
/// slot `excluded`, the one used last, the lowest slot on a tie.
pub open spec fn chosen_for_auto(slots: Seq<Option<PadView>>, excluded: Option<u32>, i: int) -> bool {
    &&& 0 <= i < slots.len()
    &&& slots[i] is Some
    &&& excluded != Some(i as u32)
    &&& forall|j: int|
        0 <= j < slots.len() && slots[j] is Some && excluded != Some(j as u32) ==> (slots[j]->0.last_input
            < slots[i]->0.last_input || (slots[j]->0.last_input == slots[i]->0.last_input && i <= j))
}

impl GamepadContext {
    /// No pads.
    pub fn new() -> (r: GamepadContext)
        ensures
            r@.len() == 0,
            r.input_sequence() == 0,
    {
        GamepadContext { gamepads: Vec::new(), input_sequence: 0 }
    }

    /// The number of real activities seen on all pads.
    pub closed spec fn input_sequence(&self) -> u64 {
        self.input_sequence
    }

    /// The well-formed state: no instance in two slots.
    pub open spec fn wf(&self) -> bool {
        ids_distinct(self@)
    }

    /// The number of slots, vacant ones included.
    pub fn slot_count(&self) -> (r: usize)
        ensures
            r == self@.len(),
    {
        self.gamepads.len()
    }

    /// The sequence number read by callers.
    pub fn current_input_sequence(&self) -> (r: u64)
        ensures
            r == self.input_sequence(),
    {
        self.input_sequence
    }

    /// Finds the slot of the pad with instance `id`.
    fn find(&self, id: u32) -> (r: Option<usize>)
        ensures
            match r {
                Some(i) => holds_pad(self@, i as int, id),
                None => !connected(self@, id),
            },
    {
        let mut i: usize = 0;
        while i < self.gamepads.len()
            invariant
                i <= self@.len() == self.gamepads@.len(),
                forall|j: int| 0 <= j < i && self@[j] is Some ==> self@[j]->0.id != id,
            decreases self.gamepads@.len() - i,
        {
            match &self.gamepads[i] {
                Some(pad) => {
                    if pad.instance_id == id {
                        return Some(i);
                    }
                },
                None => {},
            }
            i = i + 1;
        }
        None
    }

    /// Connects the pad `instance_id` in the first vacant slot, or in a new
    /// one; a pad already connected is left alone.
    pub fn add_gamepad(&mut self, instance_id: u32)
        requires
            old(self).wf(),
        ensures
            final(self).wf(),
            final(self).input_sequence() == old(self).input_sequence(),
            if connected(old(self)@, instance_id) {
                final(self)@ == old(self)@
            } else if first_vacancy(old(self)@) < old(self)@.len() {
                final(self)@ == old(self)@.update(first_vacancy(old(self)@), Some(new_pad(instance_id)))
            } else {
                final(self)@ == old(self)@.push(Some(new_pad(instance_id)))
            },
    {
        proof {
            lemma_first_vacancy(self@);
        }
        match self.find(instance_id) {
            Some(_) => {
                return;
            },
            None => {},
        }
        let data = GamepadData {
            instance_id,
            controller_type: GamepadType::Unknown,
            last_input: 0,
            pressed: Vec::new(),
            rumble: RumblePlayback::default(),
        };
        assert(data.pressed@.to_set() =~= Set::empty());
        let mut i: usize = 0;
        while i < self.gamepads.len()
            invariant
                i <= self.gamepads@.len(),
                self == old(self),
                forall|j: int| 0 <= j < i ==> self.gamepads@[j] is Some,
            ensures
                i <= self.gamepads@.len(),
                self == old(self),
                forall|j: int| 0 <= j < i ==> self.gamepads@[j] is Some,
                i < self.gamepads@.len() ==> self.gamepads@[i as int] is None,
            decreases self.gamepads@.len() - i,
        {
            if self.gamepads[i].is_none() {
                break;
            }
            i = i + 1;
        }
        let ghost before = self@;
        proof {
            lemma_first_vacancy(before);
            assert forall|j: int| 0 <= j < i implies before[j] is Some by {
                assert(self.gamepads@[j] is Some);
            }
            if i < self.gamepads@.len() {
                assert(before[i as int] is None);
            }
        }
        if i < self.gamepads.len() {
            assert(i == first_vacancy(before));
            self.gamepads.set(i, Some(data));
            assert(self@ =~= before.update(i as int, Some(new_pad(instance_id))));
        } else {
            self.gamepads.push(Some(data));
            assert(self@ =~= before.push(Some(new_pad(instance_id))));
        }
        assert forall|a: int, b: int|
            0 <= a < self@.len() && 0 <= b < self@.len() && a != b && self@[a] is Some && self@[b] is Some
                implies self@[a]->0.id != self@[b]->0.id by {
            if a == i as int {
                assert(!holds_pad(before, b, instance_id));
            } else if b == i as int {
                assert(!holds_pad(before, a, instance_id));
            }
        }
    }
}

/// The buttons of `held` other than `button`.
fn without_button(held: &Vec<Button>, button: Button) -> (r: Vec<Button>)
    ensures
        r@.to_set() == held@.to_set().remove(button),
{
    broadcast use vstd::seq_lib::lemma_seq_contains_after_push;
    let mut r: Vec<Button> = Vec::new();
    let mut i: usize = 0;
    while i < held.len()
        invariant
            i <= held@.len(),
            forall|x: Button| r@.contains(x) <==> (x != button && held@.subrange(0, i as int).contains(x)),
        decreases held@.len() - i,
    {
        let b = held[i];
        assert(held@.subrange(0, i + 1) =~= held@.subrange(0, i as int).push(b));
        let ghost before = r@;
        if b != button {
            r.push(b);
        }
        proof {
            assert forall|x: Button| r@.contains(x) <==> (x != button && held@.subrange(0, i + 1).contains(x)) by {
                vstd::seq_lib::lemma_seq_contains_after_push(held@.subrange(0, i as int), b, x);
                vstd::seq_lib::lemma_seq_contains_after_push(before, b, x);
            }
        }
        i = i + 1;
    }
    assert(held@.subrange(0, held@.len() as int) =~= held@);
    assert(r@.to_set() =~= held@.to_set().remove(button));
    r
}

/// Whether `held` has `button`.
fn holds_button(held: &Vec<Button>, button: Button) -> (r: bool)
    ensures
        r == held@.to_set().contains(button),
{
    let mut i: usize = 0;
    while i < held.len()
        invariant
            i <= held@.len(),
            forall|j: int| 0 <= j < i ==> held@[j] != button,
        decreases held@.len() - i,
    {
        if held[i] == button {
            assert(held@.contains(button));
            return true;
        }
        i = i + 1;
    }
    false
}

/// The pad of `p` with its pressed buttons after `button` was pressed or
/// released, and marked as used at `sequence` when `activated`.
pub open spec fn pressed_after(p: PadView, button: Button, pressed: bool, activated: bool, sequence: u64) -> PadView {
    PadView {
        last_input: if activated { sequence } else { p.last_input },
        pressed: if pressed { p.pressed.insert(button) } else { p.pressed.remove(button) },
        ..p
    }
}

/// `slots` with the pad `id` disconnected: its slot vacant, the others as they were.
pub open spec fn without_pad(slots: Seq<Option<PadView>>, id: u32) -> Seq<Option<PadView>> {
    Seq::new(slots.len(), |i: int| if slots[i] is Some && slots[i]->0.id == id { None } else { slots[i] })
}

/// A disconnected pad is gone, and where every slot before its own is taken,
/// the next pad to connect takes its slot.
pub proof fn law_freed_slot_is_taken_next(slots: Seq<Option<PadView>>, id: u32, k: int)
    requires
        ids_distinct(slots),
        holds_pad(slots, k, id),
        forall|j: int| 0 <= j < k ==> (#[trigger] slots[j]) is Some,
    ensures
        !connected(without_pad(slots, id), id),
        first_vacancy(without_pad(slots, id)) == k,
        forall|j: int| 0 <= j < slots.len() && j != k ==> #[trigger] without_pad(slots, id)[j] == slots[j],
{
    let after = without_pad(slots, id);
    lemma_first_vacancy(after);
    assert(after[k] is None);
    assert forall|j: int| 0 <= j < k implies (#[trigger] after[j]) is Some by {
        assert(slots[j] is Some);
        assert(slots[j]->0.id != id);
    }
    assert forall|j: int| 0 <= j < slots.len() && j != k implies #[trigger] after[j] == slots[j] by {
        if slots[j] is Some {
            assert(slots[j]->0.id != id);
        }
    }
    if first_vacancy(after) < k {
        assert(after[first_vacancy(after)] is Some);
    }
}

/// A released button is not held, whatever else the press did.
pub proof fn law_released_button_is_not_held(p: PadView, button: Button, activated: bool, sequence: u64)
    ensures
        !pressed_after(p, button, false, activated, sequence).pressed.contains(button),
{
}

/// A press counts as activity when the button was not already held.
pub open spec fn press_activates(slots: Seq<Option<PadView>>, id: u32, button: Button, pressed: bool) -> bool {
    pressed && exists|i: int| holds_pad(slots, i, id) && !slots[i]->0.pressed.contains(button)
}

impl GamepadContext {
    /// Disconnects the pad `instance_id`, freeing its slot for the next pad;
    /// true when its motor was running and must be stopped.
    pub fn remove_gamepad(&mut self, instance_id: u32) -> (stop_motor: bool)
        requires
            old(self).wf(),
        ensures
            final(self).wf(),
            final(self).input_sequence() == old(self).input_sequence(),
            final(self)@ == without_pad(old(self)@, instance_id),
            stop_motor == exists|i: int| holds_pad(old(self)@, i, instance_id) && old(self)@[i]->0.rumble is Some,
    {
        let ghost before = self@;
        match self.find(instance_id) {
            None => {
                assert forall|k: int| 0 <= k < before.len() implies before[k] == (
                    if before[k] is Some && before[k]->0.id == instance_id { None } else { before[k] }) by {
                    assert(!holds_pad(before, k, instance_id));
                }
                assert(self@ =~= without_pad(before, instance_id));
                false
            },
            Some(i) => {
                let stop_motor = match &mut self.gamepads[i] {
                    Some(pad) => pad.rumble.stop(),
                    None => false,
                };
                self.gamepads.set(i, None);
                assert(self@ =~= without_pad(before, instance_id));
                stop_motor
            },
        }
    }

    /// Records the controller model of the pad `instance_id`.
    pub fn set_gamepad_type(&mut self, instance_id: u32, controller_type: GamepadType)
        requires
            old(self).wf(),
        ensures
            final(self).wf(),
            final(self).input_sequence() == old(self).input_sequence(),
            !connected(old(self)@, instance_id) ==> final(self)@ == old(self)@,
            forall|i: int| holds_pad(old(self)@, i, instance_id) ==> final(self)@ == old(self)@.update(
                i,
                Some(PadView { kind: controller_type, ..old(self)@[i]->0 }),
            ),
    {
        let ghost before = self@;
        match self.find(instance_id) {
            None => {},
            Some(i) => {
                match &mut self.gamepads[i] {
                    Some(pad) => {
                        pad.controller_type = controller_type;
                    },
                    None => {},
                }
                assert(self@ =~= before.update(i as int, Some(PadView { kind: controller_type, ..before[i as int]->0 })));
            },
        }
    }

    /// The sprite row for the button pictures of the pad in slot `index`
    /// (the Xbox row where the slot is vacant).
    pub fn get_gamepad_sprite_offset(&self, index: usize) -> (r: usize)
        ensures
            r == if index < self@.len() && self@[index as int] is Some {
                sprite_offset(self@[index as int]->0.kind)
            } else {
                1
            },
    {
        if index < self.gamepads.len() {
            match &self.gamepads[index] {
                Some(pad) => {
                    return match pad.controller_type {
                        GamepadType::PS3 | GamepadType::PS4 | GamepadType::PS5 => 0,
                        GamepadType::Xbox360 | GamepadType::XboxOne => 1,
                        GamepadType::NintendoSwitchPro
                        | GamepadType::NintendoSwitchJoyConLeft
                        | GamepadType::NintendoSwitchJoyConRight
                        | GamepadType::NintendoSwitchJoyConPair => 3,
                        _ => 1,
                    };
                },
                None => {},
            }
        }
        1
    }

    /// Records a button press or release on the pad `instance_id`. A press of
    /// a button not yet held is activity: it advances the input sequence and
    /// marks the pad as the one used last.
    pub fn set_button(&mut self, instance_id: u32, button: Button, pressed: bool)
        requires
            old(self).wf(),
            old(self).input_sequence() < u64::MAX,
        ensures
            final(self).wf(),
            ({
                let activated = press_activates(old(self)@, instance_id, button, pressed);
                let sequence = if activated { (old(self).input_sequence() + 1) as u64 } else { old(self).input_sequence() };
                &&& final(self).input_sequence() == sequence
                &&& !connected(old(self)@, instance_id) ==> final(self)@ == old(self)@
                &&& forall|i: int| holds_pad(old(self)@, i, instance_id) ==> final(self)@ == old(self)@.update(
                    i,
                    Some(pressed_after(old(self)@[i]->0, button, pressed, activated, sequence)),
                )
            }),
    {
        broadcast use vstd::seq_lib::lemma_seq_contains_after_push;
        let ghost before = self@;
        match self.find(instance_id) {
            None => {},
            Some(i) => {
                let activated = match &self.gamepads[i] {
                    Some(pad) => pressed && !holds_button(&pad.pressed, button),
                    None => false,
                };
                if activated {
                    self.input_sequence = self.input_sequence + 1;
                }
                let sequence = self.input_sequence;
                match &mut self.gamepads[i] {
                    Some(pad) => {
                        if activated {
                            pad.last_input = sequence;
                        }
                        if pressed {
                            if !holds_button(&pad.pressed, button) {
                                pad.pressed.push(button);
                            }
                        } else {
                            pad.pressed = without_button(&pad.pressed, button);
                        }
                    },
                    None => {},
                }
                proof {
                    let p = before[i as int]->0;
                    let q = self@[i as int]->0;
                    if pressed {
                        assert(q.pressed =~= p.pressed.insert(button));
                    }
                }
                assert(self@ =~= before.update(
                    i as int,
                    Some(pressed_after(before[i as int]->0, button, pressed, activated, sequence)),
                ));
            },
        }
    }

    /// Records how the caller judged a new axis position of the pad
    /// `instance_id`: a push past the pad's threshold (or to the other side)
    /// is activity, like a button press.
    pub fn set_axis_activity(&mut self, instance_id: u32, activated: bool)
        requires
            old(self).wf(),
            old(self).input_sequence() < u64::MAX,
        ensures
            final(self).wf(),
            ({
                let counts = activated && connected(old(self)@, instance_id);
                let sequence = if counts { (old(self).input_sequence() + 1) as u64 } else { old(self).input_sequence() };
                &&& final(self).input_sequence() == sequence
                &&& !counts ==> final(self)@ == old(self)@
                &&& counts ==> forall|i: int| holds_pad(old(self)@, i, instance_id) ==> final(self)@ == old(self)@.update(
                    i,
                    Some(PadView { last_input: sequence, ..old(self)@[i]->0 }),
                )
            }),
    {
        let ghost before = self@;
        if !activated {
            return;
        }
        match self.find(instance_id) {
            None => {},
            Some(i) => {
                self.input_sequence = self.input_sequence + 1;
                let sequence = self.input_sequence;
                match &mut self.gamepads[i] {
                    Some(pad) => {
                        pad.last_input = sequence;
                    },
                    None => {},
                }
                assert(self@ =~= before.update(i as int, Some(PadView { last_input: sequence, ..before[i as int]->0 })));
            },
        }
    }

    /// The buttons held on the pad in slot `index` (none where it is vacant).
    pub fn pressed_buttons(&self, index: u32) -> (r: Vec<Button>)
        ensures
            r@.to_set() == if (index as int) < self@.len() && self@[index as int] is Some {
                self@[index as int]->0.pressed
            } else {
                Set::<Button>::empty()
            },
    {
        let i = index as usize;
        if i < self.gamepads.len() {
            match &self.gamepads[i] {
                Some(pad) => {
                    let mut r: Vec<Button> = Vec::new();
                    let mut k: usize = 0;
                    while k < pad.pressed.len()
                        invariant
                            k <= pad.pressed@.len(),
                            r@ == pad.pressed@.subrange(0, k as int),
                        decreases pad.pressed@.len() - k,
                    {
                        r.push(pad.pressed[k]);
                        k = k + 1;
                    }
                    assert(r@ =~= pad.pressed@);
                    return r;
                },
                None => {},
            }
        }
        let r: Vec<Button> = Vec::new();
        assert(r@.to_set() =~= Set::<Button>::empty());
        r
    }

    /// Whether `button` is held on the pad in slot `index`.
    pub fn is_button_active(&self, index: u32, button: Button) -> (r: bool)
        ensures
            r == ((index as int) < self@.len() && self@[index as int] is Some
                && self@[index as int]->0.pressed.contains(button)),
    {
        let i = index as usize;
        if i < self.gamepads.len() {
            match &self.gamepads[i] {
                Some(pad) => {
                    return holds_button(&pad.pressed, button);
                },
                None => {},
            }
        }
        false
    }

    /// Whether the binding `input` is held on the pad in slot `index`, given
    /// whether its axis part is pushed there (`axis_held`, judged by the caller).
    pub fn is_active(&self, index: u32, input: &PlayerControllerInputType, axis_held: bool) -> (r: bool)
        ensures
            r == ((index as int) < self@.len() && self@[index as int] is Some
                && input_held(self@[index as int]->0.pressed, *input, axis_held)),
    {
        let i = index as usize;
        if i >= self.gamepads.len() || self.gamepads[i].is_none() {
            return false;
        }
        match input {
            PlayerControllerInputType::ButtonInput(b) => self.is_button_active(index, *b),
            PlayerControllerInputType::EitherButtons(a, b) => self.is_button_active(index, *a) || self.is_button_active(index, *b),
            PlayerControllerInputType::AxisInput(_, _) => axis_held,
            PlayerControllerInputType::Either(b, _, _) => self.is_button_active(index, *b) || axis_held,
        }
    }

    /// The instance of the pad in slot `index`.
    pub fn instance_id(&self, index: u32) -> (r: Option<u32>)
        ensures
            r == if (index as int) < self@.len() && self@[index as int] is Some {
                Some(self@[index as int]->0.id)
            } else {
                None
            },
    {
        let i = index as usize;
        if i < self.gamepads.len() {
            match &self.gamepads[i] {
                Some(pad) => {
                    return Some(pad.instance_id);
                },
                None => {},
            }
        }
        None
    }

    /// The model name of the pad in slot `index`, none where it is vacant.
    pub fn get_gamepad_name(&self, index: u32) -> (r: Option<String>)
        ensures
            opt_string_view(r) == if (index as int) < self@.len() && self@[index as int] is Some {
                Some(gamepad_name(self@[index as int]->0.kind))
            } else {
                None
            },
    {
        let i = index as usize;
        if i < self.gamepads.len() {
            match &self.gamepads[i] {
                Some(pad) => {
                    return Some(string_of(pad.controller_type.get_name()));
                },
                None => {},
            }
        }
        None
    }

    /// The slot of the pad `instance_id`.
    pub fn index_for_instance(&self, instance_id: u32) -> (r: Option<u32>)
        requires
            self@.len() <= u32::MAX,
        ensures
            match r {
                Some(i) => holds_pad(self@, i as int, instance_id),
                None => !connected(self@, instance_id),
            },
    {
        match self.find(instance_id) {
            Some(i) => Some(i as u32),
            None => None,
        }
    }

    /// The sequence number of the last activity on the pad in slot `index`.
    pub fn last_input(&self, index: u32) -> (r: u64)
        ensures
            r == if (index as int) < self@.len() && self@[index as int] is Some {
                self@[index as int]->0.last_input
            } else {
                0
            },
    {
        let i = index as usize;
        if i < self.gamepads.len() {
            match &self.gamepads[i] {
                Some(pad) => {
                    return pad.last_input;
                },
                None => {},
            }
        }
        0
    }

    /// The pad for a player who switches automatically: the one used last,
    /// leaving out slot `excluded` (another player's pad).
    pub fn automatic_gamepad_index(&self, excluded: Option<u32>) -> (r: Option<u32>)
        requires
            self@.len() <= u32::MAX,
        ensures
            match r {
                Some(i) => chosen_for_auto(self@, excluded, i as int),
                None => forall|j: int| 0 <= j < self@.len() && self@[j] is Some ==> excluded == Some(j as u32),
            },
    {
        let mut best: Option<u32> = None;
        let mut best_input: u64 = 0;
        let mut i: usize = 0;
        while i < self.gamepads.len()
            invariant
                i <= self@.len() <= u32::MAX,
                self@.len() == self.gamepads@.len(),
                match best {
                    Some(b) => {
                        &&& (b as int) < i
                        &&& self@[b as int] is Some
                        &&& excluded != Some(b)
                        &&& self@[b as int]->0.last_input == best_input
                        &&& forall|j: int| 0 <= j < i && self@[j] is Some && excluded != Some(j as u32)
                            ==> (self@[j]->0.last_input < best_input || (self@[j]->0.last_input == best_input && b <= j))
                    },
                    None => forall|j: int| 0 <= j < i && self@[j] is Some ==> excluded == Some(j as u32),
                },
            decreases self.gamepads@.len() - i,
        {
            let index = i as u32;
            match &self.gamepads[i] {
                Some(pad) => {
                    if excluded != Some(index) {
                        let better = match best {
                            None => true,
                            Some(_) => pad.last_input > best_input,
                        };
                        if better {
                            best = Some(index);
                            best_input = pad.last_input;
                        }
                    }
                },
                None => {},
            }
            i = i + 1;
        }
        best
    }
}

/// The classic effect of `ticks` game ticks at `tps` ticks per second.
pub open spec fn classic_effect(low: u16, high: u16, ticks: u32, tps: u32) -> RumbleEffect {
    RumbleEffect {
        low,
        high,
        priority: 3,
        duration_ms: (saturating_mul_u32(ticks as int, 1000) / (if tps == 0 { 1 } else { tps as int })) as u32,
    }
}

/// The motor command for `effect` offered at `now` to the pad in slot
/// `index`, where there is one and it plays the effect.
pub open spec fn command_of(slots: Seq<Option<PadView>>, index: Option<u32>, effect: RumbleEffect, now: u64) -> Seq<
    RumbleCommand,
> {
    match index {
        Some(i) => if present(slots, i as int) && accepts(slots[i as int]->0.rumble, effect, now) {
            seq![
                RumbleCommand {
                    instance_id: slots[i as int]->0.id,
                    low: effect.low,
                    high: effect.high,
                    duration_ms: effect.duration_ms,
                },
            ]
        } else {
            Seq::empty()
        },
        None => Seq::empty(),
    }
}

/// Slot `i` holds a pad.
pub open spec fn present(slots: Seq<Option<PadView>>, i: int) -> bool {
    0 <= i < slots.len() && slots[i] is Some
}

/// The pad in slot `i` after `effect` was offered to it at `now`.
pub open spec fn offered(p: PadView, effect: RumbleEffect, now: u64) -> PadView {
    if accepts(p.rumble, effect, now) {
        PadView { rumble: Some((effect, (now + effect.duration_ms * NANOS_PER_MILLI) as u64)), ..p }
    } else {
        p
    }
}

/// `r` may be player one's pad under `s`: with automatic switching, the pad
/// used last other than player two's; else player one's assigned pad if it is
/// connected.
pub open spec fn player1_pad(s: Settings, slots: Seq<Option<PadView>>, r: Option<u32>) -> bool {
    if s.auto_controller_switching {
        let excluded = match s.player2_controller_type {
            ControllerType::Gamepad(i) => Some(i),
            ControllerType::Keyboard => None,
        };
        match r {
            Some(i) => chosen_for_auto(slots, excluded, i as int),
            None => forall|j: int| present(slots, j) ==> excluded == Some(j as u32),
        }
    } else {
        r == match s.player1_controller_type {
            ControllerType::Gamepad(i) => if present(slots, i as int) { Some(i) } else { None },
            ControllerType::Keyboard => None,
        }
    }
}

/// Player one's pad is determined: the settings and the slots allow one
/// choice only, so contracts that name it by `player1_pad` are exact.
pub proof fn law_player1_pad_is_unique(s: Settings, slots: Seq<Option<PadView>>, a: Option<u32>, b: Option<u32>)
    requires
        player1_pad(s, slots, a),
        player1_pad(s, slots, b),
    ensures
        a == b,
{
    if s.auto_controller_switching {
        match (a, b) {
            (Some(i), Some(j)) => {
                assert(slots[j as int]->0.last_input <= slots[i as int]->0.last_input);
                assert(slots[i as int]->0.last_input <= slots[j as int]->0.last_input);
                assert(i as int <= j as int && j as int <= i as int);
            },
            (Some(i), None) => {
                assert(present(slots, i as int));
            },
            (None, Some(j)) => {
                assert(present(slots, j as int));
            },
            (None, None) => {},
        }
    }
}

/// Player two's rumbling pad under `s`, given player one's `p1`: the pad
/// assigned to player two, while two play, player two's rumble is on, the
/// pad is connected and is not player one's.
pub open spec fn player2_rumble_pad(s: Settings, slots: Seq<Option<PadView>>, two_players: bool, p1: Option<u32>) -> Option<u32> {
    if two_players && s.player2_rumble {
        match s.player2_controller_type {
            ControllerType::Gamepad(i) => if present(slots, i as int) && p1 != Some(i) { Some(i) } else { None },
            ControllerType::Keyboard => None,
        }
    } else {
        None
    }
}

/// The pads that rumble for players one and two.
pub open spec fn rumble_pads(s: Settings, slots: Seq<Option<PadView>>, two_players: bool, r: (Option<u32>, Option<u32>)) -> bool {
    &&& if s.player1_rumble { player1_pad(s, slots, r.0) } else { r.0 is None }
    &&& r.1 == player2_rumble_pad(s, slots, two_players, r.0)
}

/// Whether the pad in slot `i` must stop: it rumbles for no player, or for a
/// player in the original mode while an enhanced effect plays.
pub open spec fn must_stop(s: Settings, owners: (Option<u32>, Option<u32>), p: PadView, i: int) -> bool {
    let owner = if owners.0 == Some(i as u32) { 0int } else if owners.1 == Some(i as u32) { 1int } else { 2int };
    let enhanced = if owner == 0 {
        s.player1_rumble_mode == RumbleMode::Enhanced
    } else if owner == 1 {
        s.player2_rumble_mode == RumbleMode::Enhanced
    } else {
        false
    };
    owner == 2 || (!enhanced && (p.rumble matches Some((e, _)) && e.priority < 3))
}

/// The instances whose motors were running among the first `n` slots that
/// `stop` selects, in slot order.
pub open spec fn stopped_ids(slots: Seq<Option<PadView>>, stop: spec_fn(PadView, int) -> bool, n: int) -> Seq<u32>
    decreases n,
{
    if n <= 0 {
        Seq::empty()
    } else {
        let rest = stopped_ids(slots, stop, n - 1);
        let s = slots[n - 1];
        if s is Some && stop(s->0, n - 1) && s->0.rumble is Some {
            rest.push(s->0.id)
        } else {
            rest
        }
    }
}

/// The slots after the pads that `stop` selects forgot their effect.
pub open spec fn after_stops(slots: Seq<Option<PadView>>, stop: spec_fn(PadView, int) -> bool) -> Seq<Option<PadView>> {
    Seq::new(slots.len(), |i: int| {
        let s = slots[i];
        if s is Some && stop(s->0, i) {
            Some(PadView { rumble: None, ..s->0 })
        } else {
            s
        }
    })
}

/// A player whose rumble switch is off gets no rumbling pad: with player
/// one's switch off no pad rumbles for player one, and with player two's
/// off (or one player only) none rumbles for player two. Player two's pad is
/// one that is connected and is not player one's.
pub proof fn law_switched_off_players_get_no_rumble(
    s: Settings,
    slots: Seq<Option<PadView>>,
    two_players: bool,
    owners: (Option<u32>, Option<u32>),
)
    requires
        rumble_pads(s, slots, two_players, owners),
    ensures
        !s.player1_rumble ==> owners.0 is None,
        !s.player2_rumble || !two_players ==> owners.1 is None,
        owners.1 matches Some(i) ==> present(slots, i as int) && owners.0 != Some(i) && s.player2_controller_type
            == ControllerType::Gamepad(i),
{
}

/// Switching a player's rumble to the original scheme stops that player's
/// enhanced effects at the next reconcile: a pad rumbling for that player
/// with an enhanced (priority below 3) effect is stopped, while the settings
/// give the player the original scheme.
pub proof fn law_original_mode_stops_enhanced_effects(
    s: Settings,
    slots: Seq<Option<PadView>>,
    two_players: bool,
    owners: (Option<u32>, Option<u32>),
    i: int,
)
    requires
        rumble_pads(s, slots, two_players, owners),
        0 <= i < slots.len(),
        slots[i] is Some,
        slots[i]->0.rumble matches Some((e, _)) && e.priority < 3,
        (owners.0 == Some(i as u32) && s.player1_rumble_mode == RumbleMode::Original) || (owners.0 != Some(i as u32)
            && owners.1 == Some(i as u32) && s.player2_rumble_mode == RumbleMode::Original),
    ensures
        must_stop(s, owners, slots[i]->0, i),
        after_stops(slots, |p: PadView, j: int| must_stop(s, owners, p, j))[i] == Some(
            PadView { rumble: None, ..slots[i]->0 },
        ),
{
}

impl Settings {
    /// Player one's pad: with automatic switching the pad used last other
    /// than player two's; else the assigned pad if it is connected.
    pub fn player1_gamepad_index(&self, pads: &GamepadContext) -> (r: Option<u32>)
        requires
            pads@.len() <= u32::MAX,
        ensures
            player1_pad(*self, pads@, r),
    {
        if self.auto_controller_switching {
            let excluded = match self.player2_controller_type {
                ControllerType::Gamepad(index) => Some(index),
                ControllerType::Keyboard => None,
            };
            pads.automatic_gamepad_index(excluded)
        } else {
            match self.player1_controller_type {
                ControllerType::Gamepad(index) => match pads.instance_id(index) {
                    Some(_) => Some(index),
                    None => None,
                },
                ControllerType::Keyboard => None,
            }
        }
    }
}

impl GamepadContext {
    /// Offers `effect` to the pad in slot `index`; the motor command to send
    /// when the pad plays it.
    pub fn play_effect(&mut self, index: u32, effect: RumbleEffect, now: u64) -> (r: Option<RumbleCommand>)
        requires
            old(self).wf(),
            time_in_range(now),
        ensures
            final(self).wf(),
            final(self).input_sequence() == old(self).input_sequence(),
            !present(old(self)@, index as int) ==> final(self)@ == old(self)@ && r is None,
            present(old(self)@, index as int) ==> {
                let p = old(self)@[index as int]->0;
                &&& final(self)@ == old(self)@.update(index as int, Some(offered(p, effect, now)))
                &&& r == if accepts(p.rumble, effect, now) {
                    Some(RumbleCommand { instance_id: p.id, low: effect.low, high: effect.high, duration_ms: effect.duration_ms })
                } else {
                    None
                }
            },
    {
        let ghost before = self@;
        let i = index as usize;
        if i >= self.gamepads.len() {
            return None;
        }
        assert(effect.duration_ms * NANOS_PER_MILLI <= 0xFFFF_FFFF * 1_000_000) by (nonlinear_arith)
            requires
                effect.duration_ms <= 0xFFFF_FFFF,
        ;
        let r = match &mut self.gamepads[i] {
            Some(pad) => {
                if pad.rumble.accept(effect, now) {
                    Some(RumbleCommand { instance_id: pad.instance_id, low: effect.low, high: effect.high, duration_ms: effect.duration_ms })
                } else {
                    None
                }
            },
            None => None,
        };
        proof {
            if before[i as int] is Some {
                assert(self@ =~= before.update(i as int, Some(offered(before[i as int]->0, effect, now))));
            } else {
                assert(self@ =~= before);
            }
        }
        r
    }

    /// Plays the classic rumble on the pad in slot `index`.
    pub fn set_rumble(&mut self, index: u32, low: u16, high: u16, ticks: u32, tps: u32, now: u64) -> (r: Option<RumbleCommand>)
        requires
            old(self).wf(),
            time_in_range(now),
        ensures
            final(self).wf(),
            final(self).input_sequence() == old(self).input_sequence(),
            ({
                let effect = classic_effect(low, high, ticks, tps);
                &&& !present(old(self)@, index as int) ==> final(self)@ == old(self)@ && r is None
                &&& present(old(self)@, index as int) ==> {
                    let p = old(self)@[index as int]->0;
                    &&& final(self)@ == old(self)@.update(index as int, Some(offered(p, effect, now)))
                    &&& r == if accepts(p.rumble, effect, now) {
                        Some(RumbleCommand { instance_id: p.id, low, high, duration_ms: effect.duration_ms })
                    } else {
                        None
                    }
                }
            }),
    {
        let effect = RumbleEffect::original(low, high, ticks, tps);
        assert(effect == classic_effect(low, high, ticks, tps));
        self.play_effect(index, effect, now)
    }

    /// The pads that rumble for players one and two.
    pub fn rumble_indices(&self, settings: &Settings, two_players: bool) -> (r: (Option<u32>, Option<u32>))
        requires
            self@.len() <= u32::MAX,
        ensures
            rumble_pads(*settings, self@, two_players, r),
    {
        let p1 = if settings.player1_rumble {
            settings.player1_gamepad_index(self)
        } else {
            None
        };
        let p2 = if two_players && settings.player2_rumble {
            match settings.player2_controller_type {
                ControllerType::Gamepad(index) => {
                    if self.instance_id(index).is_some() && p1 != Some(index) {
                        Some(index)
                    } else {
                        None
                    }
                },
                ControllerType::Keyboard => None,
            }
        } else {
            None
        };
        (p1, p2)
    }

    /// Plays the classic rumble on the pads of both players; the motor
    /// commands to send.
    pub fn set_rumble_all(
        &mut self,
        settings: &Settings,
        two_players: bool,
        low: u16,
        high: u16,
        ticks: u32,
        tps: u32,
        now: u64,
    ) -> (r: Vec<RumbleCommand>)
        requires
            old(self).wf(),
            old(self)@.len() <= u32::MAX,
            time_in_range(now),
        ensures
            final(self).wf(),
            final(self).input_sequence() == old(self).input_sequence(),
            final(self)@.len() == old(self)@.len(),
            exists|owners: (Option<u32>, Option<u32>)| {
                &&& #[trigger] rumble_pads(*settings, old(self)@, two_players, owners)
                &&& forall|i: int| 0 <= i < old(self)@.len() ==> final(self)@[i] == if (owners.0 == Some(i as u32)
                    || owners.1 == Some(i as u32)) && old(self)@[i] is Some {
                    Some(offered(old(self)@[i]->0, classic_effect(low, high, ticks, tps), now))
                } else {
                    old(self)@[i]
                }
                &&& r@ == command_of(old(self)@, owners.0, classic_effect(low, high, ticks, tps), now) + command_of(
                    old(self)@,
                    owners.1,
                    classic_effect(low, high, ticks, tps),
                    now,
                )
            },
    {
        let ghost before = self@;
        let owners = self.rumble_indices(settings, two_players);
        let mut commands: Vec<RumbleCommand> = Vec::new();
        match owners.0 {
            Some(index) => match self.set_rumble(index, low, high, ticks, tps, now) {
                Some(c) => commands.push(c),
                None => {},
            },
            None => {},
        }
        let ghost middle = self@;
        match owners.1 {
            Some(index) => match self.set_rumble(index, low, high, ticks, tps, now) {
                Some(c) => commands.push(c),
                None => {},
            },
            None => {},
        }
        proof {
            let effect = classic_effect(low, high, ticks, tps);
            if let Some(j) = owners.1 {
                if owners.0 != Some(j) && present(before, j as int) {
                    assert(middle[j as int] == before[j as int]);
                }
            }
            assert(commands@ =~= command_of(before, owners.0, effect, now) + command_of(before, owners.1, effect, now));
            assert forall|i: int| 0 <= i < before.len() implies self@[i] == if (owners.0 == Some(i as u32)
                || owners.1 == Some(i as u32)) && before[i] is Some {
                Some(offered(before[i]->0, effect, now))
            } else {
                before[i]
            } by {
                if owners.0 == Some(i as u32) && owners.1 == Some(i as u32) {
                    assert(false);
                }
            }
        }
        commands
    }

    /// Stops, at once, the rumble that no longer belongs: on pads no player
    /// rumbles with, and enhanced effects on pads of players in the original
    /// mode; the instances whose motors must be stopped, in slot order.
    pub fn reconcile_rumble(&mut self, settings: &Settings, two_players: bool) -> (r: Vec<u32>)
        requires
            old(self).wf(),
            old(self)@.len() <= u32::MAX,
        ensures
            final(self).wf(),
            final(self).input_sequence() == old(self).input_sequence(),
            exists|owners: (Option<u32>, Option<u32>)| {
                let stop = |p: PadView, i: int| must_stop(*settings, owners, p, i);
                &&& #[trigger] rumble_pads(*settings, old(self)@, two_players, owners)
                &&& final(self)@ == after_stops(old(self)@, stop)
                &&& r@ == stopped_ids(old(self)@, stop, old(self)@.len() as int)
            },
    {
        let owners = self.rumble_indices(settings, two_players);
        let ghost stop = |p: PadView, i: int| must_stop(*settings, owners, p, i);
        let ghost before = self@;
        let mut stopped: Vec<u32> = Vec::new();
        let mut i: usize = 0;
        while i < self.gamepads.len()
            invariant
                i <= self.gamepads@.len() == before.len(),
                before.len() <= u32::MAX,
                stop == (|p: PadView, i: int| must_stop(*settings, owners, p, i)),
                forall|j: int| 0 <= j < i ==> self@[j] == after_stops(before, stop)[j],
                forall|j: int| i <= j < before.len() ==> self@[j] == before[j],
                stopped@ == stopped_ids(before, stop, i as int),
                self.input_sequence() == old(self).input_sequence(),
            decreases self.gamepads@.len() - i,
        {
            let index = i as u32;
            match &mut self.gamepads[i] {
                Some(pad) => {
                    let enhanced = if owners.0 == Some(index) {
                        settings.player1_rumble_mode == RumbleMode::Enhanced
                    } else if owners.1 == Some(index) {
                        settings.player2_rumble_mode == RumbleMode::Enhanced
                    } else {
                        false
                    };
                    let owned = owners.0 == Some(index) || owners.1 == Some(index);
                    if !owned || (!enhanced && pad.rumble.enhanced_active()) {
                        if pad.rumble.stop() {
                            stopped.push(pad.instance_id);
                        }
                    }
                },
                None => {},
            }
            i = i + 1;
        }
        assert(self@ =~= after_stops(before, stop));
        stopped
    }

    /// Stops every motor; the instances whose motors were running, in slot order.
    pub fn stop_rumble(&mut self) -> (r: Vec<u32>)
        requires
            old(self).wf(),
        ensures
            final(self).wf(),
            final(self).input_sequence() == old(self).input_sequence(),
            final(self)@ == after_stops(old(self)@, |p: PadView, i: int| true),
            r@ == stopped_ids(old(self)@, |p: PadView, i: int| true, old(self)@.len() as int),
    {
        let ghost stop = |p: PadView, i: int| true;
        let ghost before = self@;
        let mut stopped: Vec<u32> = Vec::new();
        let mut i: usize = 0;
        while i < self.gamepads.len()
            invariant
                i <= self.gamepads@.len() == before.len(),
                stop == (|p: PadView, i: int| true),
                forall|j: int| 0 <= j < i ==> self@[j] == after_stops(before, stop)[j],
                forall|j: int| i <= j < before.len() ==> self@[j] == before[j],
                stopped@ == stopped_ids(before, stop, i as int),
                self.input_sequence() == old(self).input_sequence(),
            decreases self.gamepads@.len() - i,
        {
            match &mut self.gamepads[i] {
                Some(pad) => {
                    if pad.rumble.stop() {
                        stopped.push(pad.instance_id);
                    }
                },
                None => {},
            }
            i = i + 1;
        }
        assert(self@ =~= after_stops(before, stop));
        stopped
    }
}

/// Quake rumble strengths: the low-frequency motor only.
pub const QUAKE_RUMBLE_LOW_FREQ: u16 = 0x3000;
pub const QUAKE_RUMBLE_HI_FREQ: u16 = 0;
pub const SUPER_QUAKE_RUMBLE_LOW_FREQ: u16 = 0x5000;
pub const SUPER_QUAKE_RUMBLE_HI_FREQ: u16 = 0;

/// Plays the quake rumble on the pad in slot `index`.
pub fn set_quake_rumble(pads: &mut GamepadContext, index: u32, ticks: u32, tps: u32, now: u64) -> (r: Option<RumbleCommand>)
    requires
        old(pads).wf(),
        time_in_range(now),
    ensures
        final(pads).wf(),
        final(pads).input_sequence() == old(pads).input_sequence(),
        present(old(pads)@, index as int) ==> final(pads)@ == old(pads)@.update(
            index as int,
            Some(offered(old(pads)@[index as int]->0, classic_effect(QUAKE_RUMBLE_LOW_FREQ, QUAKE_RUMBLE_HI_FREQ, ticks, tps), now)),
        ),
        !present(old(pads)@, index as int) ==> final(pads)@ == old(pads)@ && r is None,
        command_of(old(pads)@, Some(index), classic_effect(QUAKE_RUMBLE_LOW_FREQ, QUAKE_RUMBLE_HI_FREQ, ticks, tps), now) == match r {
            Some(c) => seq![c],
            None => Seq::<RumbleCommand>::empty(),
        },
{
    pads.set_rumble(index, QUAKE_RUMBLE_LOW_FREQ, QUAKE_RUMBLE_HI_FREQ, ticks, tps, now)
}

/// Plays the super quake rumble on the pad in slot `index`.
pub fn set_super_quake_rumble(pads: &mut GamepadContext, index: u32, ticks: u32, tps: u32, now: u64) -> (r: Option<RumbleCommand>)
    requires
        old(pads).wf(),
        time_in_range(now),
    ensures
        final(pads).wf(),
        final(pads).input_sequence() == old(pads).input_sequence(),
        present(old(pads)@, index as int) ==> final(pads)@ == old(pads)@.update(
            index as int,
            Some(offered(old(pads)@[index as int]->0, classic_effect(SUPER_QUAKE_RUMBLE_LOW_FREQ, SUPER_QUAKE_RUMBLE_HI_FREQ, ticks, tps), now)),
        ),
        !present(old(pads)@, index as int) ==> final(pads)@ == old(pads)@ && r is None,
        command_of(old(pads)@, Some(index), classic_effect(SUPER_QUAKE_RUMBLE_LOW_FREQ, SUPER_QUAKE_RUMBLE_HI_FREQ, ticks, tps), now) == match r {
            Some(c) => seq![c],
            None => Seq::<RumbleCommand>::empty(),
        },
{
    pads.set_rumble(index, SUPER_QUAKE_RUMBLE_LOW_FREQ, SUPER_QUAKE_RUMBLE_HI_FREQ, ticks, tps, now)
}

/// Plays the quake rumble on the pads of both players. Both motors get the
/// low-frequency strength, as the game has always sent it.
pub fn set_quake_rumble_all(
    pads: &mut GamepadContext,
    settings: &Settings,
    two_players: bool,
    ticks: u32,
    tps: u32,
    now: u64,
) -> (r: Vec<RumbleCommand>)
    requires
        old(pads).wf(),
        old(pads)@.len() <= u32::MAX,
        time_in_range(now),
    ensures
        final(pads).wf(),
        final(pads).input_sequence() == old(pads).input_sequence(),
        final(pads)@.len() == old(pads)@.len(),
        exists|owners: (Option<u32>, Option<u32>)| {
            &&& #[trigger] rumble_pads(*settings, old(pads)@, two_players, owners)
            &&& forall|i: int| 0 <= i < old(pads)@.len() ==> final(pads)@[i] == if (owners.0 == Some(i as u32)
                || owners.1 == Some(i as u32)) && old(pads)@[i] is Some {
                Some(offered(old(pads)@[i]->0, classic_effect(QUAKE_RUMBLE_LOW_FREQ, QUAKE_RUMBLE_LOW_FREQ, ticks, tps), now))
            } else {
                old(pads)@[i]
            }
            &&& r@ == command_of(old(pads)@, owners.0, classic_effect(QUAKE_RUMBLE_LOW_FREQ, QUAKE_RUMBLE_LOW_FREQ, ticks, tps), now) + command_of(
                old(pads)@,
                owners.1,
                classic_effect(QUAKE_RUMBLE_LOW_FREQ, QUAKE_RUMBLE_LOW_FREQ, ticks, tps),
                now,
            )
        },
{
    pads.set_rumble_all(settings, two_players, QUAKE_RUMBLE_LOW_FREQ, QUAKE_RUMBLE_LOW_FREQ, ticks, tps, now)
}

/// Plays the super quake rumble on the pads of both players (low-frequency
/// strength on both motors).
pub fn set_super_quake_rumble_all(
    pads: &mut GamepadContext,
    settings: &Settings,
    two_players: bool,
    ticks: u32,
    tps: u32,
    now: u64,
) -> (r: Vec<RumbleCommand>)
    requires
        old(pads).wf(),
        old(pads)@.len() <= u32::MAX,
        time_in_range(now),
    ensures
        final(pads).wf(),
        final(pads).input_sequence() == old(pads).input_sequence(),
        final(pads)@.len() == old(pads)@.len(),
        exists|owners: (Option<u32>, Option<u32>)| {
            &&& #[trigger] rumble_pads(*settings, old(pads)@, two_players, owners)
            &&& forall|i: int| 0 <= i < old(pads)@.len() ==> final(pads)@[i] == if (owners.0 == Some(i as u32)
                || owners.1 == Some(i as u32)) && old(pads)@[i] is Some {
                Some(offered(old(pads)@[i]->0, classic_effect(SUPER_QUAKE_RUMBLE_LOW_FREQ, SUPER_QUAKE_RUMBLE_LOW_FREQ, ticks, tps), now))
            } else {
                old(pads)@[i]
            }
            &&& r@ == command_of(old(pads)@, owners.0, classic_effect(SUPER_QUAKE_RUMBLE_LOW_FREQ, SUPER_QUAKE_RUMBLE_LOW_FREQ, ticks, tps), now) + command_of(
                old(pads)@,
                owners.1,
                classic_effect(SUPER_QUAKE_RUMBLE_LOW_FREQ, SUPER_QUAKE_RUMBLE_LOW_FREQ, ticks, tps),
                now,
            )
        },
{
    pads.set_rumble_all(settings, two_players, SUPER_QUAKE_RUMBLE_LOW_FREQ, SUPER_QUAKE_RUMBLE_LOW_FREQ, ticks, tps, now)
}

} // verus!
