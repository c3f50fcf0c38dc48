//! Gamepad buttons, axes and bindings.
use vstd::prelude::*;

verus! {

/// Controller model.
#[derive(Clone, Copy, Debug, PartialEq, Eq, Hash, Structural)]
pub enum GamepadType {
    Unknown,
    Xbox360,
    XboxOne,
    PS3,
    PS4,
    NintendoSwitchPro,
    Virtual,
    PS5,
    AmazonLuma,
    GoogleStadia,
    NVIDIAShield,
    NintendoSwitchJoyConLeft,
    NintendoSwitchJoyConRight,
    NintendoSwitchJoyConPair,
}

impl GamepadType {
    /// The display name of the controller model.
    pub fn get_name(&self) -> (r: &'static str)
        ensures
            r@ == gamepad_name(*self),
    {
        match self {
            GamepadType::Unknown => "Unknown controller",
            GamepadType::Xbox360 => "Xbox 360 controller",
            GamepadType::XboxOne => "Xbox One controller",
            GamepadType::PS3 => "PlayStation 3 controller",
            GamepadType::PS4 => "PlayStation 4 controller",
            GamepadType::NintendoSwitchPro => "Nintendo Switch Pro controller",
            GamepadType::Virtual => "Virtual controller",
            GamepadType::PS5 => "PlayStation 5 controller",
            GamepadType::AmazonLuma => "Amazon Luma controller",
            GamepadType::GoogleStadia => "Google Stadia controller",
            GamepadType::NVIDIAShield => "NVIDIA Shield controller",
            GamepadType::NintendoSwitchJoyConLeft => "Nintendo Switch Joy-Con (left)",
            GamepadType::NintendoSwitchJoyConRight => "Nintendo Switch Joy-Con (right)",
            GamepadType::NintendoSwitchJoyConPair => "Nintendo Switch Joy-Con (pair)",
        }
    }
}

/// The display name of each controller model.
pub open spec fn gamepad_name(t: GamepadType) -> Seq<char> {
    match t {
        GamepadType::Unknown => "Unknown controller"@,
        GamepadType::Xbox360 => "Xbox 360 controller"@,
        GamepadType::XboxOne => "Xbox One controller"@,
        GamepadType::PS3 => "PlayStation 3 controller"@,
        GamepadType::PS4 => "PlayStation 4 controller"@,
        GamepadType::NintendoSwitchPro => "Nintendo Switch Pro controller"@,
        GamepadType::Virtual => "Virtual controller"@,
        GamepadType::PS5 => "PlayStation 5 controller"@,
        GamepadType::AmazonLuma => "Amazon Luma controller"@,
        GamepadType::GoogleStadia => "Google Stadia controller"@,
        GamepadType::NVIDIAShield => "NVIDIA Shield controller"@,
        GamepadType::NintendoSwitchJoyConLeft => "Nintendo Switch Joy-Con (left)"@,
        GamepadType::NintendoSwitchJoyConRight => "Nintendo Switch Joy-Con (right)"@,
        GamepadType::NintendoSwitchJoyConPair => "Nintendo Switch Joy-Con (pair)"@,
    }
}

/// An analog axis.
#[derive(Clone, Copy, Debug, PartialEq, Eq, Hash, Structural)]
pub enum Axis {
    LeftX,
    LeftY,
    RightX,
    RightY,
    TriggerLeft,
    TriggerRight,
}

/// The direction in which an axis binding fires.
#[derive(Clone, Copy, Debug, PartialEq, Eq, Hash, Structural)]
pub enum AxisDirection {
    NoDirection,
    Either,
    Up,
    Left,
    Right,
    Down,
}

/// A gamepad button.
#[derive(Clone, Copy, Debug, PartialEq, Eq, Hash, Structural)]
pub enum Button {
    South,
    East,
    West,
    North,
    Back,
    Guide,
    Start,
    LeftStick,
    RightStick,
    LeftShoulder,
    RightShoulder,
    DPadUp,
    DPadDown,
    DPadLeft,
    DPadRight,
}

/// What a control is bound to on a gamepad.
#[derive(Clone, Copy, Debug, PartialEq, Eq, Hash, Structural)]
pub enum PlayerControllerInputType {
    ButtonInput(Button),
    EitherButtons(Button, Button),
    AxisInput(Axis, AxisDirection),
    Either(Button, Axis, AxisDirection),
}

/// A rectangle of a sprite sheet.
#[derive(Clone, Copy, Debug, PartialEq, Eq, Structural)]
pub struct Rect {
    pub left: u16,
    pub top: u16,
    pub right: u16,
    pub bottom: u16,
}

impl Rect {
    /// A rectangle by its edges.
    pub fn new(left: u16, top: u16, right: u16, bottom: u16) -> (r: Rect)
        ensures
            r == (Rect { left, top, right, bottom }),
    {
        Rect { left, top, right, bottom }
    }

    /// The width, none for a rectangle whose right edge is not past its left.
    pub fn width(&self) -> (r: u16)
        ensures
            r == if self.right >= self.left { (self.right - self.left) as u16 } else { 0 },
    {
        if self.right >= self.left {
            self.right - self.left
        } else {
            0
        }
    }
}

/// The pictures of buttons and axes, in four rows of controller models.
pub struct GamepadRects {
    /// By button, in declaration order.
    pub button_rects: [[Rect; 4]; 15],
    /// By axis, in declaration order.
    pub axis_rects: [[Rect; 4]; 6],
}

/// The position of a button in declaration order.
pub open spec fn button_index(b: Button) -> int {
    match b {
        Button::South => 0,
        Button::East => 1,
        Button::West => 2,
        Button::North => 3,
        Button::Back => 4,
        Button::Guide => 5,
        Button::Start => 6,
        Button::LeftStick => 7,
        Button::RightStick => 8,
        Button::LeftShoulder => 9,
        Button::RightShoulder => 10,
        Button::DPadUp => 11,
        Button::DPadDown => 12,
        Button::DPadLeft => 13,
        Button::DPadRight => 14,
    }
}

/// The position of an axis in declaration order.
pub open spec fn axis_index(a: Axis) -> int {
    match a {
        Axis::LeftX => 0,
        Axis::LeftY => 1,
        Axis::RightX => 2,
        Axis::RightY => 3,
        Axis::TriggerLeft => 4,
        Axis::TriggerRight => 5,
    }
}

/// The picture of a button in row `offset`; the Guide button has none.
pub open spec fn button_rect(b: Button, offset: int, rects: GamepadRects) -> Rect {
    if b == Button::Guide {
        Rect { left: 0, top: 0, right: 0, bottom: 0 }
    } else {
        rects.button_rects[button_index(b)][offset]
    }
}

/// The picture of a binding in row `offset`: that of its (first) button, or
/// of its axis.
pub open spec fn binding_rect(input: PlayerControllerInputType, offset: int, rects: GamepadRects) -> Rect {
    match input {
        PlayerControllerInputType::ButtonInput(b) => button_rect(b, offset, rects),
        PlayerControllerInputType::EitherButtons(b, _) => button_rect(b, offset, rects),
        PlayerControllerInputType::AxisInput(a, _) => rects.axis_rects[axis_index(a)][offset],
        PlayerControllerInputType::Either(b, _, _) => button_rect(b, offset, rects),
    }
}

impl Button {
    fn index(&self) -> (r: usize)
        ensures
            r == button_index(*self),
    {
        match self {
            Button::South => 0,
            Button::East => 1,
            Button::West => 2,
            Button::North => 3,
            Button::Back => 4,
            Button::Guide => 5,
            Button::Start => 6,
            Button::LeftStick => 7,
            Button::RightStick => 8,
            Button::LeftShoulder => 9,
            Button::RightShoulder => 10,
            Button::DPadUp => 11,
            Button::DPadDown => 12,
            Button::DPadLeft => 13,
            Button::DPadRight => 14,
        }
    }

    /// The picture of this button in row `offset`.
    pub fn get_rect(&self, offset: usize, rects: &GamepadRects) -> (r: Rect)
        requires
            offset < 4,
        ensures
            r == button_rect(*self, offset as int, *rects),
    {
        match self {
            Button::Guide => Rect::new(0, 0, 0, 0),
            _ => rects.button_rects[self.index()][offset],
        }
    }
}

impl Axis {
    fn index(&self) -> (r: usize)
        ensures
            r == axis_index(*self),
    {
        match self {
            Axis::LeftX => 0,
            Axis::LeftY => 1,
            Axis::RightX => 2,
            Axis::RightY => 3,
            Axis::TriggerLeft => 4,
            Axis::TriggerRight => 5,
        }
    }

    /// The picture of this axis in row `offset`.
    pub fn get_rect(&self, offset: usize, rects: &GamepadRects) -> (r: Rect)
        requires
            offset < 4,
        ensures
            r == rects.axis_rects[axis_index(*self)][offset as int],
    {
        rects.axis_rects[self.index()][offset]
    }
}

impl PlayerControllerInputType {
    /// The picture of this binding in row `offset`.
    pub fn get_rect(&self, offset: usize, rects: &GamepadRects) -> (r: Rect)
        requires
            offset < 4,
        ensures
            r == binding_rect(*self, offset as int, *rects),
    {
        match self {
            PlayerControllerInputType::ButtonInput(button) => button.get_rect(offset, rects),
            PlayerControllerInputType::EitherButtons(button, _) => button.get_rect(offset, rects),
            PlayerControllerInputType::AxisInput(axis, _) => axis.get_rect(offset, rects),
            PlayerControllerInputType::Either(button, _, _) => button.get_rect(offset, rects),
        }
    }
}

} // verus!
