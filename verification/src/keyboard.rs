//! Keyboard keys, by the names the engine's key maps store.
use vstd::prelude::*;

verus! {

/// A physical key.
#[derive(Clone, Copy, Debug, PartialEq, Eq, Hash, Structural)]
pub enum ScanCode {
    Key1,
    Key2,
    Key3,
    Key4,
    Key5,
    Key6,
    Key7,
    Key8,
    Key9,
    Key0,
    A,
    B,
    C,
    D,
    E,
    F,
    G,
    H,
    I,
    J,
    K,
    L,
    M,
    N,
    O,
    P,
    Q,
    R,
    S,
    T,
    U,
    V,
    W,
    X,
    Y,
    Z,
    Escape,
    F1,
    F2,
    F3,
    F4,
    F5,
    F6,
    F7,
    F8,
    F9,
    F10,
    F11,
    F12,
    Insert,
    Home,
    Delete,
    End,
    PageDown,
    PageUp,
    Left,
    Up,
    Right,
    Down,
    Back,
    Return,
    Space,
    Apostrophe,
    Backslash,
    Comma,
    Equals,
    Grave,
    LAlt,
    LBracket,
    LControl,
    LShift,
    Minus,
    Period,
    RAlt,
    RBracket,
    RControl,
    RShift,
    Semicolon,
    Slash,
    Tab,
}

/// The name of a key, as debug output writes it.
pub open spec fn key_name(k: ScanCode) -> Seq<char> {
    match k {
        ScanCode::Key1 => "Key1"@,
        ScanCode::Key2 => "Key2"@,
        ScanCode::Key3 => "Key3"@,
        ScanCode::Key4 => "Key4"@,
        ScanCode::Key5 => "Key5"@,
        ScanCode::Key6 => "Key6"@,
        ScanCode::Key7 => "Key7"@,
        ScanCode::Key8 => "Key8"@,
        ScanCode::Key9 => "Key9"@,
        ScanCode::Key0 => "Key0"@,
        ScanCode::A => "A"@,
        ScanCode::B => "B"@,
        ScanCode::C => "C"@,
        ScanCode::D => "D"@,
        ScanCode::E => "E"@,
        ScanCode::F => "F"@,
        ScanCode::G => "G"@,
        ScanCode::H => "H"@,
        ScanCode::I => "I"@,
        ScanCode::J => "J"@,
        ScanCode::K => "K"@,
        ScanCode::L => "L"@,
        ScanCode::M => "M"@,
        ScanCode::N => "N"@,
        ScanCode::O => "O"@,
        ScanCode::P => "P"@,
        ScanCode::Q => "Q"@,
        ScanCode::R => "R"@,
        ScanCode::S => "S"@,
        ScanCode::T => "T"@,
        ScanCode::U => "U"@,
        ScanCode::V => "V"@,
        ScanCode::W => "W"@,
        ScanCode::X => "X"@,
        ScanCode::Y => "Y"@,
        ScanCode::Z => "Z"@,
        ScanCode::Escape => "Escape"@,
        ScanCode::F1 => "F1"@,
        ScanCode::F2 => "F2"@,
        ScanCode::F3 => "F3"@,
        ScanCode::F4 => "F4"@,
        ScanCode::F5 => "F5"@,
        ScanCode::F6 => "F6"@,
        ScanCode::F7 => "F7"@,
        ScanCode::F8 => "F8"@,
        ScanCode::F9 => "F9"@,
        ScanCode::F10 => "F10"@,
        ScanCode::F11 => "F11"@,
        ScanCode::F12 => "F12"@,
        ScanCode::Insert => "Insert"@,
        ScanCode::Home => "Home"@,
        ScanCode::Delete => "Delete"@,
        ScanCode::End => "End"@,
        ScanCode::PageDown => "PageDown"@,
        ScanCode::PageUp => "PageUp"@,
        ScanCode::Left => "Left"@,
        ScanCode::Up => "Up"@,
        ScanCode::Right => "Right"@,
        ScanCode::Down => "Down"@,
        ScanCode::Back => "Back"@,
        ScanCode::Return => "Return"@,
        ScanCode::Space => "Space"@,
        ScanCode::Apostrophe => "Apostrophe"@,
        ScanCode::Backslash => "Backslash"@,
        ScanCode::Comma => "Comma"@,
        ScanCode::Equals => "Equals"@,
        ScanCode::Grave => "Grave"@,
        ScanCode::LAlt => "LAlt"@,
        ScanCode::LBracket => "LBracket"@,
        ScanCode::LControl => "LControl"@,
        ScanCode::LShift => "LShift"@,
        ScanCode::Minus => "Minus"@,
        ScanCode::Period => "Period"@,
        ScanCode::RAlt => "RAlt"@,
        ScanCode::RBracket => "RBracket"@,
        ScanCode::RControl => "RControl"@,
        ScanCode::RShift => "RShift"@,
        ScanCode::Semicolon => "Semicolon"@,
        ScanCode::Slash => "Slash"@,
        ScanCode::Tab => "Tab"@,
    }
}

impl ScanCode {
    /// The name of the key.
    pub fn name(&self) -> (r: &'static str)
        ensures
            r@ == key_name(*self),
    {
        match self {
            ScanCode::Key1 => "Key1",
            ScanCode::Key2 => "Key2",
            ScanCode::Key3 => "Key3",
            ScanCode::Key4 => "Key4",
            ScanCode::Key5 => "Key5",
            ScanCode::Key6 => "Key6",
            ScanCode::Key7 => "Key7",
            ScanCode::Key8 => "Key8",
            ScanCode::Key9 => "Key9",
            ScanCode::Key0 => "Key0",
            ScanCode::A => "A",
            ScanCode::B => "B",
            ScanCode::C => "C",
            ScanCode::D => "D",
            ScanCode::E => "E",
            ScanCode::F => "F",
            ScanCode::G => "G",
            ScanCode::H => "H",
            ScanCode::I => "I",
            ScanCode::J => "J",
            ScanCode::K => "K",
            ScanCode::L => "L",
            ScanCode::M => "M",
            ScanCode::N => "N",
            ScanCode::O => "O",
            ScanCode::P => "P",
            ScanCode::Q => "Q",
            ScanCode::R => "R",
            ScanCode::S => "S",
            ScanCode::T => "T",
            ScanCode::U => "U",
            ScanCode::V => "V",
            ScanCode::W => "W",
            ScanCode::X => "X",
            ScanCode::Y => "Y",
            ScanCode::Z => "Z",
            ScanCode::Escape => "Escape",
            ScanCode::F1 => "F1",
            ScanCode::F2 => "F2",
            ScanCode::F3 => "F3",
            ScanCode::F4 => "F4",
            ScanCode::F5 => "F5",
            ScanCode::F6 => "F6",
            ScanCode::F7 => "F7",
            ScanCode::F8 => "F8",
            ScanCode::F9 => "F9",
            ScanCode::F10 => "F10",
            ScanCode::F11 => "F11",
            ScanCode::F12 => "F12",
            ScanCode::Insert => "Insert",
            ScanCode::Home => "Home",
            ScanCode::Delete => "Delete",
            ScanCode::End => "End",
            ScanCode::PageDown => "PageDown",
            ScanCode::PageUp => "PageUp",
            ScanCode::Left => "Left",
            ScanCode::Up => "Up",
            ScanCode::Right => "Right",
            ScanCode::Down => "Down",
            ScanCode::Back => "Back",
            ScanCode::Return => "Return",
            ScanCode::Space => "Space",
            ScanCode::Apostrophe => "Apostrophe",
            ScanCode::Backslash => "Backslash",
            ScanCode::Comma => "Comma",
            ScanCode::Equals => "Equals",
            ScanCode::Grave => "Grave",
            ScanCode::LAlt => "LAlt",
            ScanCode::LBracket => "LBracket",
            ScanCode::LControl => "LControl",
            ScanCode::LShift => "LShift",
            ScanCode::Minus => "Minus",
            ScanCode::Period => "Period",
            ScanCode::RAlt => "RAlt",
            ScanCode::RBracket => "RBracket",
            ScanCode::RControl => "RControl",
            ScanCode::RShift => "RShift",
            ScanCode::Semicolon => "Semicolon",
            ScanCode::Slash => "Slash",
            ScanCode::Tab => "Tab",
        }
    }
}

} // verus!
