//! Mapping of browser input events (DOM `KeyboardEvent.code`, `KeyboardEvent.key`,
//! `MouseEvent.button`) into the engine's input vocabulary.
use crate::text::str_eq;
use vstd::prelude::*;

verus! {

/// Whether a key or button went down or up.
#[derive(Debug, Clone, Copy, PartialEq, Eq, Hash, Structural)]
pub enum ButtonState {
    Pressed,
    Released,
}

/// The state of a key or button from the event's `pressed` flag.
pub fn button_state(pressed: bool) -> (s: ButtonState)
    ensures
        pressed ==> s == ButtonState::Pressed,
        !pressed ==> s == ButtonState::Released,
{
    if pressed {
        ButtonState::Pressed
    } else {
        ButtonState::Released
    }
}

/// A mouse button.
#[derive(Debug, Clone, Copy, PartialEq, Eq, Hash, Structural)]
pub enum MouseButton {
    Left,
    Middle,
    Right,
    Back,
    Forward,
    /// Any other button, by its number.
    Other(u16),
}

/// The mouse button that DOM button number `button` denotes: 0 to 4 are the named
/// buttons, any other number is kept as its 16-bit pattern.
pub open spec fn spec_web_mouse_button(button: i16) -> MouseButton {
    if button == 0 {
        MouseButton::Left
    } else if button == 1 {
        MouseButton::Middle
    } else if button == 2 {
        MouseButton::Right
    } else if button == 3 {
        MouseButton::Back
    } else if button == 4 {
        MouseButton::Forward
    } else {
        MouseButton::Other(button as u16)
    }
}

/// The mouse button of a DOM `MouseEvent.button` value.
pub fn web_mouse_button(button: i16) -> (b: MouseButton)
    ensures
        b == spec_web_mouse_button(button),
{
    match button {
        0 => MouseButton::Left,
        1 => MouseButton::Middle,
        2 => MouseButton::Right,
        3 => MouseButton::Back,
        4 => MouseButton::Forward,
        other => MouseButton::Other(other as u16),
    }
}

/// A physical key, by its position on the keyboard.
#[derive(Debug, Clone, Copy, PartialEq, Eq, Hash, Structural)]
pub enum KeyCode {
    Backspace,
    Delete,
    Enter,
    Escape,
    F1,
    F2,
    F3,
    F4,
    F5,
    F6,
    F7,
    F8,
    F9,
    F10,
    F11,
    F12,
    KeyA,
    KeyB,
    KeyC,
    KeyD,
    KeyE,
    KeyF,
    KeyG,
    KeyH,
    KeyI,
    KeyJ,
    KeyK,
    KeyL,
    KeyM,
    KeyN,
    KeyO,
    KeyP,
    KeyQ,
    KeyR,
    KeyS,
    KeyT,
    KeyU,
    KeyV,
    KeyW,
    KeyX,
    KeyY,
    KeyZ,
    Space,
    Tab,
    ArrowDown,
    ArrowLeft,
    ArrowRight,
    ArrowUp,
    ShiftLeft,
    ShiftRight,
    ControlLeft,
    ControlRight,
    AltLeft,
    AltRight,
    SuperLeft,
    SuperRight,
    /// A key without a name here.
    Unidentified,
}

/// The physical key that DOM code `code` denotes.
pub open spec fn spec_web_key_code(code: Seq<char>) -> KeyCode {
    if code == "Backspace"@ {
        KeyCode::Backspace
    } else if code == "Delete"@ {
        KeyCode::Delete
    } else if code == "Enter"@ {
        KeyCode::Enter
    } else if code == "Escape"@ {
        KeyCode::Escape
    } else if code == "F1"@ {
        KeyCode::F1
    } else if code == "F2"@ {
        KeyCode::F2
    } else if code == "F3"@ {
        KeyCode::F3
    } else if code == "F4"@ {
        KeyCode::F4
    } else if code == "F5"@ {
        KeyCode::F5
    } else if code == "F6"@ {
        KeyCode::F6
    } else if code == "F7"@ {
        KeyCode::F7
    } else if code == "F8"@ {
        KeyCode::F8
    } else if code == "F9"@ {
        KeyCode::F9
    } else if code == "F10"@ {
        KeyCode::F10
    } else if code == "F11"@ {
        KeyCode::F11
    } else if code == "F12"@ {
        KeyCode::F12
    } else if code == "KeyA"@ {
        KeyCode::KeyA
    } else if code == "KeyB"@ {
        KeyCode::KeyB
    } else if code == "KeyC"@ {
        KeyCode::KeyC
    } else if code == "KeyD"@ {
        KeyCode::KeyD
    } else if code == "KeyE"@ {
        KeyCode::KeyE
    } else if code == "KeyF"@ {
        KeyCode::KeyF
    } else if code == "KeyG"@ {
        KeyCode::KeyG
    } else if code == "KeyH"@ {
        KeyCode::KeyH
    } else if code == "KeyI"@ {
        KeyCode::KeyI
    } else if code == "KeyJ"@ {
        KeyCode::KeyJ
    } else if code == "KeyK"@ {
        KeyCode::KeyK
    } else if code == "KeyL"@ {
        KeyCode::KeyL
    } else if code == "KeyM"@ {
        KeyCode::KeyM
    } else if code == "KeyN"@ {
        KeyCode::KeyN
    } else if code == "KeyO"@ {
        KeyCode::KeyO
    } else if code == "KeyP"@ {
        KeyCode::KeyP
    } else if code == "KeyQ"@ {
        KeyCode::KeyQ
    } else if code == "KeyR"@ {
        KeyCode::KeyR
    } else if code == "KeyS"@ {
        KeyCode::KeyS
    } else if code == "KeyT"@ {
        KeyCode::KeyT
    } else if code == "KeyU"@ {
        KeyCode::KeyU
    } else if code == "KeyV"@ {
        KeyCode::KeyV
    } else if code == "KeyW"@ {
        KeyCode::KeyW
    } else if code == "KeyX"@ {
        KeyCode::KeyX
    } else if code == "KeyY"@ {
        KeyCode::KeyY
    } else if code == "KeyZ"@ {
        KeyCode::KeyZ
    } else if code == "Space"@ {
        KeyCode::Space
    } else if code == "Tab"@ {
        KeyCode::Tab
    } else if code == "ArrowDown"@ {
        KeyCode::ArrowDown
    } else if code == "ArrowLeft"@ {
        KeyCode::ArrowLeft
    } else if code == "ArrowRight"@ {
        KeyCode::ArrowRight
    } else if code == "ArrowUp"@ {
        KeyCode::ArrowUp
    } else if code == "ShiftLeft"@ {
        KeyCode::ShiftLeft
    } else if code == "ShiftRight"@ {
        KeyCode::ShiftRight
    } else if code == "ControlLeft"@ {
        KeyCode::ControlLeft
    } else if code == "ControlRight"@ {
        KeyCode::ControlRight
    } else if code == "AltLeft"@ {
        KeyCode::AltLeft
    } else if code == "AltRight"@ {
        KeyCode::AltRight
    } else if code == "MetaLeft"@ {
        KeyCode::SuperLeft
    } else if code == "MetaRight"@ {
        KeyCode::SuperRight
    } else {
        KeyCode::Unidentified
    }
}

/// The physical key of a DOM `KeyboardEvent.code` value.
pub fn web_key_code(code: &str) -> (k: KeyCode)
    ensures
        k == spec_web_key_code(code@),
{
    if str_eq(code, "Backspace") {
        return KeyCode::Backspace;
    }
    if str_eq(code, "Delete") {
        return KeyCode::Delete;
    }
    if str_eq(code, "Enter") {
        return KeyCode::Enter;
    }
    if str_eq(code, "Escape") {
        return KeyCode::Escape;
    }
    if str_eq(code, "F1") {
        return KeyCode::F1;
    }
    if str_eq(code, "F2") {
        return KeyCode::F2;
    }
    if str_eq(code, "F3") {
        return KeyCode::F3;
    }
    if str_eq(code, "F4") {
        return KeyCode::F4;
    }
    if str_eq(code, "F5") {
        return KeyCode::F5;
    }
    if str_eq(code, "F6") {
        return KeyCode::F6;
    }
    if str_eq(code, "F7") {
        return KeyCode::F7;
    }
    if str_eq(code, "F8") {
        return KeyCode::F8;
    }
    if str_eq(code, "F9") {
        return KeyCode::F9;
    }
    if str_eq(code, "F10") {
        return KeyCode::F10;
    }
    if str_eq(code, "F11") {
        return KeyCode::F11;
    }
    if str_eq(code, "F12") {
        return KeyCode::F12;
    }
    if str_eq(code, "KeyA") {
        return KeyCode::KeyA;
    }
    if str_eq(code, "KeyB") {
        return KeyCode::KeyB;
    }
    if str_eq(code, "KeyC") {
        return KeyCode::KeyC;
    }
    if str_eq(code, "KeyD") {
        return KeyCode::KeyD;
    }
    if str_eq(code, "KeyE") {
        return KeyCode::KeyE;
    }
    if str_eq(code, "KeyF") {
        return KeyCode::KeyF;
    }
    if str_eq(code, "KeyG") {
        return KeyCode::KeyG;
    }
    if str_eq(code, "KeyH") {
        return KeyCode::KeyH;
    }
    if str_eq(code, "KeyI") {
        return KeyCode::KeyI;
    }
    if str_eq(code, "KeyJ") {
        return KeyCode::KeyJ;
    }
    if str_eq(code, "KeyK") {
        return KeyCode::KeyK;
    }
    if str_eq(code, "KeyL") {
        return KeyCode::KeyL;
    }
    if str_eq(code, "KeyM") {
        return KeyCode::KeyM;
    }
    if str_eq(code, "KeyN") {
        return KeyCode::KeyN;
    }
    if str_eq(code, "KeyO") {
        return KeyCode::KeyO;
    }
    if str_eq(code, "KeyP") {
        return KeyCode::KeyP;
    }
    if str_eq(code, "KeyQ") {
        return KeyCode::KeyQ;
    }
    if str_eq(code, "KeyR") {
        return KeyCode::KeyR;
    }
    if str_eq(code, "KeyS") {
        return KeyCode::KeyS;
    }
    if str_eq(code, "KeyT") {
        return KeyCode::KeyT;
    }
    if str_eq(code, "KeyU") {
        return KeyCode::KeyU;
    }
    if str_eq(code, "KeyV") {
        return KeyCode::KeyV;
    }
    if str_eq(code, "KeyW") {
        return KeyCode::KeyW;
    }
    if str_eq(code, "KeyX") {
        return KeyCode::KeyX;
    }
    if str_eq(code, "KeyY") {
        return KeyCode::KeyY;
    }
    if str_eq(code, "KeyZ") {
        return KeyCode::KeyZ;
    }
    if str_eq(code, "Space") {
        return KeyCode::Space;
    }
    if str_eq(code, "Tab") {
        return KeyCode::Tab;
    }
    if str_eq(code, "ArrowDown") {
        return KeyCode::ArrowDown;
    }
    if str_eq(code, "ArrowLeft") {
        return KeyCode::ArrowLeft;
    }
    if str_eq(code, "ArrowRight") {
        return KeyCode::ArrowRight;
    }
    if str_eq(code, "ArrowUp") {
        return KeyCode::ArrowUp;
    }
    if str_eq(code, "ShiftLeft") {
        return KeyCode::ShiftLeft;
    }
    if str_eq(code, "ShiftRight") {
        return KeyCode::ShiftRight;
    }
    if str_eq(code, "ControlLeft") {
        return KeyCode::ControlLeft;
    }
    if str_eq(code, "ControlRight") {
        return KeyCode::ControlRight;
    }
    if str_eq(code, "AltLeft") {
        return KeyCode::AltLeft;
    }
    if str_eq(code, "AltRight") {
        return KeyCode::AltRight;
    }
    if str_eq(code, "MetaLeft") {
        return KeyCode::SuperLeft;
    }
    if str_eq(code, "MetaRight") {
        return KeyCode::SuperRight;
    }
    KeyCode::Unidentified
}

/// A key by its meaning: a named key, a character, or unknown.
#[derive(Debug, Clone, PartialEq, Eq, Hash)]
pub enum LogicalKey {
    Alt,
    Backspace,
    Control,
    Delete,
    Enter,
    Escape,
    Meta,
    Shift,
    Tab,
    ArrowDown,
    ArrowLeft,
    ArrowRight,
    ArrowUp,
    F1,
    F2,
    F3,
    F4,
    F5,
    F6,
    F7,
    F8,
    F9,
    F10,
    F11,
    F12,
    /// The text the key produces.
    Character(String),
    /// An event without a key value.
    Unidentified,
}

/// The named key that DOM key value `key` denotes, if it is one of them.
pub open spec fn spec_named_logical_key(key: Seq<char>) -> Option<LogicalKey> {
    if key == "Alt"@ {
        Some(LogicalKey::Alt)
    } else if key == "Backspace"@ {
        Some(LogicalKey::Backspace)
    } else if key == "Control"@ {
        Some(LogicalKey::Control)
    } else if key == "Delete"@ {
        Some(LogicalKey::Delete)
    } else if key == "Enter"@ {
        Some(LogicalKey::Enter)
    } else if key == "Escape"@ {
        Some(LogicalKey::Escape)
    } else if key == "Meta"@ {
        Some(LogicalKey::Meta)
    } else if key == "Shift"@ {
        Some(LogicalKey::Shift)
    } else if key == "Tab"@ {
        Some(LogicalKey::Tab)
    } else if key == "ArrowDown"@ {
        Some(LogicalKey::ArrowDown)
    } else if key == "ArrowLeft"@ {
        Some(LogicalKey::ArrowLeft)
    } else if key == "ArrowRight"@ {
        Some(LogicalKey::ArrowRight)
    } else if key == "ArrowUp"@ {
        Some(LogicalKey::ArrowUp)
    } else if key == "F1"@ {
        Some(LogicalKey::F1)
    } else if key == "F2"@ {
        Some(LogicalKey::F2)
    } else if key == "F3"@ {
        Some(LogicalKey::F3)
    } else if key == "F4"@ {
        Some(LogicalKey::F4)
    } else if key == "F5"@ {
        Some(LogicalKey::F5)
    } else if key == "F6"@ {
        Some(LogicalKey::F6)
    } else if key == "F7"@ {
        Some(LogicalKey::F7)
    } else if key == "F8"@ {
        Some(LogicalKey::F8)
    } else if key == "F9"@ {
        Some(LogicalKey::F9)
    } else if key == "F10"@ {
        Some(LogicalKey::F10)
    } else if key == "F11"@ {
        Some(LogicalKey::F11)
    } else if key == "F12"@ {
        Some(LogicalKey::F12)
    } else {
        None
    }
}

/// The logical key of a DOM `KeyboardEvent.key` value: a named key, an unknown key
/// for the empty value, else the character text itself.
pub fn web_logical_key(key: &str) -> (k: LogicalKey)
    ensures
        spec_named_logical_key(key@) matches Some(named) ==> k == named,
        spec_named_logical_key(key@) is None && key@.len() == 0 ==> k == LogicalKey::Unidentified,
        spec_named_logical_key(key@) is None && key@.len() > 0 ==> (k matches LogicalKey::Character(
            text,
        ) && text@ == key@),
{
    if str_eq(key, "Alt") {
        return LogicalKey::Alt;
    }
    if str_eq(key, "Backspace") {
        return LogicalKey::Backspace;
    }
    if str_eq(key, "Control") {
        return LogicalKey::Control;
    }
    if str_eq(key, "Delete") {
        return LogicalKey::Delete;
    }
    if str_eq(key, "Enter") {
        return LogicalKey::Enter;
    }
    if str_eq(key, "Escape") {
        return LogicalKey::Escape;
    }
    if str_eq(key, "Meta") {
        return LogicalKey::Meta;
    }
    if str_eq(key, "Shift") {
        return LogicalKey::Shift;
    }
    if str_eq(key, "Tab") {
        return LogicalKey::Tab;
    }
    if str_eq(key, "ArrowDown") {
        return LogicalKey::ArrowDown;
    }
    if str_eq(key, "ArrowLeft") {
        return LogicalKey::ArrowLeft;
    }
    if str_eq(key, "ArrowRight") {
        return LogicalKey::ArrowRight;
    }
    if str_eq(key, "ArrowUp") {
        return LogicalKey::ArrowUp;
    }
    if str_eq(key, "F1") {
        return LogicalKey::F1;
    }
    if str_eq(key, "F2") {
        return LogicalKey::F2;
    }
    if str_eq(key, "F3") {
        return LogicalKey::F3;
    }
    if str_eq(key, "F4") {
        return LogicalKey::F4;
    }
    if str_eq(key, "F5") {
        return LogicalKey::F5;
    }
    if str_eq(key, "F6") {
        return LogicalKey::F6;
    }
    if str_eq(key, "F7") {
        return LogicalKey::F7;
    }
    if str_eq(key, "F8") {
        return LogicalKey::F8;
    }
    if str_eq(key, "F9") {
        return LogicalKey::F9;
    }
    if str_eq(key, "F10") {
        return LogicalKey::F10;
    }
    if str_eq(key, "F11") {
        return LogicalKey::F11;
    }
    if str_eq(key, "F12") {
        return LogicalKey::F12;
    }
    if key.unicode_len() == 0 {
        return LogicalKey::Unidentified;
    }
    LogicalKey::Character(key.to_string())
}

} // verus!
