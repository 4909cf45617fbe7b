//! The key-symbol set that hotkey bindings and key events are drawn from.

use vstd::prelude::*;

verus! {

/// A physical key, named after its place on a standard QWERTY layout.
///
/// `Unknown` carries the platform's raw code of a key that has no name here.
#[derive(Clone, Copy, Debug, PartialEq, Eq, Hash, Structural)]
pub enum Key {
    Alt,
    AltGr,
    Backspace,
    CapsLock,
    ControlLeft,
    ControlRight,
    Delete,
    DownArrow,
    End,
    Escape,
    F1,
    F10,
    F11,
    F12,
    F2,
    F3,
    F4,
    F5,
    F6,
    F7,
    F8,
    F9,
    Home,
    LeftArrow,
    MetaLeft,
    MetaRight,
    PageDown,
    PageUp,
    Return,
    RightArrow,
    ShiftLeft,
    ShiftRight,
    Space,
    Tab,
    UpArrow,
    PrintScreen,
    ScrollLock,
    Pause,
    NumLock,
    BackQuote,
    Num1,
    Num2,
    Num3,
    Num4,
    Num5,
    Num6,
    Num7,
    Num8,
    Num9,
    Num0,
    Minus,
    Equal,
    KeyQ,
    KeyW,
    KeyE,
    KeyR,
    KeyT,
    KeyY,
    KeyU,
    KeyI,
    KeyO,
    KeyP,
    LeftBracket,
    RightBracket,
    KeyA,
    KeyS,
    KeyD,
    KeyF,
    KeyG,
    KeyH,
    KeyJ,
    KeyK,
    KeyL,
    SemiColon,
    Quote,
    BackSlash,
    IntlBackslash,
    KeyZ,
    KeyX,
    KeyC,
    KeyV,
    KeyB,
    KeyN,
    KeyM,
    Comma,
    Dot,
    Slash,
    Insert,
    KpReturn,
    KpMinus,
    KpPlus,
    KpMultiply,
    KpDivide,
    Kp0,
    Kp1,
    Kp2,
    Kp3,
    Kp4,
    Kp5,
    Kp6,
    Kp7,
    Kp8,
    Kp9,
    KpDelete,
    Function,
    Unknown(u32),
}

impl Key {
    /// Whether the key is one of the two Shift keys, the modifier that
    /// qualifies the exit key.
    pub open spec fn spec_is_shift(self) -> bool {
        self == Key::ShiftLeft || self == Key::ShiftRight
    }

    /// Whether the key is one of the two Shift keys.
    #[verifier::when_used_as_spec(spec_is_shift)]
    pub fn is_shift(self) -> (shift: bool)
        ensures
            shift == self.spec_is_shift(),
    {
        self == Key::ShiftLeft || self == Key::ShiftRight
    }
}

/// The keys that a hotkey binding can be set to: the letters `A` to `Z`
/// in alphabetical order, then `F1` to `F12`.
pub open spec fn bindable_keys_spec() -> Seq<Key> {
    seq![
        Key::KeyA, Key::KeyB, Key::KeyC, Key::KeyD, Key::KeyE, Key::KeyF, Key::KeyG,
        Key::KeyH, Key::KeyI, Key::KeyJ, Key::KeyK, Key::KeyL, Key::KeyM, Key::KeyN,
        Key::KeyO, Key::KeyP, Key::KeyQ, Key::KeyR, Key::KeyS, Key::KeyT, Key::KeyU,
        Key::KeyV, Key::KeyW, Key::KeyX, Key::KeyY, Key::KeyZ, Key::F1, Key::F2,
        Key::F3, Key::F4, Key::F5, Key::F6, Key::F7, Key::F8, Key::F9, Key::F10,
        Key::F11, Key::F12,
    ]
}

/// The keys offered for the pause, resume and exit bindings, in the order in
/// which a settings panel lists them.
pub fn bindable_keys() -> (keys: Vec<Key>)
    ensures
        keys@ == bindable_keys_spec(),
{
    vec![
        Key::KeyA, Key::KeyB, Key::KeyC, Key::KeyD, Key::KeyE, Key::KeyF, Key::KeyG,
        Key::KeyH, Key::KeyI, Key::KeyJ, Key::KeyK, Key::KeyL, Key::KeyM, Key::KeyN,
        Key::KeyO, Key::KeyP, Key::KeyQ, Key::KeyR, Key::KeyS, Key::KeyT, Key::KeyU,
        Key::KeyV, Key::KeyW, Key::KeyX, Key::KeyY, Key::KeyZ, Key::F1, Key::F2,
        Key::F3, Key::F4, Key::F5, Key::F6, Key::F7, Key::F8, Key::F9, Key::F10,
        Key::F11, Key::F12,
    ]
}

} // verus!
