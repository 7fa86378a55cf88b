//! Key identities and the names by which a hotkey refers to them.

use vstd::prelude::*;
use vstd::string::StrSliceExecFns;
use crate::text::{lowercased, str_eq, to_lowercase};

verus! {

/// Code of the "next track" media key.
pub const MEDIA_NEXT: u32 = 0x1008ff17;

/// Code of the "previous track" media key.
pub const MEDIA_PREVIOUS: u32 = 0x1008ff16;

/// Code of the "play / pause" media key.
pub const MEDIA_PLAY: u32 = 0x1008ff14;

/// Code of the "stop" media key.
pub const MEDIA_STOP: u32 = 0x1008ff15;

/// Code of the "volume down" media key.
pub const MEDIA_VOLUME_DOWN: u32 = 0x1008ff11;

/// Code of the "volume up" media key.
pub const MEDIA_VOLUME_UP: u32 = 0x1008ff13;

/// Code of the "mute" media key.
pub const MEDIA_MUTE: u32 = 0x1008ff12;

/// The identity of a physical key, as the input source reports it. Keys the
/// input source has no name for arrive as `Unknown` with their raw code.
#[derive(Clone, Copy, Debug, PartialEq, Eq, Hash, Structural)]
pub enum Key {
    Alt,
    AltGr,
    Backspace,
    CapsLock,
    ControlLeft,
    ControlRight,
    Delete,
    DownArrow,
    End,
    Escape,
    F1,
    F10,
    F11,
    F12,
    F2,
    F3,
    F4,
    F5,
    F6,
    F7,
    F8,
    F9,
    Home,
    LeftArrow,
    MetaLeft,
    MetaRight,
    PageDown,
    PageUp,
    Return,
    RightArrow,
    ShiftLeft,
    ShiftRight,
    Space,
    Tab,
    UpArrow,
    PrintScreen,
    ScrollLock,
    Pause,
    NumLock,
    BackQuote,
    Num1,
    Num2,
    Num3,
    Num4,
    Num5,
    Num6,
    Num7,
    Num8,
    Num9,
    Num0,
    Minus,
    Equal,
    KeyQ,
    KeyW,
    KeyE,
    KeyR,
    KeyT,
    KeyY,
    KeyU,
    KeyI,
    KeyO,
    KeyP,
    LeftBracket,
    RightBracket,
    KeyA,
    KeyS,
    KeyD,
    KeyF,
    KeyG,
    KeyH,
    KeyJ,
    KeyK,
    KeyL,
    SemiColon,
    Quote,
    BackSlash,
    IntlBackslash,
    KeyZ,
    KeyX,
    KeyC,
    KeyV,
    KeyB,
    KeyN,
    KeyM,
    Comma,
    Dot,
    Slash,
    Insert,
    KpReturn,
    KpMinus,
    KpPlus,
    KpMultiply,
    KpDivide,
    Kp0,
    Kp1,
    Kp2,
    Kp3,
    Kp4,
    Kp5,
    Kp6,
    Kp7,
    Kp8,
    Kp9,
    KpDelete,
    Function,
    Unknown(u32),
}

/// One of the four logical modifiers.
#[derive(Clone, Copy, Debug, PartialEq, Eq, Hash, Structural)]
pub enum Modifier {
    Shift,
    Ctrl,
    Alt,
    Meta,
}

impl Key {
    /// The modifier that a key stands for: either of the two physical keys
    /// of a modifier counts as that modifier; every other key is none.
    pub open spec fn modifier_of(self) -> Option<Modifier> {
        match self {
            Key::ShiftLeft | Key::ShiftRight => Some(Modifier::Shift),
            Key::ControlLeft | Key::ControlRight => Some(Modifier::Ctrl),
            Key::Alt | Key::AltGr => Some(Modifier::Alt),
            Key::MetaLeft | Key::MetaRight => Some(Modifier::Meta),
            _ => None,
        }
    }

    /// The modifier that this key stands for, if it is a modifier key.
    pub fn modifier(&self) -> (m: Option<Modifier>)
        ensures
            m == self.modifier_of(),
    {
        match self {
            Key::ShiftLeft | Key::ShiftRight => Some(Modifier::Shift),
            Key::ControlLeft | Key::ControlRight => Some(Modifier::Ctrl),
            Key::Alt | Key::AltGr => Some(Modifier::Alt),
            Key::MetaLeft | Key::MetaRight => Some(Modifier::Meta),
            _ => None,
        }
    }
}

/// The modifier that a lower-case token names. `meta`, `super` and `win` are
/// three names of one modifier.
pub open spec fn modifier_for_name(name: Seq<char>) -> Option<Modifier> {
    if name == "shift"@ {
        Some(Modifier::Shift)
    } else if name == "ctrl"@ {
        Some(Modifier::Ctrl)
    } else if name == "alt"@ {
        Some(Modifier::Alt)
    } else if name == "meta"@ || name == "super"@ || name == "win"@ {
        Some(Modifier::Meta)
    } else {
        None
    }
}

/// Reads a lower-case token as a modifier name.
pub fn modifier_from_name(name: &str) -> (m: Option<Modifier>)
    ensures
        m == modifier_for_name(name@),
{
    if str_eq(name, "shift") {
        Some(Modifier::Shift)
    } else if str_eq(name, "ctrl") {
        Some(Modifier::Ctrl)
    } else if str_eq(name, "alt") {
        Some(Modifier::Alt)
    } else if str_eq(name, "meta") || str_eq(name, "super") || str_eq(name, "win") {
        Some(Modifier::Meta)
    } else {
        None
    }
}

/// The key that a lower-case name denotes, where the name is that of
/// a media key.
pub open spec fn media_for_name(name: Seq<char>) -> Option<Key> {
    if name == "nextsong"@ || name == "audionext"@ {
        Some(Key::Unknown(MEDIA_NEXT))
    } else if name == "previoussong"@ || name == "audioprev"@ {
        Some(Key::Unknown(MEDIA_PREVIOUS))
    } else if name == "playpause"@ || name == "audioplay"@ {
        Some(Key::Unknown(MEDIA_PLAY))
    } else if name == "stopcd"@ || name == "audiostop"@ {
        Some(Key::Unknown(MEDIA_STOP))
    } else if name == "volumedown"@ {
        Some(Key::Unknown(MEDIA_VOLUME_DOWN))
    } else if name == "volumeup"@ {
        Some(Key::Unknown(MEDIA_VOLUME_UP))
    } else if name == "volumemute"@ {
        Some(Key::Unknown(MEDIA_MUTE))
    } else {
        None
    }
}

/// Looks `name` up among the names of the media keys.
fn media_from_name(name: &str) -> (key: Option<Key>)
    ensures
        key == media_for_name(name@),
{
    if str_eq(name, "nextsong") || str_eq(name, "audionext") {
        Some(Key::Unknown(MEDIA_NEXT))
    } else if str_eq(name, "previoussong") || str_eq(name, "audioprev") {
        Some(Key::Unknown(MEDIA_PREVIOUS))
    } else if str_eq(name, "playpause") || str_eq(name, "audioplay") {
        Some(Key::Unknown(MEDIA_PLAY))
    } else if str_eq(name, "stopcd") || str_eq(name, "audiostop") {
        Some(Key::Unknown(MEDIA_STOP))
    } else if str_eq(name, "volumedown") {
        Some(Key::Unknown(MEDIA_VOLUME_DOWN))
    } else if str_eq(name, "volumeup") {
        Some(Key::Unknown(MEDIA_VOLUME_UP))
    } else if str_eq(name, "volumemute") {
        Some(Key::Unknown(MEDIA_MUTE))
    } else {
        None
    }
}

/// The key that a lower-case name denotes, where the name is that of
/// a letter key.
pub open spec fn letter_for_name(name: Seq<char>) -> Option<Key> {
    if name == "a"@ {
        Some(Key::KeyA)
    } else if name == "b"@ {
        Some(Key::KeyB)
    } else if name == "c"@ {
        Some(Key::KeyC)
    } else if name == "d"@ {
        Some(Key::KeyD)
    } else if name == "e"@ {
        Some(Key::KeyE)
    } else if name == "f"@ {
        Some(Key::KeyF)
    } else if name == "g"@ {
        Some(Key::KeyG)
    } else if name == "h"@ {
        Some(Key::KeyH)
    } else if name == "i"@ {
        Some(Key::KeyI)
    } else if name == "j"@ {
        Some(Key::KeyJ)
    } else if name == "k"@ {
        Some(Key::KeyK)
    } else if name == "l"@ {
        Some(Key::KeyL)
    } else if name == "m"@ {
        Some(Key::KeyM)
    } else if name == "n"@ {
        Some(Key::KeyN)
    } else if name == "o"@ {
        Some(Key::KeyO)
    } else if name == "p"@ {
        Some(Key::KeyP)
    } else if name == "q"@ {
        Some(Key::KeyQ)
    } else if name == "r"@ {
        Some(Key::KeyR)
    } else if name == "s"@ {
        Some(Key::KeyS)
    } else if name == "t"@ {
        Some(Key::KeyT)
    } else if name == "u"@ {
        Some(Key::KeyU)
    } else if name == "v"@ {
        Some(Key::KeyV)
    } else if name == "w"@ {
        Some(Key::KeyW)
    } else if name == "x"@ {
        Some(Key::KeyX)
    } else if name == "y"@ {
        Some(Key::KeyY)
    } else if name == "z"@ {
        Some(Key::KeyZ)
    } else {
        None
    }
}

/// Each name of a letter key is the one character that it is written with.
proof fn lemma_letter_names()
    ensures
        "a"@.len() == 1 && "a"@[0] == 'a',
        "b"@.len() == 1 && "b"@[0] == 'b',
        "c"@.len() == 1 && "c"@[0] == 'c',
        "d"@.len() == 1 && "d"@[0] == 'd',
        "e"@.len() == 1 && "e"@[0] == 'e',
        "f"@.len() == 1 && "f"@[0] == 'f',
        "g"@.len() == 1 && "g"@[0] == 'g',
        "h"@.len() == 1 && "h"@[0] == 'h',
        "i"@.len() == 1 && "i"@[0] == 'i',
        "j"@.len() == 1 && "j"@[0] == 'j',
        "k"@.len() == 1 && "k"@[0] == 'k',
        "l"@.len() == 1 && "l"@[0] == 'l',
        "m"@.len() == 1 && "m"@[0] == 'm',
        "n"@.len() == 1 && "n"@[0] == 'n',
        "o"@.len() == 1 && "o"@[0] == 'o',
        "p"@.len() == 1 && "p"@[0] == 'p',
        "q"@.len() == 1 && "q"@[0] == 'q',
        "r"@.len() == 1 && "r"@[0] == 'r',
        "s"@.len() == 1 && "s"@[0] == 's',
        "t"@.len() == 1 && "t"@[0] == 't',
        "u"@.len() == 1 && "u"@[0] == 'u',
        "v"@.len() == 1 && "v"@[0] == 'v',
        "w"@.len() == 1 && "w"@[0] == 'w',
        "x"@.len() == 1 && "x"@[0] == 'x',
        "y"@.len() == 1 && "y"@[0] == 'y',
        "z"@.len() == 1 && "z"@[0] == 'z',
{
    reveal_strlit("a");
    reveal_strlit("b");
    reveal_strlit("c");
    reveal_strlit("d");
    reveal_strlit("e");
    reveal_strlit("f");
    reveal_strlit("g");
    reveal_strlit("h");
    reveal_strlit("i");
    reveal_strlit("j");
    reveal_strlit("k");
    reveal_strlit("l");
    reveal_strlit("m");
    reveal_strlit("n");
    reveal_strlit("o");
    reveal_strlit("p");
    reveal_strlit("q");
    reveal_strlit("r");
    reveal_strlit("s");
    reveal_strlit("t");
    reveal_strlit("u");
    reveal_strlit("v");
    reveal_strlit("w");
    reveal_strlit("x");
    reveal_strlit("y");
    reveal_strlit("z");
}

/// Looks `name` up among the names of the letter keys.
fn letter_from_name(name: &str) -> (key: Option<Key>)
    ensures
        key == letter_for_name(name@),
{
    proof {
        lemma_letter_names();
    }
    if name.unicode_len() != 1 {
        return None;
    }
    let c = name.get_char(0);
    assert forall|other: Seq<char>| #[trigger] other.len() == 1 && other[0] == c implies other == name@ by {}
    match c {
        'a' => Some(Key::KeyA),
        'b' => Some(Key::KeyB),
        'c' => Some(Key::KeyC),
        'd' => Some(Key::KeyD),
        'e' => Some(Key::KeyE),
        'f' => Some(Key::KeyF),
        'g' => Some(Key::KeyG),
        'h' => Some(Key::KeyH),
        'i' => Some(Key::KeyI),
        'j' => Some(Key::KeyJ),
        'k' => Some(Key::KeyK),
        'l' => Some(Key::KeyL),
        'm' => Some(Key::KeyM),
        'n' => Some(Key::KeyN),
        'o' => Some(Key::KeyO),
        'p' => Some(Key::KeyP),
        'q' => Some(Key::KeyQ),
        'r' => Some(Key::KeyR),
        's' => Some(Key::KeyS),
        't' => Some(Key::KeyT),
        'u' => Some(Key::KeyU),
        'v' => Some(Key::KeyV),
        'w' => Some(Key::KeyW),
        'x' => Some(Key::KeyX),
        'y' => Some(Key::KeyY),
        'z' => Some(Key::KeyZ),
        _ => None,
    }
}

/// The key that a lower-case name denotes, where the name is that of
/// a digit key of the top row.
pub open spec fn digit_for_name(name: Seq<char>) -> Option<Key> {
    if name == "0"@ {
        Some(Key::Num0)
    } else if name == "1"@ {
        Some(Key::Num1)
    } else if name == "2"@ {
        Some(Key::Num2)
    } else if name == "3"@ {
        Some(Key::Num3)
    } else if name == "4"@ {
        Some(Key::Num4)
    } else if name == "5"@ {
        Some(Key::Num5)
    } else if name == "6"@ {
        Some(Key::Num6)
    } else if name == "7"@ {
        Some(Key::Num7)
    } else if name == "8"@ {
        Some(Key::Num8)
    } else if name == "9"@ {
        Some(Key::Num9)
    } else {
        None
    }
}

/// Each name of a digit key is the one character that it is written with.
proof fn lemma_digit_names()
    ensures
        "0"@.len() == 1 && "0"@[0] == '0',
        "1"@.len() == 1 && "1"@[0] == '1',
        "2"@.len() == 1 && "2"@[0] == '2',
        "3"@.len() == 1 && "3"@[0] == '3',
        "4"@.len() == 1 && "4"@[0] == '4',
        "5"@.len() == 1 && "5"@[0] == '5',
        "6"@.len() == 1 && "6"@[0] == '6',
        "7"@.len() == 1 && "7"@[0] == '7',
        "8"@.len() == 1 && "8"@[0] == '8',
        "9"@.len() == 1 && "9"@[0] == '9',
{
    reveal_strlit("0");
    reveal_strlit("1");
    reveal_strlit("2");
    reveal_strlit("3");
    reveal_strlit("4");
    reveal_strlit("5");
    reveal_strlit("6");
    reveal_strlit("7");
    reveal_strlit("8");
    reveal_strlit("9");
}

/// Looks `name` up among the names of the digit keys.
fn digit_from_name(name: &str) -> (key: Option<Key>)
    ensures
        key == digit_for_name(name@),
{
    proof {
        lemma_digit_names();
    }
    if name.unicode_len() != 1 {
        return None;
    }
    let c = name.get_char(0);
    assert forall|other: Seq<char>| #[trigger] other.len() == 1 && other[0] == c implies other == name@ by {}
    match c {
        '0' => Some(Key::Num0),
        '1' => Some(Key::Num1),
        '2' => Some(Key::Num2),
        '3' => Some(Key::Num3),
        '4' => Some(Key::Num4),
        '5' => Some(Key::Num5),
        '6' => Some(Key::Num6),
        '7' => Some(Key::Num7),
        '8' => Some(Key::Num8),
        '9' => Some(Key::Num9),
        _ => None,
    }
}

/// The key that a lower-case name denotes, where the name is that of
/// a function key.
pub open spec fn function_for_name(name: Seq<char>) -> Option<Key> {
    if name == "f1"@ {
        Some(Key::F1)
    } else if name == "f2"@ {
        Some(Key::F2)
    } else if name == "f3"@ {
        Some(Key::F3)
    } else if name == "f4"@ {
        Some(Key::F4)
    } else if name == "f5"@ {
        Some(Key::F5)
    } else if name == "f6"@ {
        Some(Key::F6)
    } else if name == "f7"@ {
        Some(Key::F7)
    } else if name == "f8"@ {
        Some(Key::F8)
    } else if name == "f9"@ {
        Some(Key::F9)
    } else if name == "f10"@ {
        Some(Key::F10)
    } else if name == "f11"@ {
        Some(Key::F11)
    } else if name == "f12"@ {
        Some(Key::F12)
    } else {
        None
    }
}

/// Looks `name` up among the names of the function keys.
fn function_from_name(name: &str) -> (key: Option<Key>)
    ensures
        key == function_for_name(name@),
{
    if str_eq(name, "f1") {
        Some(Key::F1)
    } else if str_eq(name, "f2") {
        Some(Key::F2)
    } else if str_eq(name, "f3") {
        Some(Key::F3)
    } else if str_eq(name, "f4") {
        Some(Key::F4)
    } else if str_eq(name, "f5") {
        Some(Key::F5)
    } else if str_eq(name, "f6") {
        Some(Key::F6)
    } else if str_eq(name, "f7") {
        Some(Key::F7)
    } else if str_eq(name, "f8") {
        Some(Key::F8)
    } else if str_eq(name, "f9") {
        Some(Key::F9)
    } else if str_eq(name, "f10") {
        Some(Key::F10)
    } else if str_eq(name, "f11") {
        Some(Key::F11)
    } else if str_eq(name, "f12") {
        Some(Key::F12)
    } else {
        None
    }
}

/// The key that a lower-case name denotes, where the name is that of
/// an editing or navigation key.
pub open spec fn navigation_for_name(name: Seq<char>) -> Option<Key> {
    if name == "space"@ {
        Some(Key::Space)
    } else if name == "enter"@ {
        Some(Key::Return)
    } else if name == "tab"@ {
        Some(Key::Tab)
    } else if name == "backspace"@ {
        Some(Key::Backspace)
    } else if name == "escape"@ {
        Some(Key::Escape)
    } else if name == "insert"@ {
        Some(Key::Insert)
    } else if name == "delete"@ {
        Some(Key::Delete)
    } else if name == "home"@ {
        Some(Key::Home)
    } else if name == "end"@ {
        Some(Key::End)
    } else if name == "pageup"@ {
        Some(Key::PageUp)
    } else if name == "pagedown"@ {
        Some(Key::PageDown)
    } else if name == "up"@ {
        Some(Key::UpArrow)
    } else if name == "down"@ {
        Some(Key::DownArrow)
    } else if name == "left"@ {
        Some(Key::LeftArrow)
    } else if name == "right"@ {
        Some(Key::RightArrow)
    } else {
        None
    }
}

/// Looks `name` up among the names of the editing and navigation keys.
fn navigation_from_name(name: &str) -> (key: Option<Key>)
    ensures
        key == navigation_for_name(name@),
{
    if str_eq(name, "space") {
        Some(Key::Space)
    } else if str_eq(name, "enter") {
        Some(Key::Return)
    } else if str_eq(name, "tab") {
        Some(Key::Tab)
    } else if str_eq(name, "backspace") {
        Some(Key::Backspace)
    } else if str_eq(name, "escape") {
        Some(Key::Escape)
    } else if str_eq(name, "insert") {
        Some(Key::Insert)
    } else if str_eq(name, "delete") {
        Some(Key::Delete)
    } else if str_eq(name, "home") {
        Some(Key::Home)
    } else if str_eq(name, "end") {
        Some(Key::End)
    } else if str_eq(name, "pageup") {
        Some(Key::PageUp)
    } else if str_eq(name, "pagedown") {
        Some(Key::PageDown)
    } else if str_eq(name, "up") {
        Some(Key::UpArrow)
    } else if str_eq(name, "down") {
        Some(Key::DownArrow)
    } else if str_eq(name, "left") {
        Some(Key::LeftArrow)
    } else if str_eq(name, "right") {
        Some(Key::RightArrow)
    } else {
        None
    }
}

/// The key that a lower-case name denotes, where the name is that of
/// the left-hand key of a modifier.
pub open spec fn modifier_key_for_name(name: Seq<char>) -> Option<Key> {
    if name == "shift"@ {
        Some(Key::ShiftLeft)
    } else if name == "ctrl"@ {
        Some(Key::ControlLeft)
    } else if name == "alt"@ {
        Some(Key::Alt)
    } else if name == "meta"@ || name == "super"@ || name == "win"@ {
        Some(Key::MetaLeft)
    } else {
        None
    }
}

/// Looks `name` up among the names of the modifier keys.
fn modifier_key_from_name(name: &str) -> (key: Option<Key>)
    ensures
        key == modifier_key_for_name(name@),
{
    if str_eq(name, "shift") {
        Some(Key::ShiftLeft)
    } else if str_eq(name, "ctrl") {
        Some(Key::ControlLeft)
    } else if str_eq(name, "alt") {
        Some(Key::Alt)
    } else if str_eq(name, "meta") || str_eq(name, "super") || str_eq(name, "win") {
        Some(Key::MetaLeft)
    } else {
        None
    }
}

/// The fixed table of key names: the key that a lower-case name denotes, or
/// `None` for a name that is not in the table.
pub open spec fn key_for_name(name: Seq<char>) -> Option<Key> {
    if media_for_name(name) is Some {
        media_for_name(name)
    } else if letter_for_name(name) is Some {
        letter_for_name(name)
    } else if digit_for_name(name) is Some {
        digit_for_name(name)
    } else if function_for_name(name) is Some {
        function_for_name(name)
    } else if navigation_for_name(name) is Some {
        navigation_for_name(name)
    } else {
        modifier_key_for_name(name)
    }
}

/// Looks a lower-case name up in the table of key names.
pub fn key_from_name(name: &str) -> (key: Option<Key>)
    ensures
        key == key_for_name(name@),
{
    let found = media_from_name(name);
    if found.is_some() {
        return found;
    }
    let found = letter_from_name(name);
    if found.is_some() {
        return found;
    }
    let found = digit_from_name(name);
    if found.is_some() {
        return found;
    }
    let found = function_from_name(name);
    if found.is_some() {
        return found;
    }
    let found = navigation_from_name(name);
    if found.is_some() {
        return found;
    }
    modifier_key_from_name(name)
}

/// Resolves a key name, in any letter case, to the key it denotes: the name
/// is lower-cased and looked up in the table. A name that is not in the
/// table resolves to nothing.
pub fn str_to_key(key_str: &str) -> (key: Option<Key>)
    ensures
        key == key_for_name(lowercased(key_str@)),
{
    let name = to_lowercase(key_str);
    key_from_name(name.as_str())
}

} // verus!
