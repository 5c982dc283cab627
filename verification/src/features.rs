use vstd::prelude::*;
use crate::text::{
    ascii_upper, chars_eq, chars_eq_str, chars_of, concat_str, is_ascii_alpha, is_ascii_alpha_char,
    string_from_chars, to_ascii_upper,
};

verus! {

/// A key of the keyboard that a configuration can name.
#[derive(Clone, Copy, PartialEq, Eq, Debug, Structural)]
pub enum ConfigKey {
    KeyA,
    KeyB,
    KeyC,
    KeyD,
    KeyE,
    KeyF,
    KeyG,
    KeyH,
    KeyI,
    KeyJ,
    KeyK,
    KeyL,
    KeyM,
    KeyN,
    KeyO,
    KeyP,
    KeyQ,
    KeyR,
    KeyS,
    KeyT,
    KeyU,
    KeyV,
    KeyW,
    KeyX,
    KeyY,
    KeyZ,
    Num0,
    Num1,
    Num2,
    Num3,
    Num4,
    Num5,
    Num6,
    Num7,
    Num8,
    Num9,
    F1,
    F2,
    F3,
    F4,
    F5,
    F6,
    F7,
    F8,
    F9,
    F10,
    F11,
    F12,
    Space,
    Return,
    Escape,
    Tab,
    Backspace,
    Insert,
    Delete,
    Home,
    End,
    PageUp,
    PageDown,
    UpArrow,
    DownArrow,
    LeftArrow,
    RightArrow,
    Alt,
    ControlLeft,
    ControlRight,
    ShiftLeft,
    ShiftRight,
    MetaLeft,
    MetaRight,
    CapsLock,
    NumLock,
    ScrollLock,
    Comma,
    Dot,
    Slash,
    SemiColon,
    Quote,
    LeftBracket,
    RightBracket,
    BackSlash,
    Minus,
    Equal,
    Backquote,
}

/// How many keys `ConfigKey` has.
pub const CONFIG_KEY_COUNT: usize = 84;

/// The name of a key: the name of its variant.
pub open spec fn config_key_name(k: ConfigKey) -> Seq<char> {
    match k {
        ConfigKey::KeyA => seq!['K', 'e', 'y', 'A'],
        ConfigKey::KeyB => seq!['K', 'e', 'y', 'B'],
        ConfigKey::KeyC => seq!['K', 'e', 'y', 'C'],
        ConfigKey::KeyD => seq!['K', 'e', 'y', 'D'],
        ConfigKey::KeyE => seq!['K', 'e', 'y', 'E'],
        ConfigKey::KeyF => seq!['K', 'e', 'y', 'F'],
        ConfigKey::KeyG => seq!['K', 'e', 'y', 'G'],
        ConfigKey::KeyH => seq!['K', 'e', 'y', 'H'],
        ConfigKey::KeyI => seq!['K', 'e', 'y', 'I'],
        ConfigKey::KeyJ => seq!['K', 'e', 'y', 'J'],
        ConfigKey::KeyK => seq!['K', 'e', 'y', 'K'],
        ConfigKey::KeyL => seq!['K', 'e', 'y', 'L'],
        ConfigKey::KeyM => seq!['K', 'e', 'y', 'M'],
        ConfigKey::KeyN => seq!['K', 'e', 'y', 'N'],
        ConfigKey::KeyO => seq!['K', 'e', 'y', 'O'],
        ConfigKey::KeyP => seq!['K', 'e', 'y', 'P'],
        ConfigKey::KeyQ => seq!['K', 'e', 'y', 'Q'],
        ConfigKey::KeyR => seq!['K', 'e', 'y', 'R'],
        ConfigKey::KeyS => seq!['K', 'e', 'y', 'S'],
        ConfigKey::KeyT => seq!['K', 'e', 'y', 'T'],
        ConfigKey::KeyU => seq!['K', 'e', 'y', 'U'],
        ConfigKey::KeyV => seq!['K', 'e', 'y', 'V'],
        ConfigKey::KeyW => seq!['K', 'e', 'y', 'W'],
        ConfigKey::KeyX => seq!['K', 'e', 'y', 'X'],
        ConfigKey::KeyY => seq!['K', 'e', 'y', 'Y'],
        ConfigKey::KeyZ => seq!['K', 'e', 'y', 'Z'],
        ConfigKey::Num0 => seq!['N', 'u', 'm', '0'],
        ConfigKey::Num1 => seq!['N', 'u', 'm', '1'],
        ConfigKey::Num2 => seq!['N', 'u', 'm', '2'],
        ConfigKey::Num3 => seq!['N', 'u', 'm', '3'],
        ConfigKey::Num4 => seq!['N', 'u', 'm', '4'],
        ConfigKey::Num5 => seq!['N', 'u', 'm', '5'],
        ConfigKey::Num6 => seq!['N', 'u', 'm', '6'],
        ConfigKey::Num7 => seq!['N', 'u', 'm', '7'],
        ConfigKey::Num8 => seq!['N', 'u', 'm', '8'],
        ConfigKey::Num9 => seq!['N', 'u', 'm', '9'],
        ConfigKey::F1 => seq!['F', '1'],
        ConfigKey::F2 => seq!['F', '2'],
        ConfigKey::F3 => seq!['F', '3'],
        ConfigKey::F4 => seq!['F', '4'],
        ConfigKey::F5 => seq!['F', '5'],
        ConfigKey::F6 => seq!['F', '6'],
        ConfigKey::F7 => seq!['F', '7'],
        ConfigKey::F8 => seq!['F', '8'],
        ConfigKey::F9 => seq!['F', '9'],
        ConfigKey::F10 => seq!['F', '1', '0'],
        ConfigKey::F11 => seq!['F', '1', '1'],
        ConfigKey::F12 => seq!['F', '1', '2'],
        ConfigKey::Space => seq!['S', 'p', 'a', 'c', 'e'],
        ConfigKey::Return => seq!['R', 'e', 't', 'u', 'r', 'n'],
        ConfigKey::Escape => seq!['E', 's', 'c', 'a', 'p', 'e'],
        ConfigKey::Tab => seq!['T', 'a', 'b'],
        ConfigKey::Backspace => seq!['B', 'a', 'c', 'k', 's', 'p', 'a', 'c', 'e'],
        ConfigKey::Insert => seq!['I', 'n', 's', 'e', 'r', 't'],
        ConfigKey::Delete => seq!['D', 'e', 'l', 'e', 't', 'e'],
        ConfigKey::Home => seq!['H', 'o', 'm', 'e'],
        ConfigKey::End => seq!['E', 'n', 'd'],
        ConfigKey::PageUp => seq!['P', 'a', 'g', 'e', 'U', 'p'],
        ConfigKey::PageDown => seq!['P', 'a', 'g', 'e', 'D', 'o', 'w', 'n'],
        ConfigKey::UpArrow => seq!['U', 'p', 'A', 'r', 'r', 'o', 'w'],
        ConfigKey::DownArrow => seq!['D', 'o', 'w', 'n', 'A', 'r', 'r', 'o', 'w'],
        ConfigKey::LeftArrow => seq!['L', 'e', 'f', 't', 'A', 'r', 'r', 'o', 'w'],
        ConfigKey::RightArrow => seq!['R', 'i', 'g', 'h', 't', 'A', 'r', 'r', 'o', 'w'],
        ConfigKey::Alt => seq!['A', 'l', 't'],
        ConfigKey::ControlLeft => seq!['C', 'o', 'n', 't', 'r', 'o', 'l', 'L', 'e', 'f', 't'],
        ConfigKey::ControlRight => seq!['C', 'o', 'n', 't', 'r', 'o', 'l', 'R', 'i', 'g', 'h', 't'],
        ConfigKey::ShiftLeft => seq!['S', 'h', 'i', 'f', 't', 'L', 'e', 'f', 't'],
        ConfigKey::ShiftRight => seq!['S', 'h', 'i', 'f', 't', 'R', 'i', 'g', 'h', 't'],
        ConfigKey::MetaLeft => seq!['M', 'e', 't', 'a', 'L', 'e', 'f', 't'],
        ConfigKey::MetaRight => seq!['M', 'e', 't', 'a', 'R', 'i', 'g', 'h', 't'],
        ConfigKey::CapsLock => seq!['C', 'a', 'p', 's', 'L', 'o', 'c', 'k'],
        ConfigKey::NumLock => seq!['N', 'u', 'm', 'L', 'o', 'c', 'k'],
        ConfigKey::ScrollLock => seq!['S', 'c', 'r', 'o', 'l', 'l', 'L', 'o', 'c', 'k'],
        ConfigKey::Comma => seq!['C', 'o', 'm', 'm', 'a'],
        ConfigKey::Dot => seq!['D', 'o', 't'],
        ConfigKey::Slash => seq!['S', 'l', 'a', 's', 'h'],
        ConfigKey::SemiColon => seq!['S', 'e', 'm', 'i', 'C', 'o', 'l', 'o', 'n'],
        ConfigKey::Quote => seq!['Q', 'u', 'o', 't', 'e'],
        ConfigKey::LeftBracket => seq!['L', 'e', 'f', 't', 'B', 'r', 'a', 'c', 'k', 'e', 't'],
        ConfigKey::RightBracket => seq!['R', 'i', 'g', 'h', 't', 'B', 'r', 'a', 'c', 'k', 'e', 't'],
        ConfigKey::BackSlash => seq!['B', 'a', 'c', 'k', 'S', 'l', 'a', 's', 'h'],
        ConfigKey::Minus => seq!['M', 'i', 'n', 'u', 's'],
        ConfigKey::Equal => seq!['E', 'q', 'u', 'a', 'l'],
        ConfigKey::Backquote => seq!['B', 'a', 'c', 'k', 'q', 'u', 'o', 't', 'e'],
    }
}

/// The position of a key in the declaration order.
pub open spec fn config_key_index(k: ConfigKey) -> int {
    match k {
        ConfigKey::KeyA => 0,
        ConfigKey::KeyB => 1,
        ConfigKey::KeyC => 2,
        ConfigKey::KeyD => 3,
        ConfigKey::KeyE => 4,
        ConfigKey::KeyF => 5,
        ConfigKey::KeyG => 6,
        ConfigKey::KeyH => 7,
        ConfigKey::KeyI => 8,
        ConfigKey::KeyJ => 9,
        ConfigKey::KeyK => 10,
        ConfigKey::KeyL => 11,
        ConfigKey::KeyM => 12,
        ConfigKey::KeyN => 13,
        ConfigKey::KeyO => 14,
        ConfigKey::KeyP => 15,
        ConfigKey::KeyQ => 16,
        ConfigKey::KeyR => 17,
        ConfigKey::KeyS => 18,
        ConfigKey::KeyT => 19,
        ConfigKey::KeyU => 20,
        ConfigKey::KeyV => 21,
        ConfigKey::KeyW => 22,
        ConfigKey::KeyX => 23,
        ConfigKey::KeyY => 24,
        ConfigKey::KeyZ => 25,
        ConfigKey::Num0 => 26,
        ConfigKey::Num1 => 27,
        ConfigKey::Num2 => 28,
        ConfigKey::Num3 => 29,
        ConfigKey::Num4 => 30,
        ConfigKey::Num5 => 31,
        ConfigKey::Num6 => 32,
        ConfigKey::Num7 => 33,
        ConfigKey::Num8 => 34,
        ConfigKey::Num9 => 35,
        ConfigKey::F1 => 36,
        ConfigKey::F2 => 37,
        ConfigKey::F3 => 38,
        ConfigKey::F4 => 39,
        ConfigKey::F5 => 40,
        ConfigKey::F6 => 41,
        ConfigKey::F7 => 42,
        ConfigKey::F8 => 43,
        ConfigKey::F9 => 44,
        ConfigKey::F10 => 45,
        ConfigKey::F11 => 46,
        ConfigKey::F12 => 47,
        ConfigKey::Space => 48,
        ConfigKey::Return => 49,
        ConfigKey::Escape => 50,
        ConfigKey::Tab => 51,
        ConfigKey::Backspace => 52,
        ConfigKey::Insert => 53,
        ConfigKey::Delete => 54,
        ConfigKey::Home => 55,
        ConfigKey::End => 56,
        ConfigKey::PageUp => 57,
        ConfigKey::PageDown => 58,
        ConfigKey::UpArrow => 59,
        ConfigKey::DownArrow => 60,
        ConfigKey::LeftArrow => 61,
        ConfigKey::RightArrow => 62,
        ConfigKey::Alt => 63,
        ConfigKey::ControlLeft => 64,
        ConfigKey::ControlRight => 65,
        ConfigKey::ShiftLeft => 66,
        ConfigKey::ShiftRight => 67,
        ConfigKey::MetaLeft => 68,
        ConfigKey::MetaRight => 69,
        ConfigKey::CapsLock => 70,
        ConfigKey::NumLock => 71,
        ConfigKey::ScrollLock => 72,
        ConfigKey::Comma => 73,
        ConfigKey::Dot => 74,
        ConfigKey::Slash => 75,
        ConfigKey::SemiColon => 76,
        ConfigKey::Quote => 77,
        ConfigKey::LeftBracket => 78,
        ConfigKey::RightBracket => 79,
        ConfigKey::BackSlash => 80,
        ConfigKey::Minus => 81,
        ConfigKey::Equal => 82,
        ConfigKey::Backquote => 83,
    }
}

/// The key at a position of the declaration order.
pub open spec fn config_key_at(i: int) -> ConfigKey {
    if i == 0 {
        ConfigKey::KeyA
    } else if i == 1 {
        ConfigKey::KeyB
    } else if i == 2 {
        ConfigKey::KeyC
    } else if i == 3 {
        ConfigKey::KeyD
    } else if i == 4 {
        ConfigKey::KeyE
    } else if i == 5 {
        ConfigKey::KeyF
    } else if i == 6 {
        ConfigKey::KeyG
    } else if i == 7 {
        ConfigKey::KeyH
    } else if i == 8 {
        ConfigKey::KeyI
    } else if i == 9 {
        ConfigKey::KeyJ
    } else if i == 10 {
        ConfigKey::KeyK
    } else if i == 11 {
        ConfigKey::KeyL
    } else if i == 12 {
        ConfigKey::KeyM
    } else if i == 13 {
        ConfigKey::KeyN
    } else if i == 14 {
        ConfigKey::KeyO
    } else if i == 15 {
        ConfigKey::KeyP
    } else if i == 16 {
        ConfigKey::KeyQ
    } else if i == 17 {
        ConfigKey::KeyR
    } else if i == 18 {
        ConfigKey::KeyS
    } else if i == 19 {
        ConfigKey::KeyT
    } else if i == 20 {
        ConfigKey::KeyU
    } else if i == 21 {
        ConfigKey::KeyV
    } else if i == 22 {
        ConfigKey::KeyW
    } else if i == 23 {
        ConfigKey::KeyX
    } else if i == 24 {
        ConfigKey::KeyY
    } else if i == 25 {
        ConfigKey::KeyZ
    } else if i == 26 {
        ConfigKey::Num0
    } else if i == 27 {
        ConfigKey::Num1
    } else if i == 28 {
        ConfigKey::Num2
    } else if i == 29 {
        ConfigKey::Num3
    } else if i == 30 {
        ConfigKey::Num4
    } else if i == 31 {
        ConfigKey::Num5
    } else if i == 32 {
        ConfigKey::Num6
    } else if i == 33 {
        ConfigKey::Num7
    } else if i == 34 {
        ConfigKey::Num8
    } else if i == 35 {
        ConfigKey::Num9
    } else if i == 36 {
        ConfigKey::F1
    } else if i == 37 {
        ConfigKey::F2
    } else if i == 38 {
        ConfigKey::F3
    } else if i == 39 {
        ConfigKey::F4
    } else if i == 40 {
        ConfigKey::F5
    } else if i == 41 {
        ConfigKey::F6
    } else if i == 42 {
        ConfigKey::F7
    } else if i == 43 {
        ConfigKey::F8
    } else if i == 44 {
        ConfigKey::F9
    } else if i == 45 {
        ConfigKey::F10
    } else if i == 46 {
        ConfigKey::F11
    } else if i == 47 {
        ConfigKey::F12
    } else if i == 48 {
        ConfigKey::Space
    } else if i == 49 {
        ConfigKey::Return
    } else if i == 50 {
        ConfigKey::Escape
    } else if i == 51 {
        ConfigKey::Tab
    } else if i == 52 {
        ConfigKey::Backspace
    } else if i == 53 {
        ConfigKey::Insert
    } else if i == 54 {
        ConfigKey::Delete
    } else if i == 55 {
        ConfigKey::Home
    } else if i == 56 {
        ConfigKey::End
    } else if i == 57 {
        ConfigKey::PageUp
    } else if i == 58 {
        ConfigKey::PageDown
    } else if i == 59 {
        ConfigKey::UpArrow
    } else if i == 60 {
        ConfigKey::DownArrow
    } else if i == 61 {
        ConfigKey::LeftArrow
    } else if i == 62 {
        ConfigKey::RightArrow
    } else if i == 63 {
        ConfigKey::Alt
    } else if i == 64 {
        ConfigKey::ControlLeft
    } else if i == 65 {
        ConfigKey::ControlRight
    } else if i == 66 {
        ConfigKey::ShiftLeft
    } else if i == 67 {
        ConfigKey::ShiftRight
    } else if i == 68 {
        ConfigKey::MetaLeft
    } else if i == 69 {
        ConfigKey::MetaRight
    } else if i == 70 {
        ConfigKey::CapsLock
    } else if i == 71 {
        ConfigKey::NumLock
    } else if i == 72 {
        ConfigKey::ScrollLock
    } else if i == 73 {
        ConfigKey::Comma
    } else if i == 74 {
        ConfigKey::Dot
    } else if i == 75 {
        ConfigKey::Slash
    } else if i == 76 {
        ConfigKey::SemiColon
    } else if i == 77 {
        ConfigKey::Quote
    } else if i == 78 {
        ConfigKey::LeftBracket
    } else if i == 79 {
        ConfigKey::RightBracket
    } else if i == 80 {
        ConfigKey::BackSlash
    } else if i == 81 {
        ConfigKey::Minus
    } else if i == 82 {
        ConfigKey::Equal
    } else {
        ConfigKey::Backquote
    }
}

/// Every key sits at its own position.
pub proof fn lemma_config_key_at_index(k: ConfigKey)
    ensures
        0 <= config_key_index(k) < CONFIG_KEY_COUNT,
        config_key_at(config_key_index(k)) == k,
{
}

/// Reads back the position of a key from its name (`-1` for a string that names no key).
spec fn config_key_index_of_name(s: Seq<char>) -> int {
    if s.len() == 2 {
        if s[1] == '1' {
            36
        } else if s[1] == '2' {
            37
        } else if s[1] == '3' {
            38
        } else if s[1] == '4' {
            39
        } else if s[1] == '5' {
            40
        } else if s[1] == '6' {
            41
        } else if s[1] == '7' {
            42
        } else if s[1] == '8' {
            43
        } else if s[1] == '9' {
            44
        } else {
            -1
        }
    } else if s.len() == 3 {
        if s[2] == '0' {
            45
        } else if s[2] == '1' {
            46
        } else if s[2] == '2' {
            47
        } else if s[2] == 'b' {
            51
        } else if s[2] == 'd' {
            56
        } else if s[2] == 't' {
            if s[0] == 'A' {
                63
            } else if s[0] == 'D' {
                74
            } else {
                -1
            }
        } else {
            -1
        }
    } else if s.len() == 4 {
        if s[3] == '0' {
            26
        } else if s[3] == '1' {
            27
        } else if s[3] == '2' {
            28
        } else if s[3] == '3' {
            29
        } else if s[3] == '4' {
            30
        } else if s[3] == '5' {
            31
        } else if s[3] == '6' {
            32
        } else if s[3] == '7' {
            33
        } else if s[3] == '8' {
            34
        } else if s[3] == '9' {
            35
        } else if s[3] == 'A' {
            0
        } else if s[3] == 'B' {
            1
        } else if s[3] == 'C' {
            2
        } else if s[3] == 'D' {
            3
        } else if s[3] == 'E' {
            4
        } else if s[3] == 'F' {
            5
        } else if s[3] == 'G' {
            6
        } else if s[3] == 'H' {
            7
        } else if s[3] == 'I' {
            8
        } else if s[3] == 'J' {
            9
        } else if s[3] == 'K' {
            10
        } else if s[3] == 'L' {
            11
        } else if s[3] == 'M' {
            12
        } else if s[3] == 'N' {
            13
        } else if s[3] == 'O' {
            14
        } else if s[3] == 'P' {
            15
        } else if s[3] == 'Q' {
            16
        } else if s[3] == 'R' {
            17
        } else if s[3] == 'S' {
            18
        } else if s[3] == 'T' {
            19
        } else if s[3] == 'U' {
            20
        } else if s[3] == 'V' {
            21
        } else if s[3] == 'W' {
            22
        } else if s[3] == 'X' {
            23
        } else if s[3] == 'Y' {
            24
        } else if s[3] == 'Z' {
            25
        } else if s[3] == 'e' {
            55
        } else {
            -1
        }
    } else if s.len() == 5 {
        if s[1] == 'i' {
            81
        } else if s[1] == 'l' {
            75
        } else if s[1] == 'o' {
            73
        } else if s[1] == 'p' {
            48
        } else if s[1] == 'q' {
            82
        } else if s[1] == 'u' {
            77
        } else {
            -1
        }
    } else if s.len() == 6 {
        if s[0] == 'D' {
            54
        } else if s[0] == 'E' {
            50
        } else if s[0] == 'I' {
            53
        } else if s[0] == 'P' {
            57
        } else if s[0] == 'R' {
            49
        } else {
            -1
        }
    } else if s.len() == 7 {
        if s[0] == 'N' {
            71
        } else if s[0] == 'U' {
            59
        } else {
            -1
        }
    } else if s.len() == 8 {
        if s[0] == 'C' {
            70
        } else if s[0] == 'M' {
            68
        } else if s[0] == 'P' {
            58
        } else {
            -1
        }
    } else if s.len() == 9 {
        if s[4] == 'A' {
            if s[0] == 'D' {
                60
            } else if s[0] == 'L' {
                61
            } else {
                -1
            }
        } else if s[4] == 'C' {
            76
        } else if s[4] == 'R' {
            69
        } else if s[4] == 'S' {
            80
        } else if s[4] == 'q' {
            83
        } else if s[4] == 's' {
            52
        } else if s[4] == 't' {
            66
        } else {
            -1
        }
    } else if s.len() == 10 {
        if s[1] == 'c' {
            72
        } else if s[1] == 'h' {
            67
        } else if s[1] == 'i' {
            62
        } else {
            -1
        }
    } else if s.len() == 11 {
        if s[0] == 'C' {
            64
        } else if s[0] == 'L' {
            78
        } else {
            -1
        }
    } else if s.len() == 12 {
        if s[0] == 'C' {
            65
        } else if s[0] == 'R' {
            79
        } else {
            -1
        }
    } else {
        -1
    }
}

proof fn lemma_config_key_name_decodes(k: ConfigKey)
    ensures
        config_key_index_of_name(config_key_name(k)) == config_key_index(k),
{
}

/// Two keys with the same name are the same key.
pub proof fn lemma_config_key_name_injective(a: ConfigKey, b: ConfigKey)
    requires
        config_key_name(a) == config_key_name(b),
    ensures
        a == b,
{
    lemma_config_key_name_decodes(a);
    lemma_config_key_name_decodes(b);
    lemma_config_key_at_index(a);
    lemma_config_key_at_index(b);
}

impl ConfigKey {
    /// The key at position `i` of the declaration order, if there is one.
    pub fn from_index(i: usize) -> (r: Option<ConfigKey>)
        ensures
            r == (if i < CONFIG_KEY_COUNT { Some(config_key_at(i as int)) } else { None::<ConfigKey> }),
    {
        match i {
            0 => Some(ConfigKey::KeyA),
            1 => Some(ConfigKey::KeyB),
            2 => Some(ConfigKey::KeyC),
            3 => Some(ConfigKey::KeyD),
            4 => Some(ConfigKey::KeyE),
            5 => Some(ConfigKey::KeyF),
            6 => Some(ConfigKey::KeyG),
            7 => Some(ConfigKey::KeyH),
            8 => Some(ConfigKey::KeyI),
            9 => Some(ConfigKey::KeyJ),
            10 => Some(ConfigKey::KeyK),
            11 => Some(ConfigKey::KeyL),
            12 => Some(ConfigKey::KeyM),
            13 => Some(ConfigKey::KeyN),
            14 => Some(ConfigKey::KeyO),
            15 => Some(ConfigKey::KeyP),
            16 => Some(ConfigKey::KeyQ),
            17 => Some(ConfigKey::KeyR),
            18 => Some(ConfigKey::KeyS),
            19 => Some(ConfigKey::KeyT),
            20 => Some(ConfigKey::KeyU),
            21 => Some(ConfigKey::KeyV),
            22 => Some(ConfigKey::KeyW),
            23 => Some(ConfigKey::KeyX),
            24 => Some(ConfigKey::KeyY),
            25 => Some(ConfigKey::KeyZ),
            26 => Some(ConfigKey::Num0),
            27 => Some(ConfigKey::Num1),
            28 => Some(ConfigKey::Num2),
            29 => Some(ConfigKey::Num3),
            30 => Some(ConfigKey::Num4),
            31 => Some(ConfigKey::Num5),
            32 => Some(ConfigKey::Num6),
            33 => Some(ConfigKey::Num7),
            34 => Some(ConfigKey::Num8),
            35 => Some(ConfigKey::Num9),
            36 => Some(ConfigKey::F1),
            37 => Some(ConfigKey::F2),
            38 => Some(ConfigKey::F3),
            39 => Some(ConfigKey::F4),
            40 => Some(ConfigKey::F5),
            41 => Some(ConfigKey::F6),
            42 => Some(ConfigKey::F7),
            43 => Some(ConfigKey::F8),
            44 => Some(ConfigKey::F9),
            45 => Some(ConfigKey::F10),
            46 => Some(ConfigKey::F11),
            47 => Some(ConfigKey::F12),
            48 => Some(ConfigKey::Space),
            49 => Some(ConfigKey::Return),
            50 => Some(ConfigKey::Escape),
            51 => Some(ConfigKey::Tab),
            52 => Some(ConfigKey::Backspace),
            53 => Some(ConfigKey::Insert),
            54 => Some(ConfigKey::Delete),
            55 => Some(ConfigKey::Home),
            56 => Some(ConfigKey::End),
            57 => Some(ConfigKey::PageUp),
            58 => Some(ConfigKey::PageDown),
            59 => Some(ConfigKey::UpArrow),
            60 => Some(ConfigKey::DownArrow),
            61 => Some(ConfigKey::LeftArrow),
            62 => Some(ConfigKey::RightArrow),
            63 => Some(ConfigKey::Alt),
            64 => Some(ConfigKey::ControlLeft),
            65 => Some(ConfigKey::ControlRight),
            66 => Some(ConfigKey::ShiftLeft),
            67 => Some(ConfigKey::ShiftRight),
            68 => Some(ConfigKey::MetaLeft),
            69 => Some(ConfigKey::MetaRight),
            70 => Some(ConfigKey::CapsLock),
            71 => Some(ConfigKey::NumLock),
            72 => Some(ConfigKey::ScrollLock),
            73 => Some(ConfigKey::Comma),
            74 => Some(ConfigKey::Dot),
            75 => Some(ConfigKey::Slash),
            76 => Some(ConfigKey::SemiColon),
            77 => Some(ConfigKey::Quote),
            78 => Some(ConfigKey::LeftBracket),
            79 => Some(ConfigKey::RightBracket),
            80 => Some(ConfigKey::BackSlash),
            81 => Some(ConfigKey::Minus),
            82 => Some(ConfigKey::Equal),
            83 => Some(ConfigKey::Backquote),
            _ => None,
        }
    }

    /// The name of the key, as its variant is called.
    pub fn to_string(&self) -> (s: String)
        ensures
            s@ == config_key_name(*self),
    {
        match self {
            ConfigKey::KeyA => {
                proof { reveal_strlit("KeyA"); }
                "KeyA".to_owned()
            },
            ConfigKey::KeyB => {
                proof { reveal_strlit("KeyB"); }
                "KeyB".to_owned()
            },
            ConfigKey::KeyC => {
                proof { reveal_strlit("KeyC"); }
                "KeyC".to_owned()
            },
            ConfigKey::KeyD => {
                proof { reveal_strlit("KeyD"); }
                "KeyD".to_owned()
            },
            ConfigKey::KeyE => {
                proof { reveal_strlit("KeyE"); }
                "KeyE".to_owned()
            },
            ConfigKey::KeyF => {
                proof { reveal_strlit("KeyF"); }
                "KeyF".to_owned()
            },
            ConfigKey::KeyG => {
                proof { reveal_strlit("KeyG"); }
                "KeyG".to_owned()
            },
            ConfigKey::KeyH => {
                proof { reveal_strlit("KeyH"); }
                "KeyH".to_owned()
            },
            ConfigKey::KeyI => {
                proof { reveal_strlit("KeyI"); }
                "KeyI".to_owned()
            },
            ConfigKey::KeyJ => {
                proof { reveal_strlit("KeyJ"); }
                "KeyJ".to_owned()
            },
            ConfigKey::KeyK => {
                proof { reveal_strlit("KeyK"); }
                "KeyK".to_owned()
            },
            ConfigKey::KeyL => {
                proof { reveal_strlit("KeyL"); }
                "KeyL".to_owned()
            },
            ConfigKey::KeyM => {
                proof { reveal_strlit("KeyM"); }
                "KeyM".to_owned()
            },
            ConfigKey::KeyN => {
                proof { reveal_strlit("KeyN"); }
                "KeyN".to_owned()
            },
            ConfigKey::KeyO => {
                proof { reveal_strlit("KeyO"); }
                "KeyO".to_owned()
            },
            ConfigKey::KeyP => {
                proof { reveal_strlit("KeyP"); }
                "KeyP".to_owned()
            },
            ConfigKey::KeyQ => {
                proof { reveal_strlit("KeyQ"); }
                "KeyQ".to_owned()
            },
            ConfigKey::KeyR => {
                proof { reveal_strlit("KeyR"); }
                "KeyR".to_owned()
            },
            ConfigKey::KeyS => {
                proof { reveal_strlit("KeyS"); }
                "KeyS".to_owned()
            },
            ConfigKey::KeyT => {
                proof { reveal_strlit("KeyT"); }
                "KeyT".to_owned()
            },
            ConfigKey::KeyU => {
                proof { reveal_strlit("KeyU"); }
                "KeyU".to_owned()
            },
            ConfigKey::KeyV => {
                proof { reveal_strlit("KeyV"); }
                "KeyV".to_owned()
            },
            ConfigKey::KeyW => {
                proof { reveal_strlit("KeyW"); }
                "KeyW".to_owned()
            },
            ConfigKey::KeyX => {
                proof { reveal_strlit("KeyX"); }
                "KeyX".to_owned()
            },
            ConfigKey::KeyY => {
                proof { reveal_strlit("KeyY"); }
                "KeyY".to_owned()
            },
            ConfigKey::KeyZ => {
                proof { reveal_strlit("KeyZ"); }
                "KeyZ".to_owned()
            },
            ConfigKey::Num0 => {
                proof { reveal_strlit("Num0"); }
                "Num0".to_owned()
            },
            ConfigKey::Num1 => {
                proof { reveal_strlit("Num1"); }
                "Num1".to_owned()
            },
            ConfigKey::Num2 => {
                proof { reveal_strlit("Num2"); }
                "Num2".to_owned()
            },
            ConfigKey::Num3 => {
                proof { reveal_strlit("Num3"); }
                "Num3".to_owned()
            },
            ConfigKey::Num4 => {
                proof { reveal_strlit("Num4"); }
                "Num4".to_owned()
            },
            ConfigKey::Num5 => {
                proof { reveal_strlit("Num5"); }
                "Num5".to_owned()
            },
            ConfigKey::Num6 => {
                proof { reveal_strlit("Num6"); }
                "Num6".to_owned()
            },
            ConfigKey::Num7 => {
                proof { reveal_strlit("Num7"); }
                "Num7".to_owned()
            },
            ConfigKey::Num8 => {
                proof { reveal_strlit("Num8"); }
                "Num8".to_owned()
            },
            ConfigKey::Num9 => {
                proof { reveal_strlit("Num9"); }
                "Num9".to_owned()
            },
            ConfigKey::F1 => {
                proof { reveal_strlit("F1"); }
                "F1".to_owned()
            },
            ConfigKey::F2 => {
                proof { reveal_strlit("F2"); }
                "F2".to_owned()
            },
            ConfigKey::F3 => {
                proof { reveal_strlit("F3"); }
                "F3".to_owned()
            },
            ConfigKey::F4 => {
                proof { reveal_strlit("F4"); }
                "F4".to_owned()
            },
            ConfigKey::F5 => {
                proof { reveal_strlit("F5"); }
                "F5".to_owned()
            },
            ConfigKey::F6 => {
                proof { reveal_strlit("F6"); }
                "F6".to_owned()
            },
            ConfigKey::F7 => {
                proof { reveal_strlit("F7"); }
                "F7".to_owned()
            },
            ConfigKey::F8 => {
                proof { reveal_strlit("F8"); }
                "F8".to_owned()
            },
            ConfigKey::F9 => {
                proof { reveal_strlit("F9"); }
                "F9".to_owned()
            },
            ConfigKey::F10 => {
                proof { reveal_strlit("F10"); }
                "F10".to_owned()
            },
            ConfigKey::F11 => {
                proof { reveal_strlit("F11"); }
                "F11".to_owned()
            },
            ConfigKey::F12 => {
                proof { reveal_strlit("F12"); }
                "F12".to_owned()
            },
            ConfigKey::Space => {
                proof { reveal_strlit("Space"); }
                "Space".to_owned()
            },
            ConfigKey::Return => {
                proof { reveal_strlit("Return"); }
                "Return".to_owned()
            },
            ConfigKey::Escape => {
                proof { reveal_strlit("Escape"); }
                "Escape".to_owned()
            },
            ConfigKey::Tab => {
                proof { reveal_strlit("Tab"); }
                "Tab".to_owned()
            },
            ConfigKey::Backspace => {
                proof { reveal_strlit("Backspace"); }
                "Backspace".to_owned()
            },
            ConfigKey::Insert => {
                proof { reveal_strlit("Insert"); }
                "Insert".to_owned()
            },
            ConfigKey::Delete => {
                proof { reveal_strlit("Delete"); }
                "Delete".to_owned()
            },
            ConfigKey::Home => {
                proof { reveal_strlit("Home"); }
                "Home".to_owned()
            },
            ConfigKey::End => {
                proof { reveal_strlit("End"); }
                "End".to_owned()
            },
            ConfigKey::PageUp => {
                proof { reveal_strlit("PageUp"); }
                "PageUp".to_owned()
            },
            ConfigKey::PageDown => {
                proof { reveal_strlit("PageDown"); }
                "PageDown".to_owned()
            },
            ConfigKey::UpArrow => {
                proof { reveal_strlit("UpArrow"); }
                "UpArrow".to_owned()
            },
            ConfigKey::DownArrow => {
                proof { reveal_strlit("DownArrow"); }
                "DownArrow".to_owned()
            },
            ConfigKey::LeftArrow => {
                proof { reveal_strlit("LeftArrow"); }
                "LeftArrow".to_owned()
            },
            ConfigKey::RightArrow => {
                proof { reveal_strlit("RightArrow"); }
                "RightArrow".to_owned()
            },
            ConfigKey::Alt => {
                proof { reveal_strlit("Alt"); }
                "Alt".to_owned()
            },
            ConfigKey::ControlLeft => {
                proof { reveal_strlit("ControlLeft"); }
                "ControlLeft".to_owned()
            },
            ConfigKey::ControlRight => {
                proof { reveal_strlit("ControlRight"); }
                "ControlRight".to_owned()
            },
            ConfigKey::ShiftLeft => {
                proof { reveal_strlit("ShiftLeft"); }
                "ShiftLeft".to_owned()
            },
            ConfigKey::ShiftRight => {
                proof { reveal_strlit("ShiftRight"); }
                "ShiftRight".to_owned()
            },
            ConfigKey::MetaLeft => {
                proof { reveal_strlit("MetaLeft"); }
                "MetaLeft".to_owned()
            },
            ConfigKey::MetaRight => {
                proof { reveal_strlit("MetaRight"); }
                "MetaRight".to_owned()
            },
            ConfigKey::CapsLock => {
                proof { reveal_strlit("CapsLock"); }
                "CapsLock".to_owned()
            },
            ConfigKey::NumLock => {
                proof { reveal_strlit("NumLock"); }
                "NumLock".to_owned()
            },
            ConfigKey::ScrollLock => {
                proof { reveal_strlit("ScrollLock"); }
                "ScrollLock".to_owned()
            },
            ConfigKey::Comma => {
                proof { reveal_strlit("Comma"); }
                "Comma".to_owned()
            },
            ConfigKey::Dot => {
                proof { reveal_strlit("Dot"); }
                "Dot".to_owned()
            },
            ConfigKey::Slash => {
                proof { reveal_strlit("Slash"); }
                "Slash".to_owned()
            },
            ConfigKey::SemiColon => {
                proof { reveal_strlit("SemiColon"); }
                "SemiColon".to_owned()
            },
            ConfigKey::Quote => {
                proof { reveal_strlit("Quote"); }
                "Quote".to_owned()
            },
            ConfigKey::LeftBracket => {
                proof { reveal_strlit("LeftBracket"); }
                "LeftBracket".to_owned()
            },
            ConfigKey::RightBracket => {
                proof { reveal_strlit("RightBracket"); }
                "RightBracket".to_owned()
            },
            ConfigKey::BackSlash => {
                proof { reveal_strlit("BackSlash"); }
                "BackSlash".to_owned()
            },
            ConfigKey::Minus => {
                proof { reveal_strlit("Minus"); }
                "Minus".to_owned()
            },
            ConfigKey::Equal => {
                proof { reveal_strlit("Equal"); }
                "Equal".to_owned()
            },
            ConfigKey::Backquote => {
                proof { reveal_strlit("Backquote"); }
                "Backquote".to_owned()
            },
        }
    }
}


/// The key that a string names, if any.
pub open spec fn config_key_named(s: Seq<char>) -> Option<ConfigKey> {
    if exists|k: ConfigKey| config_key_name(k) == s {
        Some(choose|k: ConfigKey| config_key_name(k) == s)
    } else {
        None
    }
}

/// The key that a name names is the key of that name.
pub proof fn lemma_config_key_named_name(k: ConfigKey)
    ensures
        config_key_named(config_key_name(k)) == Some(k),
{
    let j = choose|j: ConfigKey| config_key_name(j) == config_key_name(k);
    lemma_config_key_name_injective(j, k);
}

/// The key whose name a character sequence spells, searched in declaration order.
pub fn config_key_from_chars(cs: &[char]) -> (r: Option<ConfigKey>)
    ensures
        r == config_key_named(cs@),
{
    for i in 0..CONFIG_KEY_COUNT
        invariant
            forall|k: ConfigKey| config_key_index(k) < i ==> config_key_name(k) != cs@,
    {
        let k = ConfigKey::from_index(i).unwrap();
        let name = k.to_string();
        let name_chars = chars_of(name.as_str());
        if chars_eq(cs, name_chars.as_slice()) {
            proof {
                lemma_config_key_named_name(k);
            }
            return Some(k);
        }
        assert forall|j: ConfigKey| config_key_index(j) < i + 1 implies config_key_name(j) != cs@ by {
            lemma_config_key_at_index(j);
        }
    }
    assert forall|j: ConfigKey| config_key_name(j) != cs@ by {
        lemma_config_key_at_index(j);
    }
    None
}

/// The message that names a string that no key has.
pub open spec fn unknown_key_message(s: Seq<char>) -> Seq<char> {
    "Unknown key: "@ + s
}

impl ConfigKey {
    /// Parses a key from its name (`FromStr`).
    pub fn from_str(s: &str) -> (r: Result<ConfigKey, String>)
        ensures
            match r {
                Ok(k) => config_key_named(s@) == Some(k),
                Err(e) => config_key_named(s@) is None && e@ == unknown_key_message(s@),
            },
    {
        let cs = chars_of(s);
        match config_key_from_chars(cs.as_slice()) {
            Some(k) => Ok(k),
            None => Err(concat_str("Unknown key: ", s)),
        }
    }
}

/// How a key is shown to the user: a letter key as its letter, any other key by its name.
pub open spec fn key_label(k: ConfigKey) -> Seq<char> {
    let s = config_key_name(k);
    if s.len() == 4 && s.take(3) == seq!['K', 'e', 'y'] {
        s.skip(3).map_values(|c: char| ascii_upper(c))
    } else {
        s
    }
}

/// The text that stands for a key in the configuration.
pub fn key_to_string(key: ConfigKey) -> (s: String)
    ensures
        s@ == key_label(key),
{
    let name = key.to_string();
    let cs = chars_of(name.as_str());
    if cs.len() == 4 && cs[0] == 'K' && cs[1] == 'e' && cs[2] == 'y' {
        let mut up: Vec<char> = Vec::new();
        up.push(to_ascii_upper(cs[3]));
        assert(cs@.take(3) =~= seq!['K', 'e', 'y']);
        assert(up@ =~= cs@.skip(3).map_values(|c: char| ascii_upper(c)));
        string_from_chars(up.as_slice())
    } else {
        proof {
            if cs@.len() == 4 && cs@.take(3) == seq!['K', 'e', 'y'] {
                assert(cs@[0] == cs@.take(3)[0]);
                assert(cs@[1] == cs@.take(3)[1]);
                assert(cs@[2] == cs@.take(3)[2]);
            }
        }
        name
    }
}

/// The text to look a key up by: a single ASCII letter stands for the key of that letter.
pub open spec fn key_lookup_text(s: Seq<char>) -> Seq<char> {
    if s.len() == 1 && is_ascii_alpha(s[0]) {
        seq!['K', 'e', 'y', ascii_upper(s[0])]
    } else {
        s
    }
}

/// The key that a configuration text stands for, if any.
pub open spec fn key_of_text(s: Seq<char>) -> Option<ConfigKey> {
    config_key_named(key_lookup_text(s))
}

/// Reads a key from the text that stands for it in the configuration.
pub fn string_to_key(s: &str) -> (r: Option<ConfigKey>)
    ensures
        r == key_of_text(s@),
{
    let cs = chars_of(s);
    if cs.len() == 1 && is_ascii_alpha_char(cs[0]) {
        let mut t: Vec<char> = Vec::new();
        t.push('K');
        t.push('e');
        t.push('y');
        t.push(to_ascii_upper(cs[0]));
        assert(t@ =~= seq!['K', 'e', 'y', ascii_upper(s@[0])]);
        config_key_from_chars(t.as_slice())
    } else {
        config_key_from_chars(cs.as_slice())
    }
}

/// A key or mouse button that a feature is bound to.
#[derive(Clone, Copy, PartialEq, Eq, Debug, Structural)]
pub enum BindKey {
    Keyboard(ConfigKey),
    MouseMiddle,
    Mouse4,
    Mouse5,
}

/// How a binding is written in the configuration and shown to the user.
pub open spec fn bind_key_label(b: BindKey) -> Seq<char> {
    match b {
        BindKey::Keyboard(k) => key_label(k),
        BindKey::MouseMiddle => seq!['M', 'o', 'u', 's', 'e', ' ', 'M', 'i', 'd', 'd', 'l', 'e'],
        BindKey::Mouse4 => seq!['M', 'o', 'u', 's', 'e', ' ', '4'],
        BindKey::Mouse5 => seq!['M', 'o', 'u', 's', 'e', ' ', '5'],
    }
}

/// The binding that a configuration text stands for, if any.
pub open spec fn bind_key_of_text(s: Seq<char>) -> Option<BindKey> {
    if s == seq!['M', 'o', 'u', 's', 'e', ' ', 'M', 'i', 'd', 'd', 'l', 'e'] {
        Some(BindKey::MouseMiddle)
    } else if s == seq!['M', 'o', 'u', 's', 'e', ' ', '4'] {
        Some(BindKey::Mouse4)
    } else if s == seq!['M', 'o', 'u', 's', 'e', ' ', '5'] {
        Some(BindKey::Mouse5)
    } else {
        match key_of_text(s) {
            Some(k) => Some(BindKey::Keyboard(k)),
            None => None,
        }
    }
}

impl BindKey {
    /// The text of the binding (see `bind_key_label`).
    pub fn to_string(&self) -> (s: String)
        ensures
            s@ == bind_key_label(*self),
    {
        match self {
            BindKey::Keyboard(k) => key_to_string(*k),
            BindKey::MouseMiddle => {
                proof {
                    reveal_strlit("Mouse Middle");
                }
                "Mouse Middle".to_owned()
            },
            BindKey::Mouse4 => {
                proof {
                    reveal_strlit("Mouse 4");
                }
                "Mouse 4".to_owned()
            },
            BindKey::Mouse5 => {
                proof {
                    reveal_strlit("Mouse 5");
                }
                "Mouse 5".to_owned()
            },
        }
    }

    /// Reads a binding back from its text.
    pub fn from_string(s: &str) -> (r: Option<BindKey>)
        ensures
            r == bind_key_of_text(s@),
    {
        let cs = chars_of(s);
        proof {
            reveal_strlit("Mouse Middle");
            reveal_strlit("Mouse 4");
            reveal_strlit("Mouse 5");
            assert("Mouse Middle"@ =~= seq!['M', 'o', 'u', 's', 'e', ' ', 'M', 'i', 'd', 'd', 'l', 'e']);
            assert("Mouse 4"@ =~= seq!['M', 'o', 'u', 's', 'e', ' ', '4']);
            assert("Mouse 5"@ =~= seq!['M', 'o', 'u', 's', 'e', ' ', '5']);
        }
        if chars_eq_str(cs.as_slice(), "Mouse Middle") {
            Some(BindKey::MouseMiddle)
        } else if chars_eq_str(cs.as_slice(), "Mouse 4") {
            Some(BindKey::Mouse4)
        } else if chars_eq_str(cs.as_slice(), "Mouse 5") {
            Some(BindKey::Mouse5)
        } else {
            match string_to_key(s) {
                Some(k) => Some(BindKey::Keyboard(k)),
                None => None,
            }
        }
    }
}

/// The text of a key reads back as that key.
pub proof fn lemma_key_label_round_trip(k: ConfigKey)
    ensures
        key_of_text(key_label(k)) == Some(k),
        key_label(k).len() >= 1,
{
    let s = config_key_name(k);
    if s.len() == 4 && s.take(3) == seq!['K', 'e', 'y'] {
        let l = key_label(k);
        assert(l.len() == 1);
        assert(is_ascii_alpha(l[0]));
        assert(key_lookup_text(l) =~= s);
    } else {
        assert(s.len() >= 2);
    }
    lemma_config_key_named_name(k);
}

/// Writing a binding and reading the text back gives the same binding.
pub proof fn lemma_bind_key_round_trip(b: BindKey)
    ensures
        bind_key_of_text(bind_key_label(b)) == Some(b),
{
    match b {
        BindKey::Keyboard(k) => {
            lemma_key_label_round_trip(k);
            let l = key_label(k);
            assert(l != seq!['M', 'o', 'u', 's', 'e', ' ', 'M', 'i', 'd', 'd', 'l', 'e']);
            assert(l != seq!['M', 'o', 'u', 's', 'e', ' ', '4']);
            assert(l != seq!['M', 'o', 'u', 's', 'e', ' ', '5']);
        },
        _ => {},
    }
}

/// A feature of the tool that a key can trigger.
#[derive(Clone, Copy, PartialEq, Eq, Debug, Structural)]
pub enum FeatureId {
    HackingClickMtd,
    HackingJumpMtd,
    HackingEscMtd,
    TipsSkip,
    Restart,
    NoFallDamage,
    ShiftToggle,
    AutoClicker,
    FastLoadout,
    Bhop,
    HoldItemBug,
    KeepItemClicker,
    GangstaGrip,
    QuickExit,
    ToggleAllMacros,
    DoubleClick,
}

/// The name of a feature: the name of its variant.
pub open spec fn feature_id_name(f: FeatureId) -> Seq<char> {
    match f {
        FeatureId::HackingClickMtd => seq!['H', 'a', 'c', 'k', 'i', 'n', 'g', 'C', 'l', 'i', 'c', 'k', 'M', 't', 'd'],
        FeatureId::HackingJumpMtd => seq!['H', 'a', 'c', 'k', 'i', 'n', 'g', 'J', 'u', 'm', 'p', 'M', 't', 'd'],
        FeatureId::HackingEscMtd => seq!['H', 'a', 'c', 'k', 'i', 'n', 'g', 'E', 's', 'c', 'M', 't', 'd'],
        FeatureId::TipsSkip => seq!['T', 'i', 'p', 's', 'S', 'k', 'i', 'p'],
        FeatureId::Restart => seq!['R', 'e', 's', 't', 'a', 'r', 't'],
        FeatureId::NoFallDamage => seq!['N', 'o', 'F', 'a', 'l', 'l', 'D', 'a', 'm', 'a', 'g', 'e'],
        FeatureId::ShiftToggle => seq!['S', 'h', 'i', 'f', 't', 'T', 'o', 'g', 'g', 'l', 'e'],
        FeatureId::AutoClicker => seq!['A', 'u', 't', 'o', 'C', 'l', 'i', 'c', 'k', 'e', 'r'],
        FeatureId::FastLoadout => seq!['F', 'a', 's', 't', 'L', 'o', 'a', 'd', 'o', 'u', 't'],
        FeatureId::Bhop => seq!['B', 'h', 'o', 'p'],
        FeatureId::HoldItemBug => seq!['H', 'o', 'l', 'd', 'I', 't', 'e', 'm', 'B', 'u', 'g'],
        FeatureId::KeepItemClicker => seq!['K', 'e', 'e', 'p', 'I', 't', 'e', 'm', 'C', 'l', 'i', 'c', 'k', 'e', 'r'],
        FeatureId::GangstaGrip => seq!['G', 'a', 'n', 'g', 's', 't', 'a', 'G', 'r', 'i', 'p'],
        FeatureId::QuickExit => seq!['Q', 'u', 'i', 'c', 'k', 'E', 'x', 'i', 't'],
        FeatureId::ToggleAllMacros => seq!['T', 'o', 'g', 'g', 'l', 'e', 'A', 'l', 'l', 'M', 'a', 'c', 'r', 'o', 's'],
        FeatureId::DoubleClick => seq!['D', 'o', 'u', 'b', 'l', 'e', 'C', 'l', 'i', 'c', 'k'],
    }
}

/// The feature that a text names: its current name or the name it had before.
pub open spec fn feature_id_of_text(s: Seq<char>) -> Option<FeatureId> {
    if s == seq!['H', 'a', 'c', 'k', 'i', 'n', 'g', 'C', 'l', 'i', 'c', 'k', 'M', 't', 'd'] {
        Some(FeatureId::HackingClickMtd)
    } else if s == seq!['H', 'a', 'c', 'k', 'i', 'n', 'g', 'P', 'o', 's', 't', 'M', 'e', 's', 's', 'a', 'g', 'e'] {
        Some(FeatureId::HackingClickMtd)
    } else if s == seq!['H', 'a', 'c', 'k', 'i', 'n', 'g', 'J', 'u', 'm', 'p', 'M', 't', 'd'] {
        Some(FeatureId::HackingJumpMtd)
    } else if s == seq!['H', 'a', 'c', 'k', 'i', 'n', 'g', 'P', 'o', 's', 't', 'M', 'e', 's', 's', 'a', 'g', 'e', '2'] {
        Some(FeatureId::HackingJumpMtd)
    } else if s == seq!['H', 'a', 'c', 'k', 'i', 'n', 'g', 'E', 's', 'c', 'M', 't', 'd'] {
        Some(FeatureId::HackingEscMtd)
    } else if s == seq!['H', 'a', 'c', 'k', 'i', 'n', 'g', 'E', 's', 'c'] {
        Some(FeatureId::HackingEscMtd)
    } else if s == seq!['T', 'i', 'p', 's', 'S', 'k', 'i', 'p'] {
        Some(FeatureId::TipsSkip)
    } else if s == seq!['R', 'e', 's', 't', 'a', 'r', 't'] {
        Some(FeatureId::Restart)
    } else if s == seq!['N', 'o', 'F', 'a', 'l', 'l', 'D', 'a', 'm', 'a', 'g', 'e'] {
        Some(FeatureId::NoFallDamage)
    } else if s == seq!['S', 'h', 'i', 'f', 't', 'T', 'o', 'g', 'g', 'l', 'e'] {
        Some(FeatureId::ShiftToggle)
    } else if s == seq!['A', 'u', 't', 'o', 'C', 'l', 'i', 'c', 'k', 'e', 'r'] {
        Some(FeatureId::AutoClicker)
    } else if s == seq!['F', 'a', 's', 't', 'L', 'o', 'a', 'd', 'o', 'u', 't'] {
        Some(FeatureId::FastLoadout)
    } else if s == seq!['G', 'r', 'a', 'b', 'N', 'o', 'G', 'u', 'n'] {
        Some(FeatureId::FastLoadout)
    } else if s == seq!['B', 'h', 'o', 'p'] {
        Some(FeatureId::Bhop)
    } else if s == seq!['H', 'o', 'l', 'd', 'I', 't', 'e', 'm', 'B', 'u', 'g'] {
        Some(FeatureId::HoldItemBug)
    } else if s == seq!['K', 'e', 'e', 'p', 'I', 't', 'e', 'm', 'C', 'l', 'i', 'c', 'k', 'e', 'r'] {
        Some(FeatureId::KeepItemClicker)
    } else if s == seq!['L', 'M', 'B', 'H', 'o', 'l', 'd', 'T', 'o', 'g', 'g', 'l', 'e'] {
        Some(FeatureId::KeepItemClicker)
    } else if s == seq!['G', 'a', 'n', 'g', 's', 't', 'a', 'G', 'r', 'i', 'p'] {
        Some(FeatureId::GangstaGrip)
    } else if s == seq!['G', 'u', 'n', 'A', 'n', 'd', 'T', 'o', 'o', 'l'] {
        Some(FeatureId::GangstaGrip)
    } else if s == seq!['Q', 'u', 'i', 'c', 'k', 'E', 'x', 'i', 't'] {
        Some(FeatureId::QuickExit)
    } else if s == seq!['T', 'o', 'g', 'g', 'l', 'e', 'A', 'l', 'l', 'M', 'a', 'c', 'r', 'o', 's'] {
        Some(FeatureId::ToggleAllMacros)
    } else if s == seq!['D', 'o', 'u', 'b', 'l', 'e', 'C', 'l', 'i', 'c', 'k'] {
        Some(FeatureId::DoubleClick)
    } else {
        None
    }
}

/// The message that names a string that no feature has.
pub open spec fn unknown_variant_message(s: Seq<char>) -> Seq<char> {
    "Unknown variant: "@ + s
}

impl FeatureId {
    /// The name of the feature (`Display`).
    pub fn to_string(&self) -> (s: String)
        ensures
            s@ == feature_id_name(*self),
    {
        match self {
            FeatureId::HackingClickMtd => {
                proof {
                    reveal_strlit("HackingClickMtd");
                }
                "HackingClickMtd".to_owned()
            },
            FeatureId::HackingJumpMtd => {
                proof {
                    reveal_strlit("HackingJumpMtd");
                }
                "HackingJumpMtd".to_owned()
            },
            FeatureId::HackingEscMtd => {
                proof {
                    reveal_strlit("HackingEscMtd");
                }
                "HackingEscMtd".to_owned()
            },
            FeatureId::TipsSkip => {
                proof {
                    reveal_strlit("TipsSkip");
                }
                "TipsSkip".to_owned()
            },
            FeatureId::Restart => {
                proof {
                    reveal_strlit("Restart");
                }
                "Restart".to_owned()
            },
            FeatureId::NoFallDamage => {
                proof {
                    reveal_strlit("NoFallDamage");
                }
                "NoFallDamage".to_owned()
            },
            FeatureId::ShiftToggle => {
                proof {
                    reveal_strlit("ShiftToggle");
                }
                "ShiftToggle".to_owned()
            },
            FeatureId::AutoClicker => {
                proof {
                    reveal_strlit("AutoClicker");
                }
                "AutoClicker".to_owned()
            },
            FeatureId::FastLoadout => {
                proof {
                    reveal_strlit("FastLoadout");
                }
                "FastLoadout".to_owned()
            },
            FeatureId::Bhop => {
                proof {
                    reveal_strlit("Bhop");
                }
                "Bhop".to_owned()
            },
            FeatureId::HoldItemBug => {
                proof {
                    reveal_strlit("HoldItemBug");
                }
                "HoldItemBug".to_owned()
            },
            FeatureId::KeepItemClicker => {
                proof {
                    reveal_strlit("KeepItemClicker");
                }
                "KeepItemClicker".to_owned()
            },
            FeatureId::GangstaGrip => {
                proof {
                    reveal_strlit("GangstaGrip");
                }
                "GangstaGrip".to_owned()
            },
            FeatureId::QuickExit => {
                proof {
                    reveal_strlit("QuickExit");
                }
                "QuickExit".to_owned()
            },
            FeatureId::ToggleAllMacros => {
                proof {
                    reveal_strlit("ToggleAllMacros");
                }
                "ToggleAllMacros".to_owned()
            },
            FeatureId::DoubleClick => {
                proof {
                    reveal_strlit("DoubleClick");
                }
                "DoubleClick".to_owned()
            },
        }
    }

    /// Parses a feature from its name or from the name it had before (`FromStr`).
    pub fn from_str(s: &str) -> (r: Result<FeatureId, String>)
        ensures
            match r {
                Ok(f) => feature_id_of_text(s@) == Some(f),
                Err(e) => feature_id_of_text(s@) is None && e@ == unknown_variant_message(s@),
            },
    {
        let cs = chars_of(s);
        let c = cs.as_slice();
        proof {
            reveal_strlit("HackingClickMtd");
            assert("HackingClickMtd"@ =~= seq!['H', 'a', 'c', 'k', 'i', 'n', 'g', 'C', 'l', 'i', 'c', 'k', 'M', 't', 'd']);
            reveal_strlit("HackingPostMessage");
            assert("HackingPostMessage"@ =~= seq!['H', 'a', 'c', 'k', 'i', 'n', 'g', 'P', 'o', 's', 't', 'M', 'e', 's', 's', 'a', 'g', 'e']);
            reveal_strlit("HackingJumpMtd");
            assert("HackingJumpMtd"@ =~= seq!['H', 'a', 'c', 'k', 'i', 'n', 'g', 'J', 'u', 'm', 'p', 'M', 't', 'd']);
            reveal_strlit("HackingPostMessage2");
            assert("HackingPostMessage2"@ =~= seq!['H', 'a', 'c', 'k', 'i', 'n', 'g', 'P', 'o', 's', 't', 'M', 'e', 's', 's', 'a', 'g', 'e', '2']);
            reveal_strlit("HackingEscMtd");
            assert("HackingEscMtd"@ =~= seq!['H', 'a', 'c', 'k', 'i', 'n', 'g', 'E', 's', 'c', 'M', 't', 'd']);
            reveal_strlit("HackingEsc");
            assert("HackingEsc"@ =~= seq!['H', 'a', 'c', 'k', 'i', 'n', 'g', 'E', 's', 'c']);
            reveal_strlit("TipsSkip");
            assert("TipsSkip"@ =~= seq!['T', 'i', 'p', 's', 'S', 'k', 'i', 'p']);
            reveal_strlit("Restart");
            assert("Restart"@ =~= seq!['R', 'e', 's', 't', 'a', 'r', 't']);
            reveal_strlit("NoFallDamage");
            assert("NoFallDamage"@ =~= seq!['N', 'o', 'F', 'a', 'l', 'l', 'D', 'a', 'm', 'a', 'g', 'e']);
            reveal_strlit("ShiftToggle");
            assert("ShiftToggle"@ =~= seq!['S', 'h', 'i', 'f', 't', 'T', 'o', 'g', 'g', 'l', 'e']);
            reveal_strlit("AutoClicker");
            assert("AutoClicker"@ =~= seq!['A', 'u', 't', 'o', 'C', 'l', 'i', 'c', 'k', 'e', 'r']);
            reveal_strlit("FastLoadout");
            assert("FastLoadout"@ =~= seq!['F', 'a', 's', 't', 'L', 'o', 'a', 'd', 'o', 'u', 't']);
            reveal_strlit("GrabNoGun");
            assert("GrabNoGun"@ =~= seq!['G', 'r', 'a', 'b', 'N', 'o', 'G', 'u', 'n']);
            reveal_strlit("Bhop");
            assert("Bhop"@ =~= seq!['B', 'h', 'o', 'p']);
            reveal_strlit("HoldItemBug");
            assert("HoldItemBug"@ =~= seq!['H', 'o', 'l', 'd', 'I', 't', 'e', 'm', 'B', 'u', 'g']);
            reveal_strlit("KeepItemClicker");
            assert("KeepItemClicker"@ =~= seq!['K', 'e', 'e', 'p', 'I', 't', 'e', 'm', 'C', 'l', 'i', 'c', 'k', 'e', 'r']);
            reveal_strlit("LMBHoldToggle");
            assert("LMBHoldToggle"@ =~= seq!['L', 'M', 'B', 'H', 'o', 'l', 'd', 'T', 'o', 'g', 'g', 'l', 'e']);
            reveal_strlit("GangstaGrip");
            assert("GangstaGrip"@ =~= seq!['G', 'a', 'n', 'g', 's', 't', 'a', 'G', 'r', 'i', 'p']);
            reveal_strlit("GunAndTool");
            assert("GunAndTool"@ =~= seq!['G', 'u', 'n', 'A', 'n', 'd', 'T', 'o', 'o', 'l']);
            reveal_strlit("QuickExit");
            assert("QuickExit"@ =~= seq!['Q', 'u', 'i', 'c', 'k', 'E', 'x', 'i', 't']);
            reveal_strlit("ToggleAllMacros");
            assert("ToggleAllMacros"@ =~= seq!['T', 'o', 'g', 'g', 'l', 'e', 'A', 'l', 'l', 'M', 'a', 'c', 'r', 'o', 's']);
            reveal_strlit("DoubleClick");
            assert("DoubleClick"@ =~= seq!['D', 'o', 'u', 'b', 'l', 'e', 'C', 'l', 'i', 'c', 'k']);
        }
        if chars_eq_str(c, "HackingClickMtd") {
            Ok(FeatureId::HackingClickMtd)
        } else if chars_eq_str(c, "HackingPostMessage") {
            Ok(FeatureId::HackingClickMtd)
        } else if chars_eq_str(c, "HackingJumpMtd") {
            Ok(FeatureId::HackingJumpMtd)
        } else if chars_eq_str(c, "HackingPostMessage2") {
            Ok(FeatureId::HackingJumpMtd)
        } else if chars_eq_str(c, "HackingEscMtd") {
            Ok(FeatureId::HackingEscMtd)
        } else if chars_eq_str(c, "HackingEsc") {
            Ok(FeatureId::HackingEscMtd)
        } else if chars_eq_str(c, "TipsSkip") {
            Ok(FeatureId::TipsSkip)
        } else if chars_eq_str(c, "Restart") {
            Ok(FeatureId::Restart)
        } else if chars_eq_str(c, "NoFallDamage") {
            Ok(FeatureId::NoFallDamage)
        } else if chars_eq_str(c, "ShiftToggle") {
            Ok(FeatureId::ShiftToggle)
        } else if chars_eq_str(c, "AutoClicker") {
            Ok(FeatureId::AutoClicker)
        } else if chars_eq_str(c, "FastLoadout") {
            Ok(FeatureId::FastLoadout)
        } else if chars_eq_str(c, "GrabNoGun") {
            Ok(FeatureId::FastLoadout)
        } else if chars_eq_str(c, "Bhop") {
            Ok(FeatureId::Bhop)
        } else if chars_eq_str(c, "HoldItemBug") {
            Ok(FeatureId::HoldItemBug)
        } else if chars_eq_str(c, "KeepItemClicker") {
            Ok(FeatureId::KeepItemClicker)
        } else if chars_eq_str(c, "LMBHoldToggle") {
            Ok(FeatureId::KeepItemClicker)
        } else if chars_eq_str(c, "GangstaGrip") {
            Ok(FeatureId::GangstaGrip)
        } else if chars_eq_str(c, "GunAndTool") {
            Ok(FeatureId::GangstaGrip)
        } else if chars_eq_str(c, "QuickExit") {
            Ok(FeatureId::QuickExit)
        } else if chars_eq_str(c, "ToggleAllMacros") {
            Ok(FeatureId::ToggleAllMacros)
        } else if chars_eq_str(c, "DoubleClick") {
            Ok(FeatureId::DoubleClick)
        } else {
            Err(concat_str("Unknown variant: ", s))
        }
    }
}

/// The name of a feature reads back as that feature.
pub proof fn lemma_feature_id_round_trip(f: FeatureId)
    ensures
        feature_id_of_text(feature_id_name(f)) == Some(f),
{
}


/// The mouse button that the double-click feature presses.
#[derive(Clone, Copy, PartialEq, Eq, Debug, Structural)]
pub enum DoubleClickButton {
    Left,
    Right,
}

impl Default for DoubleClickButton {
    fn default() -> (b: DoubleClickButton)
        ensures
            b == DoubleClickButton::Left,
    {
        DoubleClickButton::Left
    }
}

/// How a double-click button is shown: "LMB" or "RMB".
pub open spec fn double_click_button_label(b: DoubleClickButton) -> Seq<char> {
    match b {
        DoubleClickButton::Left => seq!['L', 'M', 'B'],
        DoubleClickButton::Right => seq!['R', 'M', 'B'],
    }
}

impl DoubleClickButton {
    /// The label of the button (`Display`).
    pub fn to_string(&self) -> (s: String)
        ensures
            s@ == double_click_button_label(*self),
    {
        match self {
            DoubleClickButton::Left => {
                proof {
                    reveal_strlit("LMB");
                    assert("LMB"@ =~= seq!['L', 'M', 'B']);
                }
                "LMB".to_owned()
            },
            DoubleClickButton::Right => {
                proof {
                    reveal_strlit("RMB");
                    assert("RMB"@ =~= seq!['R', 'M', 'B']);
                }
                "RMB".to_owned()
            },
        }
    }
}

/// A feature as the configuration file stores it.
pub struct SerializableFeature {
    pub id: FeatureId,
    pub bind_key: Option<String>,
    pub enabled: bool,
}

/// A feature as the tool holds it.
pub struct Feature {
    pub id: FeatureId,
    pub name: String,
    pub bind_key: Option<BindKey>,
    pub enabled: bool,
    pub selecting: bool,
}

} // verus!
