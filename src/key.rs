use vstd::prelude::*;

use crate::text::str_eq;

verus! {

/// Keyboard keys, each backed by the kernel's numeric key code.
#[derive(Debug, Copy, Clone, PartialEq, Eq, Structural)]
pub enum Key {
    Esc,
    Key1,
    Key2,
    Key3,
    Key4,
    Key5,
    Key6,
    Key7,
    Key8,
    Key9,
    Key0,
    Minus,
    Equal,
    Backspace,
    Tab,
    Q,
    W,
    E,
    R,
    T,
    Y,
    U,
    I,
    O,
    P,
    LeftBrace,
    RightBrace,
    Enter,
    LeftCtrl,
    A,
    S,
    D,
    F,
    G,
    H,
    J,
    K,
    L,
    Semicolon,
    Apostrophe,
    Grave,
    LeftShift,
    Backslash,
    Z,
    X,
    C,
    V,
    B,
    N,
    M,
    Comma,
    Dot,
    Slash,
    RightShift,
    KpAsterisk,
    LeftAlt,
    Space,
    CapsLock,
    F1,
    F2,
    F3,
    F4,
    F5,
    F6,
    F7,
    F8,
    F9,
    F10,
    NumLock,
    ScrollLock,
    Kp7,
    Kp8,
    Kp9,
    KpMinus,
    Kp4,
    Kp5,
    Kp6,
    KpPlus,
    Kp1,
    Kp2,
    Kp3,
    Kp0,
    KpDot,
    Key102nd,
    F11,
    F12,
    KpEnter,
    RightCtrl,
    KpSlash,
    SysRq,
    RightAlt,
    Home,
    Up,
    PageUp,
    Left,
    Right,
    End,
    Down,
    PageDown,
    Insert,
    Delete,
    Mute,
    VolumeDown,
    VolumeUp,
    Power,
    KpEqual,
    Pause,
    LeftMeta,
    RightMeta,
    Compose,
    NextSong,
    PlayPause,
    PreviousSong,
    StopCd,
    F13,
    F14,
    F15,
    F16,
    F17,
    F18,
    F19,
    F20,
    F21,
    F22,
    F23,
    F24,
    BrightnessDown,
    BrightnessUp,
}

impl Key {
    /// The canonical lowercase name of the variant.
    pub open spec fn slug(self) -> Seq<char> {
        match self {
            Key::Esc => "esc"@,
            Key::Key1 => "1"@,
            Key::Key2 => "2"@,
            Key::Key3 => "3"@,
            Key::Key4 => "4"@,
            Key::Key5 => "5"@,
            Key::Key6 => "6"@,
            Key::Key7 => "7"@,
            Key::Key8 => "8"@,
            Key::Key9 => "9"@,
            Key::Key0 => "0"@,
            Key::Minus => "minus"@,
            Key::Equal => "equal"@,
            Key::Backspace => "backspace"@,
            Key::Tab => "tab"@,
            Key::Q => "q"@,
            Key::W => "w"@,
            Key::E => "e"@,
            Key::R => "r"@,
            Key::T => "t"@,
            Key::Y => "y"@,
            Key::U => "u"@,
            Key::I => "i"@,
            Key::O => "o"@,
            Key::P => "p"@,
            Key::LeftBrace => "leftbrace"@,
            Key::RightBrace => "rightbrace"@,
            Key::Enter => "enter"@,
            Key::LeftCtrl => "leftctrl"@,
            Key::A => "a"@,
            Key::S => "s"@,
            Key::D => "d"@,
            Key::F => "f"@,
            Key::G => "g"@,
            Key::H => "h"@,
            Key::J => "j"@,
            Key::K => "k"@,
            Key::L => "l"@,
            Key::Semicolon => "semicolon"@,
            Key::Apostrophe => "apostrophe"@,
            Key::Grave => "grave"@,
            Key::LeftShift => "leftshift"@,
            Key::Backslash => "backslash"@,
            Key::Z => "z"@,
            Key::X => "x"@,
            Key::C => "c"@,
            Key::V => "v"@,
            Key::B => "b"@,
            Key::N => "n"@,
            Key::M => "m"@,
            Key::Comma => "comma"@,
            Key::Dot => "dot"@,
            Key::Slash => "slash"@,
            Key::RightShift => "rightshift"@,
            Key::KpAsterisk => "kpasterisk"@,
            Key::LeftAlt => "leftalt"@,
            Key::Space => "space"@,
            Key::CapsLock => "capslock"@,
            Key::F1 => "f1"@,
            Key::F2 => "f2"@,
            Key::F3 => "f3"@,
            Key::F4 => "f4"@,
            Key::F5 => "f5"@,
            Key::F6 => "f6"@,
            Key::F7 => "f7"@,
            Key::F8 => "f8"@,
            Key::F9 => "f9"@,
            Key::F10 => "f10"@,
            Key::NumLock => "numlock"@,
            Key::ScrollLock => "scrolllock"@,
            Key::Kp7 => "kp7"@,
            Key::Kp8 => "kp8"@,
            Key::Kp9 => "kp9"@,
            Key::KpMinus => "kpminus"@,
            Key::Kp4 => "kp4"@,
            Key::Kp5 => "kp5"@,
            Key::Kp6 => "kp6"@,
            Key::KpPlus => "kpplus"@,
            Key::Kp1 => "kp1"@,
            Key::Kp2 => "kp2"@,
            Key::Kp3 => "kp3"@,
            Key::Kp0 => "kp0"@,
            Key::KpDot => "kpdot"@,
            Key::Key102nd => "102nd"@,
            Key::F11 => "f11"@,
            Key::F12 => "f12"@,
            Key::KpEnter => "kpenter"@,
            Key::RightCtrl => "rightctrl"@,
            Key::KpSlash => "kpslash"@,
            Key::SysRq => "sysrq"@,
            Key::RightAlt => "rightalt"@,
            Key::Home => "home"@,
            Key::Up => "up"@,
            Key::PageUp => "pageup"@,
            Key::Left => "left"@,
            Key::Right => "right"@,
            Key::End => "end"@,
            Key::Down => "down"@,
            Key::PageDown => "pagedown"@,
            Key::Insert => "insert"@,
            Key::Delete => "delete"@,
            Key::Mute => "mute"@,
            Key::VolumeDown => "volumedown"@,
            Key::VolumeUp => "volumeup"@,
            Key::Power => "power"@,
            Key::KpEqual => "kpequal"@,
            Key::Pause => "pause"@,
            Key::LeftMeta => "leftmeta"@,
            Key::RightMeta => "rightmeta"@,
            Key::Compose => "compose"@,
            Key::NextSong => "nextsong"@,
            Key::PlayPause => "playpause"@,
            Key::PreviousSong => "previoussong"@,
            Key::StopCd => "stopcd"@,
            Key::F13 => "f13"@,
            Key::F14 => "f14"@,
            Key::F15 => "f15"@,
            Key::F16 => "f16"@,
            Key::F17 => "f17"@,
            Key::F18 => "f18"@,
            Key::F19 => "f19"@,
            Key::F20 => "f20"@,
            Key::F21 => "f21"@,
            Key::F22 => "f22"@,
            Key::F23 => "f23"@,
            Key::F24 => "f24"@,
            Key::BrightnessDown => "brightnessdown"@,
            Key::BrightnessUp => "brightnessup"@,
        }
    }

    /// The kernel's key code of the variant.
    pub open spec fn code_spec(self) -> u16 {
        match self {
            Key::Esc => 1,
            Key::Key1 => 2,
            Key::Key2 => 3,
            Key::Key3 => 4,
            Key::Key4 => 5,
            Key::Key5 => 6,
            Key::Key6 => 7,
            Key::Key7 => 8,
            Key::Key8 => 9,
            Key::Key9 => 10,
            Key::Key0 => 11,
            Key::Minus => 12,
            Key::Equal => 13,
            Key::Backspace => 14,
            Key::Tab => 15,
            Key::Q => 16,
            Key::W => 17,
            Key::E => 18,
            Key::R => 19,
            Key::T => 20,
            Key::Y => 21,
            Key::U => 22,
            Key::I => 23,
            Key::O => 24,
            Key::P => 25,
            Key::LeftBrace => 26,
            Key::RightBrace => 27,
            Key::Enter => 28,
            Key::LeftCtrl => 29,
            Key::A => 30,
            Key::S => 31,
            Key::D => 32,
            Key::F => 33,
            Key::G => 34,
            Key::H => 35,
            Key::J => 36,
            Key::K => 37,
            Key::L => 38,
            Key::Semicolon => 39,
            Key::Apostrophe => 40,
            Key::Grave => 41,
            Key::LeftShift => 42,
            Key::Backslash => 43,
            Key::Z => 44,
            Key::X => 45,
            Key::C => 46,
            Key::V => 47,
            Key::B => 48,
            Key::N => 49,
            Key::M => 50,
            Key::Comma => 51,
            Key::Dot => 52,
            Key::Slash => 53,
            Key::RightShift => 54,
            Key::KpAsterisk => 55,
            Key::LeftAlt => 56,
            Key::Space => 57,
            Key::CapsLock => 58,
            Key::F1 => 59,
            Key::F2 => 60,
            Key::F3 => 61,
            Key::F4 => 62,
            Key::F5 => 63,
            Key::F6 => 64,
            Key::F7 => 65,
            Key::F8 => 66,
            Key::F9 => 67,
            Key::F10 => 68,
            Key::NumLock => 69,
            Key::ScrollLock => 70,
            Key::Kp7 => 71,
            Key::Kp8 => 72,
            Key::Kp9 => 73,
            Key::KpMinus => 74,
            Key::Kp4 => 75,
            Key::Kp5 => 76,
            Key::Kp6 => 77,
            Key::KpPlus => 78,
            Key::Kp1 => 79,
            Key::Kp2 => 80,
            Key::Kp3 => 81,
            Key::Kp0 => 82,
            Key::KpDot => 83,
            Key::Key102nd => 86,
            Key::F11 => 87,
            Key::F12 => 88,
            Key::KpEnter => 96,
            Key::RightCtrl => 97,
            Key::KpSlash => 98,
            Key::SysRq => 99,
            Key::RightAlt => 100,
            Key::Home => 102,
            Key::Up => 103,
            Key::PageUp => 104,
            Key::Left => 105,
            Key::Right => 106,
            Key::End => 107,
            Key::Down => 108,
            Key::PageDown => 109,
            Key::Insert => 110,
            Key::Delete => 111,
            Key::Mute => 113,
            Key::VolumeDown => 114,
            Key::VolumeUp => 115,
            Key::Power => 116,
            Key::KpEqual => 117,
            Key::Pause => 119,
            Key::LeftMeta => 125,
            Key::RightMeta => 126,
            Key::Compose => 127,
            Key::NextSong => 163,
            Key::PlayPause => 164,
            Key::PreviousSong => 165,
            Key::StopCd => 166,
            Key::F13 => 183,
            Key::F14 => 184,
            Key::F15 => 185,
            Key::F16 => 186,
            Key::F17 => 187,
            Key::F18 => 188,
            Key::F19 => 189,
            Key::F20 => 190,
            Key::F21 => 191,
            Key::F22 => 192,
            Key::F23 => 193,
            Key::F24 => 194,
            Key::BrightnessDown => 224,
            Key::BrightnessUp => 225,
        }
    }

    /// The variant whose kernel code is `c`, if any.
    pub open spec fn from_code_spec(c: u16) -> Result<Key, ()> {
        match c {
            1 => Ok(Key::Esc),
            2 => Ok(Key::Key1),
            3 => Ok(Key::Key2),
            4 => Ok(Key::Key3),
            5 => Ok(Key::Key4),
            6 => Ok(Key::Key5),
            7 => Ok(Key::Key6),
            8 => Ok(Key::Key7),
            9 => Ok(Key::Key8),
            10 => Ok(Key::Key9),
            11 => Ok(Key::Key0),
            12 => Ok(Key::Minus),
            13 => Ok(Key::Equal),
            14 => Ok(Key::Backspace),
            15 => Ok(Key::Tab),
            16 => Ok(Key::Q),
            17 => Ok(Key::W),
            18 => Ok(Key::E),
            19 => Ok(Key::R),
            20 => Ok(Key::T),
            21 => Ok(Key::Y),
            22 => Ok(Key::U),
            23 => Ok(Key::I),
            24 => Ok(Key::O),
            25 => Ok(Key::P),
            26 => Ok(Key::LeftBrace),
            27 => Ok(Key::RightBrace),
            28 => Ok(Key::Enter),
            29 => Ok(Key::LeftCtrl),
            30 => Ok(Key::A),
            31 => Ok(Key::S),
            32 => Ok(Key::D),
            33 => Ok(Key::F),
            34 => Ok(Key::G),
            35 => Ok(Key::H),
            36 => Ok(Key::J),
            37 => Ok(Key::K),
            38 => Ok(Key::L),
            39 => Ok(Key::Semicolon),
            40 => Ok(Key::Apostrophe),
            41 => Ok(Key::Grave),
            42 => Ok(Key::LeftShift),
            43 => Ok(Key::Backslash),
            44 => Ok(Key::Z),
            45 => Ok(Key::X),
            46 => Ok(Key::C),
            47 => Ok(Key::V),
            48 => Ok(Key::B),
            49 => Ok(Key::N),
            50 => Ok(Key::M),
            51 => Ok(Key::Comma),
            52 => Ok(Key::Dot),
            53 => Ok(Key::Slash),
            54 => Ok(Key::RightShift),
            55 => Ok(Key::KpAsterisk),
            56 => Ok(Key::LeftAlt),
            57 => Ok(Key::Space),
            58 => Ok(Key::CapsLock),
            59 => Ok(Key::F1),
            60 => Ok(Key::F2),
            61 => Ok(Key::F3),
            62 => Ok(Key::F4),
            63 => Ok(Key::F5),
            64 => Ok(Key::F6),
            65 => Ok(Key::F7),
            66 => Ok(Key::F8),
            67 => Ok(Key::F9),
            68 => Ok(Key::F10),
            69 => Ok(Key::NumLock),
            70 => Ok(Key::ScrollLock),
            71 => Ok(Key::Kp7),
            72 => Ok(Key::Kp8),
            73 => Ok(Key::Kp9),
            74 => Ok(Key::KpMinus),
            75 => Ok(Key::Kp4),
            76 => Ok(Key::Kp5),
            77 => Ok(Key::Kp6),
            78 => Ok(Key::KpPlus),
            79 => Ok(Key::Kp1),
            80 => Ok(Key::Kp2),
            81 => Ok(Key::Kp3),
            82 => Ok(Key::Kp0),
            83 => Ok(Key::KpDot),
            86 => Ok(Key::Key102nd),
            87 => Ok(Key::F11),
            88 => Ok(Key::F12),
            96 => Ok(Key::KpEnter),
            97 => Ok(Key::RightCtrl),
            98 => Ok(Key::KpSlash),
            99 => Ok(Key::SysRq),
            100 => Ok(Key::RightAlt),
            102 => Ok(Key::Home),
            103 => Ok(Key::Up),
            104 => Ok(Key::PageUp),
            105 => Ok(Key::Left),
            106 => Ok(Key::Right),
            107 => Ok(Key::End),
            108 => Ok(Key::Down),
            109 => Ok(Key::PageDown),
            110 => Ok(Key::Insert),
            111 => Ok(Key::Delete),
            113 => Ok(Key::Mute),
            114 => Ok(Key::VolumeDown),
            115 => Ok(Key::VolumeUp),
            116 => Ok(Key::Power),
            117 => Ok(Key::KpEqual),
            119 => Ok(Key::Pause),
            125 => Ok(Key::LeftMeta),
            126 => Ok(Key::RightMeta),
            127 => Ok(Key::Compose),
            163 => Ok(Key::NextSong),
            164 => Ok(Key::PlayPause),
            165 => Ok(Key::PreviousSong),
            166 => Ok(Key::StopCd),
            183 => Ok(Key::F13),
            184 => Ok(Key::F14),
            185 => Ok(Key::F15),
            186 => Ok(Key::F16),
            187 => Ok(Key::F17),
            188 => Ok(Key::F18),
            189 => Ok(Key::F19),
            190 => Ok(Key::F20),
            191 => Ok(Key::F21),
            192 => Ok(Key::F22),
            193 => Ok(Key::F23),
            194 => Ok(Key::F24),
            224 => Ok(Key::BrightnessDown),
            225 => Ok(Key::BrightnessUp),
            _ => Err(()),
        }
    }

    /// The variant whose name is `s`, if any.
    pub open spec fn from_slug_spec(s: Seq<char>) -> Result<Key, ()> {
        if exists|k: Key| k.slug() == s {
            Ok(choose|k: Key| k.slug() == s)
        } else {
            Err(())
        }
    }

    /// Names the only variant that `s` can be the name of, judging by its length and by
    /// the characters that tell the names of equal length apart.
    pub open spec fn guess_from_slug(s: Seq<char>) -> Key {
        if s.len() == 1 {
            if s[0] == '1' {
                Key::Key1
            } else if s[0] == '2' {
                Key::Key2
            } else if s[0] == '3' {
                Key::Key3
            } else if s[0] == '4' {
                Key::Key4
            } else if s[0] == '5' {
                Key::Key5
            } else if s[0] == '6' {
                Key::Key6
            } else if s[0] == '7' {
                Key::Key7
            } else if s[0] == '8' {
                Key::Key8
            } else if s[0] == '9' {
                Key::Key9
            } else if s[0] == '0' {
                Key::Key0
            } else if s[0] == 'q' {
                Key::Q
            } else if s[0] == 'w' {
                Key::W
            } else if s[0] == 'e' {
                Key::E
            } else if s[0] == 'r' {
                Key::R
            } else if s[0] == 't' {
                Key::T
            } else if s[0] == 'y' {
                Key::Y
            } else if s[0] == 'u' {
                Key::U
            } else if s[0] == 'i' {
                Key::I
            } else if s[0] == 'o' {
                Key::O
            } else if s[0] == 'p' {
                Key::P
            } else if s[0] == 'a' {
                Key::A
            } else if s[0] == 's' {
                Key::S
            } else if s[0] == 'd' {
                Key::D
            } else if s[0] == 'f' {
                Key::F
            } else if s[0] == 'g' {
                Key::G
            } else if s[0] == 'h' {
                Key::H
            } else if s[0] == 'j' {
                Key::J
            } else if s[0] == 'k' {
                Key::K
            } else if s[0] == 'l' {
                Key::L
            } else if s[0] == 'z' {
                Key::Z
            } else if s[0] == 'x' {
                Key::X
            } else if s[0] == 'c' {
                Key::C
            } else if s[0] == 'v' {
                Key::V
            } else if s[0] == 'b' {
                Key::B
            } else if s[0] == 'n' {
                Key::N
            } else {
                Key::M
            }
        } else if s.len() == 2 {
            if s[0] == 'f' {
                if s[1] == '1' {
                    Key::F1
                } else if s[1] == '2' {
                    Key::F2
                } else if s[1] == '3' {
                    Key::F3
                } else if s[1] == '4' {
                    Key::F4
                } else if s[1] == '5' {
                    Key::F5
                } else if s[1] == '6' {
                    Key::F6
                } else if s[1] == '7' {
                    Key::F7
                } else if s[1] == '8' {
                    Key::F8
                } else {
                    Key::F9
                }
            } else {
                Key::Up
            }
        } else if s.len() == 3 {
            if s[0] == 'e' {
                if s[1] == 's' {
                    Key::Esc
                } else {
                    Key::End
                }
            } else if s[0] == 't' {
                Key::Tab
            } else if s[0] == 'd' {
                Key::Dot
            } else if s[0] == 'f' {
                if s[1] == '1' {
                    if s[2] == '0' {
                        Key::F10
                    } else if s[2] == '1' {
                        Key::F11
                    } else if s[2] == '2' {
                        Key::F12
                    } else if s[2] == '3' {
                        Key::F13
                    } else if s[2] == '4' {
                        Key::F14
                    } else if s[2] == '5' {
                        Key::F15
                    } else if s[2] == '6' {
                        Key::F16
                    } else if s[2] == '7' {
                        Key::F17
                    } else if s[2] == '8' {
                        Key::F18
                    } else {
                        Key::F19
                    }
                } else {
                    if s[2] == '0' {
                        Key::F20
                    } else if s[2] == '1' {
                        Key::F21
                    } else if s[2] == '2' {
                        Key::F22
                    } else if s[2] == '3' {
                        Key::F23
                    } else {
                        Key::F24
                    }
                }
            } else {
                if s[2] == '7' {
                    Key::Kp7
                } else if s[2] == '8' {
                    Key::Kp8
                } else if s[2] == '9' {
                    Key::Kp9
                } else if s[2] == '4' {
                    Key::Kp4
                } else if s[2] == '5' {
                    Key::Kp5
                } else if s[2] == '6' {
                    Key::Kp6
                } else if s[2] == '1' {
                    Key::Kp1
                } else if s[2] == '2' {
                    Key::Kp2
                } else if s[2] == '3' {
                    Key::Kp3
                } else {
                    Key::Kp0
                }
            }
        } else if s.len() == 4 {
            if s[0] == 'h' {
                Key::Home
            } else if s[0] == 'l' {
                Key::Left
            } else if s[0] == 'd' {
                Key::Down
            } else {
                Key::Mute
            }
        } else if s.len() == 5 {
            if s[0] == 'm' {
                Key::Minus
            } else if s[0] == 'e' {
                if s[1] == 'q' {
                    Key::Equal
                } else {
                    Key::Enter
                }
            } else if s[0] == 'g' {
                Key::Grave
            } else if s[0] == 'c' {
                Key::Comma
            } else if s[0] == 's' {
                if s[1] == 'l' {
                    Key::Slash
                } else if s[1] == 'p' {
                    Key::Space
                } else {
                    Key::SysRq
                }
            } else if s[0] == 'k' {
                Key::KpDot
            } else if s[0] == '1' {
                Key::Key102nd
            } else if s[0] == 'r' {
                Key::Right
            } else {
                if s[1] == 'o' {
                    Key::Power
                } else {
                    Key::Pause
                }
            }
        } else if s.len() == 6 {
            if s[0] == 'k' {
                Key::KpPlus
            } else if s[0] == 'p' {
                Key::PageUp
            } else if s[0] == 'i' {
                Key::Insert
            } else if s[0] == 'd' {
                Key::Delete
            } else {
                Key::StopCd
            }
        } else if s.len() == 7 {
            if s[0] == 'l' {
                Key::LeftAlt
            } else if s[0] == 'n' {
                Key::NumLock
            } else if s[0] == 'k' {
                if s[2] == 'm' {
                    Key::KpMinus
                } else if s[2] == 'e' {
                    if s[3] == 'n' {
                        Key::KpEnter
                    } else {
                        Key::KpEqual
                    }
                } else {
                    Key::KpSlash
                }
            } else {
                Key::Compose
            }
        } else if s.len() == 8 {
            if s[0] == 'l' {
                if s[4] == 'c' {
                    Key::LeftCtrl
                } else {
                    Key::LeftMeta
                }
            } else if s[0] == 'c' {
                Key::CapsLock
            } else if s[0] == 'r' {
                Key::RightAlt
            } else if s[0] == 'p' {
                Key::PageDown
            } else if s[0] == 'v' {
                Key::VolumeUp
            } else {
                Key::NextSong
            }
        } else if s.len() == 9 {
            if s[0] == 'b' {
                if s[5] == 'p' {
                    Key::Backspace
                } else {
                    Key::Backslash
                }
            } else if s[0] == 'l' {
                if s[4] == 'b' {
                    Key::LeftBrace
                } else {
                    Key::LeftShift
                }
            } else if s[0] == 's' {
                Key::Semicolon
            } else if s[0] == 'r' {
                if s[5] == 'c' {
                    Key::RightCtrl
                } else {
                    Key::RightMeta
                }
            } else {
                Key::PlayPause
            }
        } else if s.len() == 10 {
            if s[0] == 'r' {
                if s[5] == 'b' {
                    Key::RightBrace
                } else {
                    Key::RightShift
                }
            } else if s[0] == 'a' {
                Key::Apostrophe
            } else if s[0] == 'k' {
                Key::KpAsterisk
            } else if s[0] == 's' {
                Key::ScrollLock
            } else {
                Key::VolumeDown
            }
        } else if s.len() == 12 {
            if s[0] == 'p' {
                Key::PreviousSong
            } else {
                Key::BrightnessUp
            }
        } else {
            Key::BrightnessDown
        }
    }

    pub fn as_str(&self) -> (r: &'static str)
        ensures
            r@ == self.slug(),
    {
        match self {
            Key::Esc => "esc",
            Key::Key1 => "1",
            Key::Key2 => "2",
            Key::Key3 => "3",
            Key::Key4 => "4",
            Key::Key5 => "5",
            Key::Key6 => "6",
            Key::Key7 => "7",
            Key::Key8 => "8",
            Key::Key9 => "9",
            Key::Key0 => "0",
            Key::Minus => "minus",
            Key::Equal => "equal",
            Key::Backspace => "backspace",
            Key::Tab => "tab",
            Key::Q => "q",
            Key::W => "w",
            Key::E => "e",
            Key::R => "r",
            Key::T => "t",
            Key::Y => "y",
            Key::U => "u",
            Key::I => "i",
            Key::O => "o",
            Key::P => "p",
            Key::LeftBrace => "leftbrace",
            Key::RightBrace => "rightbrace",
            Key::Enter => "enter",
            Key::LeftCtrl => "leftctrl",
            Key::A => "a",
            Key::S => "s",
            Key::D => "d",
            Key::F => "f",
            Key::G => "g",
            Key::H => "h",
            Key::J => "j",
            Key::K => "k",
            Key::L => "l",
            Key::Semicolon => "semicolon",
            Key::Apostrophe => "apostrophe",
            Key::Grave => "grave",
            Key::LeftShift => "leftshift",
            Key::Backslash => "backslash",
            Key::Z => "z",
            Key::X => "x",
            Key::C => "c",
            Key::V => "v",
            Key::B => "b",
            Key::N => "n",
            Key::M => "m",
            Key::Comma => "comma",
            Key::Dot => "dot",
            Key::Slash => "slash",
            Key::RightShift => "rightshift",
            Key::KpAsterisk => "kpasterisk",
            Key::LeftAlt => "leftalt",
            Key::Space => "space",
            Key::CapsLock => "capslock",
            Key::F1 => "f1",
            Key::F2 => "f2",
            Key::F3 => "f3",
            Key::F4 => "f4",
            Key::F5 => "f5",
            Key::F6 => "f6",
            Key::F7 => "f7",
            Key::F8 => "f8",
            Key::F9 => "f9",
            Key::F10 => "f10",
            Key::NumLock => "numlock",
            Key::ScrollLock => "scrolllock",
            Key::Kp7 => "kp7",
            Key::Kp8 => "kp8",
            Key::Kp9 => "kp9",
            Key::KpMinus => "kpminus",
            Key::Kp4 => "kp4",
            Key::Kp5 => "kp5",
            Key::Kp6 => "kp6",
            Key::KpPlus => "kpplus",
            Key::Kp1 => "kp1",
            Key::Kp2 => "kp2",
            Key::Kp3 => "kp3",
            Key::Kp0 => "kp0",
            Key::KpDot => "kpdot",
            Key::Key102nd => "102nd",
            Key::F11 => "f11",
            Key::F12 => "f12",
            Key::KpEnter => "kpenter",
            Key::RightCtrl => "rightctrl",
            Key::KpSlash => "kpslash",
            Key::SysRq => "sysrq",
            Key::RightAlt => "rightalt",
            Key::Home => "home",
            Key::Up => "up",
            Key::PageUp => "pageup",
            Key::Left => "left",
            Key::Right => "right",
            Key::End => "end",
            Key::Down => "down",
            Key::PageDown => "pagedown",
            Key::Insert => "insert",
            Key::Delete => "delete",
            Key::Mute => "mute",
            Key::VolumeDown => "volumedown",
            Key::VolumeUp => "volumeup",
            Key::Power => "power",
            Key::KpEqual => "kpequal",
            Key::Pause => "pause",
            Key::LeftMeta => "leftmeta",
            Key::RightMeta => "rightmeta",
            Key::Compose => "compose",
            Key::NextSong => "nextsong",
            Key::PlayPause => "playpause",
            Key::PreviousSong => "previoussong",
            Key::StopCd => "stopcd",
            Key::F13 => "f13",
            Key::F14 => "f14",
            Key::F15 => "f15",
            Key::F16 => "f16",
            Key::F17 => "f17",
            Key::F18 => "f18",
            Key::F19 => "f19",
            Key::F20 => "f20",
            Key::F21 => "f21",
            Key::F22 => "f22",
            Key::F23 => "f23",
            Key::F24 => "f24",
            Key::BrightnessDown => "brightnessdown",
            Key::BrightnessUp => "brightnessup",
        }
    }

    pub fn code(&self) -> (r: u16)
        ensures
            r == self.code_spec(),
    {
        match self {
            Key::Esc => 1,
            Key::Key1 => 2,
            Key::Key2 => 3,
            Key::Key3 => 4,
            Key::Key4 => 5,
            Key::Key5 => 6,
            Key::Key6 => 7,
            Key::Key7 => 8,
            Key::Key8 => 9,
            Key::Key9 => 10,
            Key::Key0 => 11,
            Key::Minus => 12,
            Key::Equal => 13,
            Key::Backspace => 14,
            Key::Tab => 15,
            Key::Q => 16,
            Key::W => 17,
            Key::E => 18,
            Key::R => 19,
            Key::T => 20,
            Key::Y => 21,
            Key::U => 22,
            Key::I => 23,
            Key::O => 24,
            Key::P => 25,
            Key::LeftBrace => 26,
            Key::RightBrace => 27,
            Key::Enter => 28,
            Key::LeftCtrl => 29,
            Key::A => 30,
            Key::S => 31,
            Key::D => 32,
            Key::F => 33,
            Key::G => 34,
            Key::H => 35,
            Key::J => 36,
            Key::K => 37,
            Key::L => 38,
            Key::Semicolon => 39,
            Key::Apostrophe => 40,
            Key::Grave => 41,
            Key::LeftShift => 42,
            Key::Backslash => 43,
            Key::Z => 44,
            Key::X => 45,
            Key::C => 46,
            Key::V => 47,
            Key::B => 48,
            Key::N => 49,
            Key::M => 50,
            Key::Comma => 51,
            Key::Dot => 52,
            Key::Slash => 53,
            Key::RightShift => 54,
            Key::KpAsterisk => 55,
            Key::LeftAlt => 56,
            Key::Space => 57,
            Key::CapsLock => 58,
            Key::F1 => 59,
            Key::F2 => 60,
            Key::F3 => 61,
            Key::F4 => 62,
            Key::F5 => 63,
            Key::F6 => 64,
            Key::F7 => 65,
            Key::F8 => 66,
            Key::F9 => 67,
            Key::F10 => 68,
            Key::NumLock => 69,
            Key::ScrollLock => 70,
            Key::Kp7 => 71,
            Key::Kp8 => 72,
            Key::Kp9 => 73,
            Key::KpMinus => 74,
            Key::Kp4 => 75,
            Key::Kp5 => 76,
            Key::Kp6 => 77,
            Key::KpPlus => 78,
            Key::Kp1 => 79,
            Key::Kp2 => 80,
            Key::Kp3 => 81,
            Key::Kp0 => 82,
            Key::KpDot => 83,
            Key::Key102nd => 86,
            Key::F11 => 87,
            Key::F12 => 88,
            Key::KpEnter => 96,
            Key::RightCtrl => 97,
            Key::KpSlash => 98,
            Key::SysRq => 99,
            Key::RightAlt => 100,
            Key::Home => 102,
            Key::Up => 103,
            Key::PageUp => 104,
            Key::Left => 105,
            Key::Right => 106,
            Key::End => 107,
            Key::Down => 108,
            Key::PageDown => 109,
            Key::Insert => 110,
            Key::Delete => 111,
            Key::Mute => 113,
            Key::VolumeDown => 114,
            Key::VolumeUp => 115,
            Key::Power => 116,
            Key::KpEqual => 117,
            Key::Pause => 119,
            Key::LeftMeta => 125,
            Key::RightMeta => 126,
            Key::Compose => 127,
            Key::NextSong => 163,
            Key::PlayPause => 164,
            Key::PreviousSong => 165,
            Key::StopCd => 166,
            Key::F13 => 183,
            Key::F14 => 184,
            Key::F15 => 185,
            Key::F16 => 186,
            Key::F17 => 187,
            Key::F18 => 188,
            Key::F19 => 189,
            Key::F20 => 190,
            Key::F21 => 191,
            Key::F22 => 192,
            Key::F23 => 193,
            Key::F24 => 194,
            Key::BrightnessDown => 224,
            Key::BrightnessUp => 225,
        }
    }

    pub fn try_from_code(c: u16) -> (r: Result<Key, ()>)
        ensures
            r == Key::from_code_spec(c),
    {
        match c {
            1 => Ok(Key::Esc),
            2 => Ok(Key::Key1),
            3 => Ok(Key::Key2),
            4 => Ok(Key::Key3),
            5 => Ok(Key::Key4),
            6 => Ok(Key::Key5),
            7 => Ok(Key::Key6),
            8 => Ok(Key::Key7),
            9 => Ok(Key::Key8),
            10 => Ok(Key::Key9),
            11 => Ok(Key::Key0),
            12 => Ok(Key::Minus),
            13 => Ok(Key::Equal),
            14 => Ok(Key::Backspace),
            15 => Ok(Key::Tab),
            16 => Ok(Key::Q),
            17 => Ok(Key::W),
            18 => Ok(Key::E),
            19 => Ok(Key::R),
            20 => Ok(Key::T),
            21 => Ok(Key::Y),
            22 => Ok(Key::U),
            23 => Ok(Key::I),
            24 => Ok(Key::O),
            25 => Ok(Key::P),
            26 => Ok(Key::LeftBrace),
            27 => Ok(Key::RightBrace),
            28 => Ok(Key::Enter),
            29 => Ok(Key::LeftCtrl),
            30 => Ok(Key::A),
            31 => Ok(Key::S),
            32 => Ok(Key::D),
            33 => Ok(Key::F),
            34 => Ok(Key::G),
            35 => Ok(Key::H),
            36 => Ok(Key::J),
            37 => Ok(Key::K),
            38 => Ok(Key::L),
            39 => Ok(Key::Semicolon),
            40 => Ok(Key::Apostrophe),
            41 => Ok(Key::Grave),
            42 => Ok(Key::LeftShift),
            43 => Ok(Key::Backslash),
            44 => Ok(Key::Z),
            45 => Ok(Key::X),
            46 => Ok(Key::C),
            47 => Ok(Key::V),
            48 => Ok(Key::B),
            49 => Ok(Key::N),
            50 => Ok(Key::M),
            51 => Ok(Key::Comma),
            52 => Ok(Key::Dot),
            53 => Ok(Key::Slash),
            54 => Ok(Key::RightShift),
            55 => Ok(Key::KpAsterisk),
            56 => Ok(Key::LeftAlt),
            57 => Ok(Key::Space),
            58 => Ok(Key::CapsLock),
            59 => Ok(Key::F1),
            60 => Ok(Key::F2),
            61 => Ok(Key::F3),
            62 => Ok(Key::F4),
            63 => Ok(Key::F5),
            64 => Ok(Key::F6),
            65 => Ok(Key::F7),
            66 => Ok(Key::F8),
            67 => Ok(Key::F9),
            68 => Ok(Key::F10),
            69 => Ok(Key::NumLock),
            70 => Ok(Key::ScrollLock),
            71 => Ok(Key::Kp7),
            72 => Ok(Key::Kp8),
            73 => Ok(Key::Kp9),
            74 => Ok(Key::KpMinus),
            75 => Ok(Key::Kp4),
            76 => Ok(Key::Kp5),
            77 => Ok(Key::Kp6),
            78 => Ok(Key::KpPlus),
            79 => Ok(Key::Kp1),
            80 => Ok(Key::Kp2),
            81 => Ok(Key::Kp3),
            82 => Ok(Key::Kp0),
            83 => Ok(Key::KpDot),
            86 => Ok(Key::Key102nd),
            87 => Ok(Key::F11),
            88 => Ok(Key::F12),
            96 => Ok(Key::KpEnter),
            97 => Ok(Key::RightCtrl),
            98 => Ok(Key::KpSlash),
            99 => Ok(Key::SysRq),
            100 => Ok(Key::RightAlt),
            102 => Ok(Key::Home),
            103 => Ok(Key::Up),
            104 => Ok(Key::PageUp),
            105 => Ok(Key::Left),
            106 => Ok(Key::Right),
            107 => Ok(Key::End),
            108 => Ok(Key::Down),
            109 => Ok(Key::PageDown),
            110 => Ok(Key::Insert),
            111 => Ok(Key::Delete),
            113 => Ok(Key::Mute),
            114 => Ok(Key::VolumeDown),
            115 => Ok(Key::VolumeUp),
            116 => Ok(Key::Power),
            117 => Ok(Key::KpEqual),
            119 => Ok(Key::Pause),
            125 => Ok(Key::LeftMeta),
            126 => Ok(Key::RightMeta),
            127 => Ok(Key::Compose),
            163 => Ok(Key::NextSong),
            164 => Ok(Key::PlayPause),
            165 => Ok(Key::PreviousSong),
            166 => Ok(Key::StopCd),
            183 => Ok(Key::F13),
            184 => Ok(Key::F14),
            185 => Ok(Key::F15),
            186 => Ok(Key::F16),
            187 => Ok(Key::F17),
            188 => Ok(Key::F18),
            189 => Ok(Key::F19),
            190 => Ok(Key::F20),
            191 => Ok(Key::F21),
            192 => Ok(Key::F22),
            193 => Ok(Key::F23),
            194 => Ok(Key::F24),
            224 => Ok(Key::BrightnessDown),
            225 => Ok(Key::BrightnessUp),
            _ => Err(()),
        }
    }

    pub fn from_slug(s: &str) -> (r: Result<Key, ()>)
        ensures
            r == Key::from_slug_spec(s@),
    {
        if str_eq(s, "esc") {
            proof {
                assert(Key::Esc.slug() == s@);
                lemma_slug_injective(Key::Esc, choose|k: Key| k.slug() == s@);
            }
            return Ok(Key::Esc);
        }
        if str_eq(s, "1") {
            proof {
                assert(Key::Key1.slug() == s@);
                lemma_slug_injective(Key::Key1, choose|k: Key| k.slug() == s@);
            }
            return Ok(Key::Key1);
        }
        if str_eq(s, "2") {
            proof {
                assert(Key::Key2.slug() == s@);
                lemma_slug_injective(Key::Key2, choose|k: Key| k.slug() == s@);
            }
            return Ok(Key::Key2);
        }
        if str_eq(s, "3") {
            proof {
                assert(Key::Key3.slug() == s@);
                lemma_slug_injective(Key::Key3, choose|k: Key| k.slug() == s@);
            }
            return Ok(Key::Key3);
        }
        if str_eq(s, "4") {
            proof {
                assert(Key::Key4.slug() == s@);
                lemma_slug_injective(Key::Key4, choose|k: Key| k.slug() == s@);
            }
            return Ok(Key::Key4);
        }
        if str_eq(s, "5") {
            proof {
                assert(Key::Key5.slug() == s@);
                lemma_slug_injective(Key::Key5, choose|k: Key| k.slug() == s@);
            }
            return Ok(Key::Key5);
        }
        if str_eq(s, "6") {
            proof {
                assert(Key::Key6.slug() == s@);
                lemma_slug_injective(Key::Key6, choose|k: Key| k.slug() == s@);
            }
            return Ok(Key::Key6);
        }
        if str_eq(s, "7") {
            proof {
                assert(Key::Key7.slug() == s@);
                lemma_slug_injective(Key::Key7, choose|k: Key| k.slug() == s@);
            }
            return Ok(Key::Key7);
        }
        if str_eq(s, "8") {
            proof {
                assert(Key::Key8.slug() == s@);
                lemma_slug_injective(Key::Key8, choose|k: Key| k.slug() == s@);
            }
            return Ok(Key::Key8);
        }
        if str_eq(s, "9") {
            proof {
                assert(Key::Key9.slug() == s@);
                lemma_slug_injective(Key::Key9, choose|k: Key| k.slug() == s@);
            }
            return Ok(Key::Key9);
        }
        if str_eq(s, "0") {
            proof {
                assert(Key::Key0.slug() == s@);
                lemma_slug_injective(Key::Key0, choose|k: Key| k.slug() == s@);
            }
            return Ok(Key::Key0);
        }
        if str_eq(s, "minus") {
            proof {
                assert(Key::Minus.slug() == s@);
                lemma_slug_injective(Key::Minus, choose|k: Key| k.slug() == s@);
            }
            return Ok(Key::Minus);
        }
        if str_eq(s, "equal") {
            proof {
                assert(Key::Equal.slug() == s@);
                lemma_slug_injective(Key::Equal, choose|k: Key| k.slug() == s@);
            }
            return Ok(Key::Equal);
        }
        if str_eq(s, "backspace") {
            proof {
                assert(Key::Backspace.slug() == s@);
                lemma_slug_injective(Key::Backspace, choose|k: Key| k.slug() == s@);
            }
            return Ok(Key::Backspace);
        }
        if str_eq(s, "tab") {
            proof {
                assert(Key::Tab.slug() == s@);
                lemma_slug_injective(Key::Tab, choose|k: Key| k.slug() == s@);
            }
            return Ok(Key::Tab);
        }
        if str_eq(s, "q") {
            proof {
                assert(Key::Q.slug() == s@);
                lemma_slug_injective(Key::Q, choose|k: Key| k.slug() == s@);
            }
            return Ok(Key::Q);
        }
        if str_eq(s, "w") {
            proof {
                assert(Key::W.slug() == s@);
                lemma_slug_injective(Key::W, choose|k: Key| k.slug() == s@);
            }
            return Ok(Key::W);
        }
        if str_eq(s, "e") {
            proof {
                assert(Key::E.slug() == s@);
                lemma_slug_injective(Key::E, choose|k: Key| k.slug() == s@);
            }
            return Ok(Key::E);
        }
        if str_eq(s, "r") {
            proof {
                assert(Key::R.slug() == s@);
                lemma_slug_injective(Key::R, choose|k: Key| k.slug() == s@);
            }
            return Ok(Key::R);
        }
        if str_eq(s, "t") {
            proof {
                assert(Key::T.slug() == s@);
                lemma_slug_injective(Key::T, choose|k: Key| k.slug() == s@);
            }
            return Ok(Key::T);
        }
        if str_eq(s, "y") {
            proof {
                assert(Key::Y.slug() == s@);
                lemma_slug_injective(Key::Y, choose|k: Key| k.slug() == s@);
            }
            return Ok(Key::Y);
        }
        if str_eq(s, "u") {
            proof {
                assert(Key::U.slug() == s@);
                lemma_slug_injective(Key::U, choose|k: Key| k.slug() == s@);
            }
            return Ok(Key::U);
        }
        if str_eq(s, "i") {
            proof {
                assert(Key::I.slug() == s@);
                lemma_slug_injective(Key::I, choose|k: Key| k.slug() == s@);
            }
            return Ok(Key::I);
        }
        if str_eq(s, "o") {
            proof {
                assert(Key::O.slug() == s@);
                lemma_slug_injective(Key::O, choose|k: Key| k.slug() == s@);
            }
            return Ok(Key::O);
        }
        if str_eq(s, "p") {
            proof {
                assert(Key::P.slug() == s@);
                lemma_slug_injective(Key::P, choose|k: Key| k.slug() == s@);
            }
            return Ok(Key::P);
        }
        if str_eq(s, "leftbrace") {
            proof {
                assert(Key::LeftBrace.slug() == s@);
                lemma_slug_injective(Key::LeftBrace, choose|k: Key| k.slug() == s@);
            }
            return Ok(Key::LeftBrace);
        }
        if str_eq(s, "rightbrace") {
            proof {
                assert(Key::RightBrace.slug() == s@);
                lemma_slug_injective(Key::RightBrace, choose|k: Key| k.slug() == s@);
            }
            return Ok(Key::RightBrace);
        }
        if str_eq(s, "enter") {
            proof {
                assert(Key::Enter.slug() == s@);
                lemma_slug_injective(Key::Enter, choose|k: Key| k.slug() == s@);
            }
            return Ok(Key::Enter);
        }
        if str_eq(s, "leftctrl") {
            proof {
                assert(Key::LeftCtrl.slug() == s@);
                lemma_slug_injective(Key::LeftCtrl, choose|k: Key| k.slug() == s@);
            }
            return Ok(Key::LeftCtrl);
        }
        if str_eq(s, "a") {
            proof {
                assert(Key::A.slug() == s@);
                lemma_slug_injective(Key::A, choose|k: Key| k.slug() == s@);
            }
            return Ok(Key::A);
        }
        if str_eq(s, "s") {
            proof {
                assert(Key::S.slug() == s@);
                lemma_slug_injective(Key::S, choose|k: Key| k.slug() == s@);
            }
            return Ok(Key::S);
        }
        if str_eq(s, "d") {
            proof {
                assert(Key::D.slug() == s@);
                lemma_slug_injective(Key::D, choose|k: Key| k.slug() == s@);
            }
            return Ok(Key::D);
        }
        if str_eq(s, "f") {
            proof {
                assert(Key::F.slug() == s@);
                lemma_slug_injective(Key::F, choose|k: Key| k.slug() == s@);
            }
            return Ok(Key::F);
        }
        if str_eq(s, "g") {
            proof {
                assert(Key::G.slug() == s@);
                lemma_slug_injective(Key::G, choose|k: Key| k.slug() == s@);
            }
            return Ok(Key::G);
        }
        if str_eq(s, "h") {
            proof {
                assert(Key::H.slug() == s@);
                lemma_slug_injective(Key::H, choose|k: Key| k.slug() == s@);
            }
            return Ok(Key::H);
        }
        if str_eq(s, "j") {
            proof {
                assert(Key::J.slug() == s@);
                lemma_slug_injective(Key::J, choose|k: Key| k.slug() == s@);
            }
            return Ok(Key::J);
        }
        if str_eq(s, "k") {
            proof {
                assert(Key::K.slug() == s@);
                lemma_slug_injective(Key::K, choose|k: Key| k.slug() == s@);
            }
            return Ok(Key::K);
        }
        if str_eq(s, "l") {
            proof {
                assert(Key::L.slug() == s@);
                lemma_slug_injective(Key::L, choose|k: Key| k.slug() == s@);
            }
            return Ok(Key::L);
        }
        if str_eq(s, "semicolon") {
            proof {
                assert(Key::Semicolon.slug() == s@);
                lemma_slug_injective(Key::Semicolon, choose|k: Key| k.slug() == s@);
            }
            return Ok(Key::Semicolon);
        }
        if str_eq(s, "apostrophe") {
            proof {
                assert(Key::Apostrophe.slug() == s@);
                lemma_slug_injective(Key::Apostrophe, choose|k: Key| k.slug() == s@);
            }
            return Ok(Key::Apostrophe);
        }
        if str_eq(s, "grave") {
            proof {
                assert(Key::Grave.slug() == s@);
                lemma_slug_injective(Key::Grave, choose|k: Key| k.slug() == s@);
            }
            return Ok(Key::Grave);
        }
        if str_eq(s, "leftshift") {
            proof {
                assert(Key::LeftShift.slug() == s@);
                lemma_slug_injective(Key::LeftShift, choose|k: Key| k.slug() == s@);
            }
            return Ok(Key::LeftShift);
        }
        if str_eq(s, "backslash") {
            proof {
                assert(Key::Backslash.slug() == s@);
                lemma_slug_injective(Key::Backslash, choose|k: Key| k.slug() == s@);
            }
            return Ok(Key::Backslash);
        }
        if str_eq(s, "z") {
            proof {
                assert(Key::Z.slug() == s@);
                lemma_slug_injective(Key::Z, choose|k: Key| k.slug() == s@);
            }
            return Ok(Key::Z);
        }
        if str_eq(s, "x") {
            proof {
                assert(Key::X.slug() == s@);
                lemma_slug_injective(Key::X, choose|k: Key| k.slug() == s@);
            }
            return Ok(Key::X);
        }
        if str_eq(s, "c") {
            proof {
                assert(Key::C.slug() == s@);
                lemma_slug_injective(Key::C, choose|k: Key| k.slug() == s@);
            }
            return Ok(Key::C);
        }
        if str_eq(s, "v") {
            proof {
                assert(Key::V.slug() == s@);
                lemma_slug_injective(Key::V, choose|k: Key| k.slug() == s@);
            }
            return Ok(Key::V);
        }
        if str_eq(s, "b") {
            proof {
                assert(Key::B.slug() == s@);
                lemma_slug_injective(Key::B, choose|k: Key| k.slug() == s@);
            }
            return Ok(Key::B);
        }
        if str_eq(s, "n") {
            proof {
                assert(Key::N.slug() == s@);
                lemma_slug_injective(Key::N, choose|k: Key| k.slug() == s@);
            }
            return Ok(Key::N);
        }
        if str_eq(s, "m") {
            proof {
                assert(Key::M.slug() == s@);
                lemma_slug_injective(Key::M, choose|k: Key| k.slug() == s@);
            }
            return Ok(Key::M);
        }
        if str_eq(s, "comma") {
            proof {
                assert(Key::Comma.slug() == s@);
                lemma_slug_injective(Key::Comma, choose|k: Key| k.slug() == s@);
            }
            return Ok(Key::Comma);
        }
        if str_eq(s, "dot") {
            proof {
                assert(Key::Dot.slug() == s@);
                lemma_slug_injective(Key::Dot, choose|k: Key| k.slug() == s@);
            }
            return Ok(Key::Dot);
        }
        if str_eq(s, "slash") {
            proof {
                assert(Key::Slash.slug() == s@);
                lemma_slug_injective(Key::Slash, choose|k: Key| k.slug() == s@);
            }
            return Ok(Key::Slash);
        }
        if str_eq(s, "rightshift") {
            proof {
                assert(Key::RightShift.slug() == s@);
                lemma_slug_injective(Key::RightShift, choose|k: Key| k.slug() == s@);
            }
            return Ok(Key::RightShift);
        }
        if str_eq(s, "kpasterisk") {
            proof {
                assert(Key::KpAsterisk.slug() == s@);
                lemma_slug_injective(Key::KpAsterisk, choose|k: Key| k.slug() == s@);
            }
            return Ok(Key::KpAsterisk);
        }
        if str_eq(s, "leftalt") {
            proof {
                assert(Key::LeftAlt.slug() == s@);
                lemma_slug_injective(Key::LeftAlt, choose|k: Key| k.slug() == s@);
            }
            return Ok(Key::LeftAlt);
        }
        if str_eq(s, "space") {
            proof {
                assert(Key::Space.slug() == s@);
                lemma_slug_injective(Key::Space, choose|k: Key| k.slug() == s@);
            }
            return Ok(Key::Space);
        }
        if str_eq(s, "capslock") {
            proof {
                assert(Key::CapsLock.slug() == s@);
                lemma_slug_injective(Key::CapsLock, choose|k: Key| k.slug() == s@);
            }
            return Ok(Key::CapsLock);
        }
        if str_eq(s, "f1") {
            proof {
                assert(Key::F1.slug() == s@);
                lemma_slug_injective(Key::F1, choose|k: Key| k.slug() == s@);
            }
            return Ok(Key::F1);
        }
        if str_eq(s, "f2") {
            proof {
                assert(Key::F2.slug() == s@);
                lemma_slug_injective(Key::F2, choose|k: Key| k.slug() == s@);
            }
            return Ok(Key::F2);
        }
        if str_eq(s, "f3") {
            proof {
                assert(Key::F3.slug() == s@);
                lemma_slug_injective(Key::F3, choose|k: Key| k.slug() == s@);
            }
            return Ok(Key::F3);
        }
        if str_eq(s, "f4") {
            proof {
                assert(Key::F4.slug() == s@);
                lemma_slug_injective(Key::F4, choose|k: Key| k.slug() == s@);
            }
            return Ok(Key::F4);
        }
        if str_eq(s, "f5") {
            proof {
                assert(Key::F5.slug() == s@);
                lemma_slug_injective(Key::F5, choose|k: Key| k.slug() == s@);
            }
            return Ok(Key::F5);
        }
        if str_eq(s, "f6") {
            proof {
                assert(Key::F6.slug() == s@);
                lemma_slug_injective(Key::F6, choose|k: Key| k.slug() == s@);
            }
            return Ok(Key::F6);
        }
        if str_eq(s, "f7") {
            proof {
                assert(Key::F7.slug() == s@);
                lemma_slug_injective(Key::F7, choose|k: Key| k.slug() == s@);
            }
            return Ok(Key::F7);
        }
        if str_eq(s, "f8") {
            proof {
                assert(Key::F8.slug() == s@);
                lemma_slug_injective(Key::F8, choose|k: Key| k.slug() == s@);
            }
            return Ok(Key::F8);
        }
        if str_eq(s, "f9") {
            proof {
                assert(Key::F9.slug() == s@);
                lemma_slug_injective(Key::F9, choose|k: Key| k.slug() == s@);
            }
            return Ok(Key::F9);
        }
        if str_eq(s, "f10") {
            proof {
                assert(Key::F10.slug() == s@);
                lemma_slug_injective(Key::F10, choose|k: Key| k.slug() == s@);
            }
            return Ok(Key::F10);
        }
        if str_eq(s, "numlock") {
            proof {
                assert(Key::NumLock.slug() == s@);
                lemma_slug_injective(Key::NumLock, choose|k: Key| k.slug() == s@);
            }
            return Ok(Key::NumLock);
        }
        if str_eq(s, "scrolllock") {
            proof {
                assert(Key::ScrollLock.slug() == s@);
                lemma_slug_injective(Key::ScrollLock, choose|k: Key| k.slug() == s@);
            }
            return Ok(Key::ScrollLock);
        }
        if str_eq(s, "kp7") {
            proof {
                assert(Key::Kp7.slug() == s@);
                lemma_slug_injective(Key::Kp7, choose|k: Key| k.slug() == s@);
            }
            return Ok(Key::Kp7);
        }
        if str_eq(s, "kp8") {
            proof {
                assert(Key::Kp8.slug() == s@);
                lemma_slug_injective(Key::Kp8, choose|k: Key| k.slug() == s@);
            }
            return Ok(Key::Kp8);
        }
        if str_eq(s, "kp9") {
            proof {
                assert(Key::Kp9.slug() == s@);
                lemma_slug_injective(Key::Kp9, choose|k: Key| k.slug() == s@);
            }
            return Ok(Key::Kp9);
        }
        if str_eq(s, "kpminus") {
            proof {
                assert(Key::KpMinus.slug() == s@);
                lemma_slug_injective(Key::KpMinus, choose|k: Key| k.slug() == s@);
            }
            return Ok(Key::KpMinus);
        }
        if str_eq(s, "kp4") {
            proof {
                assert(Key::Kp4.slug() == s@);
                lemma_slug_injective(Key::Kp4, choose|k: Key| k.slug() == s@);
            }
            return Ok(Key::Kp4);
        }
        if str_eq(s, "kp5") {
            proof {
                assert(Key::Kp5.slug() == s@);
                lemma_slug_injective(Key::Kp5, choose|k: Key| k.slug() == s@);
            }
            return Ok(Key::Kp5);
        }
        if str_eq(s, "kp6") {
            proof {
                assert(Key::Kp6.slug() == s@);
                lemma_slug_injective(Key::Kp6, choose|k: Key| k.slug() == s@);
            }
            return Ok(Key::Kp6);
        }
        if str_eq(s, "kpplus") {
            proof {
                assert(Key::KpPlus.slug() == s@);
                lemma_slug_injective(Key::KpPlus, choose|k: Key| k.slug() == s@);
            }
            return Ok(Key::KpPlus);
        }
        if str_eq(s, "kp1") {
            proof {
                assert(Key::Kp1.slug() == s@);
                lemma_slug_injective(Key::Kp1, choose|k: Key| k.slug() == s@);
            }
            return Ok(Key::Kp1);
        }
        if str_eq(s, "kp2") {
            proof {
                assert(Key::Kp2.slug() == s@);
                lemma_slug_injective(Key::Kp2, choose|k: Key| k.slug() == s@);
            }
            return Ok(Key::Kp2);
        }
        if str_eq(s, "kp3") {
            proof {
                assert(Key::Kp3.slug() == s@);
                lemma_slug_injective(Key::Kp3, choose|k: Key| k.slug() == s@);
            }
            return Ok(Key::Kp3);
        }
        if str_eq(s, "kp0") {
            proof {
                assert(Key::Kp0.slug() == s@);
                lemma_slug_injective(Key::Kp0, choose|k: Key| k.slug() == s@);
            }
            return Ok(Key::Kp0);
        }
        if str_eq(s, "kpdot") {
            proof {
                assert(Key::KpDot.slug() == s@);
                lemma_slug_injective(Key::KpDot, choose|k: Key| k.slug() == s@);
            }
            return Ok(Key::KpDot);
        }
        if str_eq(s, "102nd") {
            proof {
                assert(Key::Key102nd.slug() == s@);
                lemma_slug_injective(Key::Key102nd, choose|k: Key| k.slug() == s@);
            }
            return Ok(Key::Key102nd);
        }
        if str_eq(s, "f11") {
            proof {
                assert(Key::F11.slug() == s@);
                lemma_slug_injective(Key::F11, choose|k: Key| k.slug() == s@);
            }
            return Ok(Key::F11);
        }
        if str_eq(s, "f12") {
            proof {
                assert(Key::F12.slug() == s@);
                lemma_slug_injective(Key::F12, choose|k: Key| k.slug() == s@);
            }
            return Ok(Key::F12);
        }
        if str_eq(s, "kpenter") {
            proof {
                assert(Key::KpEnter.slug() == s@);
                lemma_slug_injective(Key::KpEnter, choose|k: Key| k.slug() == s@);
            }
            return Ok(Key::KpEnter);
        }
        if str_eq(s, "rightctrl") {
            proof {
                assert(Key::RightCtrl.slug() == s@);
                lemma_slug_injective(Key::RightCtrl, choose|k: Key| k.slug() == s@);
            }
            return Ok(Key::RightCtrl);
        }
        if str_eq(s, "kpslash") {
            proof {
                assert(Key::KpSlash.slug() == s@);
                lemma_slug_injective(Key::KpSlash, choose|k: Key| k.slug() == s@);
            }
            return Ok(Key::KpSlash);
        }
        if str_eq(s, "sysrq") {
            proof {
                assert(Key::SysRq.slug() == s@);
                lemma_slug_injective(Key::SysRq, choose|k: Key| k.slug() == s@);
            }
            return Ok(Key::SysRq);
        }
        if str_eq(s, "rightalt") {
            proof {
                assert(Key::RightAlt.slug() == s@);
                lemma_slug_injective(Key::RightAlt, choose|k: Key| k.slug() == s@);
            }
            return Ok(Key::RightAlt);
        }
        if str_eq(s, "home") {
            proof {
                assert(Key::Home.slug() == s@);
                lemma_slug_injective(Key::Home, choose|k: Key| k.slug() == s@);
            }
            return Ok(Key::Home);
        }
        if str_eq(s, "up") {
            proof {
                assert(Key::Up.slug() == s@);
                lemma_slug_injective(Key::Up, choose|k: Key| k.slug() == s@);
            }
            return Ok(Key::Up);
        }
        if str_eq(s, "pageup") {
            proof {
                assert(Key::PageUp.slug() == s@);
                lemma_slug_injective(Key::PageUp, choose|k: Key| k.slug() == s@);
            }
            return Ok(Key::PageUp);
        }
        if str_eq(s, "left") {
            proof {
                assert(Key::Left.slug() == s@);
                lemma_slug_injective(Key::Left, choose|k: Key| k.slug() == s@);
            }
            return Ok(Key::Left);
        }
        if str_eq(s, "right") {
            proof {
                assert(Key::Right.slug() == s@);
                lemma_slug_injective(Key::Right, choose|k: Key| k.slug() == s@);
            }
            return Ok(Key::Right);
        }
        if str_eq(s, "end") {
            proof {
                assert(Key::End.slug() == s@);
                lemma_slug_injective(Key::End, choose|k: Key| k.slug() == s@);
            }
            return Ok(Key::End);
        }
        if str_eq(s, "down") {
            proof {
                assert(Key::Down.slug() == s@);
                lemma_slug_injective(Key::Down, choose|k: Key| k.slug() == s@);
            }
            return Ok(Key::Down);
        }
        if str_eq(s, "pagedown") {
            proof {
                assert(Key::PageDown.slug() == s@);
                lemma_slug_injective(Key::PageDown, choose|k: Key| k.slug() == s@);
            }
            return Ok(Key::PageDown);
        }
        if str_eq(s, "insert") {
            proof {
                assert(Key::Insert.slug() == s@);
                lemma_slug_injective(Key::Insert, choose|k: Key| k.slug() == s@);
            }
            return Ok(Key::Insert);
        }
        if str_eq(s, "delete") {
            proof {
                assert(Key::Delete.slug() == s@);
                lemma_slug_injective(Key::Delete, choose|k: Key| k.slug() == s@);
            }
            return Ok(Key::Delete);
        }
        if str_eq(s, "mute") {
            proof {
                assert(Key::Mute.slug() == s@);
                lemma_slug_injective(Key::Mute, choose|k: Key| k.slug() == s@);
            }
            return Ok(Key::Mute);
        }
        if str_eq(s, "volumedown") {
            proof {
                assert(Key::VolumeDown.slug() == s@);
                lemma_slug_injective(Key::VolumeDown, choose|k: Key| k.slug() == s@);
            }
            return Ok(Key::VolumeDown);
        }
        if str_eq(s, "volumeup") {
            proof {
                assert(Key::VolumeUp.slug() == s@);
                lemma_slug_injective(Key::VolumeUp, choose|k: Key| k.slug() == s@);
            }
            return Ok(Key::VolumeUp);
        }
        if str_eq(s, "power") {
            proof {
                assert(Key::Power.slug() == s@);
                lemma_slug_injective(Key::Power, choose|k: Key| k.slug() == s@);
            }
            return Ok(Key::Power);
        }
        if str_eq(s, "kpequal") {
            proof {
                assert(Key::KpEqual.slug() == s@);
                lemma_slug_injective(Key::KpEqual, choose|k: Key| k.slug() == s@);
            }
            return Ok(Key::KpEqual);
        }
        if str_eq(s, "pause") {
            proof {
                assert(Key::Pause.slug() == s@);
                lemma_slug_injective(Key::Pause, choose|k: Key| k.slug() == s@);
            }
            return Ok(Key::Pause);
        }
        if str_eq(s, "leftmeta") {
            proof {
                assert(Key::LeftMeta.slug() == s@);
                lemma_slug_injective(Key::LeftMeta, choose|k: Key| k.slug() == s@);
            }
            return Ok(Key::LeftMeta);
        }
        if str_eq(s, "rightmeta") {
            proof {
                assert(Key::RightMeta.slug() == s@);
                lemma_slug_injective(Key::RightMeta, choose|k: Key| k.slug() == s@);
            }
            return Ok(Key::RightMeta);
        }
        if str_eq(s, "compose") {
            proof {
                assert(Key::Compose.slug() == s@);
                lemma_slug_injective(Key::Compose, choose|k: Key| k.slug() == s@);
            }
            return Ok(Key::Compose);
        }
        if str_eq(s, "nextsong") {
            proof {
                assert(Key::NextSong.slug() == s@);
                lemma_slug_injective(Key::NextSong, choose|k: Key| k.slug() == s@);
            }
            return Ok(Key::NextSong);
        }
        if str_eq(s, "playpause") {
            proof {
                assert(Key::PlayPause.slug() == s@);
                lemma_slug_injective(Key::PlayPause, choose|k: Key| k.slug() == s@);
            }
            return Ok(Key::PlayPause);
        }
        if str_eq(s, "previoussong") {
            proof {
                assert(Key::PreviousSong.slug() == s@);
                lemma_slug_injective(Key::PreviousSong, choose|k: Key| k.slug() == s@);
            }
            return Ok(Key::PreviousSong);
        }
        if str_eq(s, "stopcd") {
            proof {
                assert(Key::StopCd.slug() == s@);
                lemma_slug_injective(Key::StopCd, choose|k: Key| k.slug() == s@);
            }
            return Ok(Key::StopCd);
        }
        if str_eq(s, "f13") {
            proof {
                assert(Key::F13.slug() == s@);
                lemma_slug_injective(Key::F13, choose|k: Key| k.slug() == s@);
            }
            return Ok(Key::F13);
        }
        if str_eq(s, "f14") {
            proof {
                assert(Key::F14.slug() == s@);
                lemma_slug_injective(Key::F14, choose|k: Key| k.slug() == s@);
            }
            return Ok(Key::F14);
        }
        if str_eq(s, "f15") {
            proof {
                assert(Key::F15.slug() == s@);
                lemma_slug_injective(Key::F15, choose|k: Key| k.slug() == s@);
            }
            return Ok(Key::F15);
        }
        if str_eq(s, "f16") {
            proof {
                assert(Key::F16.slug() == s@);
                lemma_slug_injective(Key::F16, choose|k: Key| k.slug() == s@);
            }
            return Ok(Key::F16);
        }
        if str_eq(s, "f17") {
            proof {
                assert(Key::F17.slug() == s@);
                lemma_slug_injective(Key::F17, choose|k: Key| k.slug() == s@);
            }
            return Ok(Key::F17);
        }
        if str_eq(s, "f18") {
            proof {
                assert(Key::F18.slug() == s@);
                lemma_slug_injective(Key::F18, choose|k: Key| k.slug() == s@);
            }
            return Ok(Key::F18);
        }
        if str_eq(s, "f19") {
            proof {
                assert(Key::F19.slug() == s@);
                lemma_slug_injective(Key::F19, choose|k: Key| k.slug() == s@);
            }
            return Ok(Key::F19);
        }
        if str_eq(s, "f20") {
            proof {
                assert(Key::F20.slug() == s@);
                lemma_slug_injective(Key::F20, choose|k: Key| k.slug() == s@);
            }
            return Ok(Key::F20);
        }
        if str_eq(s, "f21") {
            proof {
                assert(Key::F21.slug() == s@);
                lemma_slug_injective(Key::F21, choose|k: Key| k.slug() == s@);
            }
            return Ok(Key::F21);
        }
        if str_eq(s, "f22") {
            proof {
                assert(Key::F22.slug() == s@);
                lemma_slug_injective(Key::F22, choose|k: Key| k.slug() == s@);
            }
            return Ok(Key::F22);
        }
        if str_eq(s, "f23") {
            proof {
                assert(Key::F23.slug() == s@);
                lemma_slug_injective(Key::F23, choose|k: Key| k.slug() == s@);
            }
            return Ok(Key::F23);
        }
        if str_eq(s, "f24") {
            proof {
                assert(Key::F24.slug() == s@);
                lemma_slug_injective(Key::F24, choose|k: Key| k.slug() == s@);
            }
            return Ok(Key::F24);
        }
        if str_eq(s, "brightnessdown") {
            proof {
                assert(Key::BrightnessDown.slug() == s@);
                lemma_slug_injective(Key::BrightnessDown, choose|k: Key| k.slug() == s@);
            }
            return Ok(Key::BrightnessDown);
        }
        if str_eq(s, "brightnessup") {
            proof {
                assert(Key::BrightnessUp.slug() == s@);
                lemma_slug_injective(Key::BrightnessUp, choose|k: Key| k.slug() == s@);
            }
            return Ok(Key::BrightnessUp);
        }
        assert forall|k: Key| k.slug() != s@ by {}
        Err(())
    }
}

impl std::str::FromStr for Key {
    type Err = ();

    fn from_str(s: &str) -> Result<Key, ()> {
        Key::from_slug(s)
    }
}

proof fn lemma_guess_from_slug(k: Key)
    ensures
        Key::guess_from_slug(k.slug()) == k,
{
    match k {
        Key::Esc => reveal_strlit("esc"),
        Key::Key1 => reveal_strlit("1"),
        Key::Key2 => reveal_strlit("2"),
        Key::Key3 => reveal_strlit("3"),
        Key::Key4 => reveal_strlit("4"),
        Key::Key5 => reveal_strlit("5"),
        Key::Key6 => reveal_strlit("6"),
        Key::Key7 => reveal_strlit("7"),
        Key::Key8 => reveal_strlit("8"),
        Key::Key9 => reveal_strlit("9"),
        Key::Key0 => reveal_strlit("0"),
        Key::Minus => reveal_strlit("minus"),
        Key::Equal => reveal_strlit("equal"),
        Key::Backspace => reveal_strlit("backspace"),
        Key::Tab => reveal_strlit("tab"),
        Key::Q => reveal_strlit("q"),
        Key::W => reveal_strlit("w"),
        Key::E => reveal_strlit("e"),
        Key::R => reveal_strlit("r"),
        Key::T => reveal_strlit("t"),
        Key::Y => reveal_strlit("y"),
        Key::U => reveal_strlit("u"),
        Key::I => reveal_strlit("i"),
        Key::O => reveal_strlit("o"),
        Key::P => reveal_strlit("p"),
        Key::LeftBrace => reveal_strlit("leftbrace"),
        Key::RightBrace => reveal_strlit("rightbrace"),
        Key::Enter => reveal_strlit("enter"),
        Key::LeftCtrl => reveal_strlit("leftctrl"),
        Key::A => reveal_strlit("a"),
        Key::S => reveal_strlit("s"),
        Key::D => reveal_strlit("d"),
        Key::F => reveal_strlit("f"),
        Key::G => reveal_strlit("g"),
        Key::H => reveal_strlit("h"),
        Key::J => reveal_strlit("j"),
        Key::K => reveal_strlit("k"),
        Key::L => reveal_strlit("l"),
        Key::Semicolon => reveal_strlit("semicolon"),
        Key::Apostrophe => reveal_strlit("apostrophe"),
        Key::Grave => reveal_strlit("grave"),
        Key::LeftShift => reveal_strlit("leftshift"),
        Key::Backslash => reveal_strlit("backslash"),
        Key::Z => reveal_strlit("z"),
        Key::X => reveal_strlit("x"),
        Key::C => reveal_strlit("c"),
        Key::V => reveal_strlit("v"),
        Key::B => reveal_strlit("b"),
        Key::N => reveal_strlit("n"),
        Key::M => reveal_strlit("m"),
        Key::Comma => reveal_strlit("comma"),
        Key::Dot => reveal_strlit("dot"),
        Key::Slash => reveal_strlit("slash"),
        Key::RightShift => reveal_strlit("rightshift"),
        Key::KpAsterisk => reveal_strlit("kpasterisk"),
        Key::LeftAlt => reveal_strlit("leftalt"),
        Key::Space => reveal_strlit("space"),
        Key::CapsLock => reveal_strlit("capslock"),
        Key::F1 => reveal_strlit("f1"),
        Key::F2 => reveal_strlit("f2"),
        Key::F3 => reveal_strlit("f3"),
        Key::F4 => reveal_strlit("f4"),
        Key::F5 => reveal_strlit("f5"),
        Key::F6 => reveal_strlit("f6"),
        Key::F7 => reveal_strlit("f7"),
        Key::F8 => reveal_strlit("f8"),
        Key::F9 => reveal_strlit("f9"),
        Key::F10 => reveal_strlit("f10"),
        Key::NumLock => reveal_strlit("numlock"),
        Key::ScrollLock => reveal_strlit("scrolllock"),
        Key::Kp7 => reveal_strlit("kp7"),
        Key::Kp8 => reveal_strlit("kp8"),
        Key::Kp9 => reveal_strlit("kp9"),
        Key::KpMinus => reveal_strlit("kpminus"),
        Key::Kp4 => reveal_strlit("kp4"),
        Key::Kp5 => reveal_strlit("kp5"),
        Key::Kp6 => reveal_strlit("kp6"),
        Key::KpPlus => reveal_strlit("kpplus"),
        Key::Kp1 => reveal_strlit("kp1"),
        Key::Kp2 => reveal_strlit("kp2"),
        Key::Kp3 => reveal_strlit("kp3"),
        Key::Kp0 => reveal_strlit("kp0"),
        Key::KpDot => reveal_strlit("kpdot"),
        Key::Key102nd => reveal_strlit("102nd"),
        Key::F11 => reveal_strlit("f11"),
        Key::F12 => reveal_strlit("f12"),
        Key::KpEnter => reveal_strlit("kpenter"),
        Key::RightCtrl => reveal_strlit("rightctrl"),
        Key::KpSlash => reveal_strlit("kpslash"),
        Key::SysRq => reveal_strlit("sysrq"),
        Key::RightAlt => reveal_strlit("rightalt"),
        Key::Home => reveal_strlit("home"),
        Key::Up => reveal_strlit("up"),
        Key::PageUp => reveal_strlit("pageup"),
        Key::Left => reveal_strlit("left"),
        Key::Right => reveal_strlit("right"),
        Key::End => reveal_strlit("end"),
        Key::Down => reveal_strlit("down"),
        Key::PageDown => reveal_strlit("pagedown"),
        Key::Insert => reveal_strlit("insert"),
        Key::Delete => reveal_strlit("delete"),
        Key::Mute => reveal_strlit("mute"),
        Key::VolumeDown => reveal_strlit("volumedown"),
        Key::VolumeUp => reveal_strlit("volumeup"),
        Key::Power => reveal_strlit("power"),
        Key::KpEqual => reveal_strlit("kpequal"),
        Key::Pause => reveal_strlit("pause"),
        Key::LeftMeta => reveal_strlit("leftmeta"),
        Key::RightMeta => reveal_strlit("rightmeta"),
        Key::Compose => reveal_strlit("compose"),
        Key::NextSong => reveal_strlit("nextsong"),
        Key::PlayPause => reveal_strlit("playpause"),
        Key::PreviousSong => reveal_strlit("previoussong"),
        Key::StopCd => reveal_strlit("stopcd"),
        Key::F13 => reveal_strlit("f13"),
        Key::F14 => reveal_strlit("f14"),
        Key::F15 => reveal_strlit("f15"),
        Key::F16 => reveal_strlit("f16"),
        Key::F17 => reveal_strlit("f17"),
        Key::F18 => reveal_strlit("f18"),
        Key::F19 => reveal_strlit("f19"),
        Key::F20 => reveal_strlit("f20"),
        Key::F21 => reveal_strlit("f21"),
        Key::F22 => reveal_strlit("f22"),
        Key::F23 => reveal_strlit("f23"),
        Key::F24 => reveal_strlit("f24"),
        Key::BrightnessDown => reveal_strlit("brightnessdown"),
        Key::BrightnessUp => reveal_strlit("brightnessup"),
    }
}

/// No two variants share a name.
pub proof fn lemma_slug_injective(a: Key, b: Key)
    requires
        a.slug() == b.slug(),
    ensures
        a == b,
{
    lemma_guess_from_slug(a);
    lemma_guess_from_slug(b);
}

/// Reading the name of a variant gives that variant back, and whatever reads as a variant
/// is exactly that variant's name.
pub proof fn lemma_slug_round_trip(k: Key, s: Seq<char>)
    ensures
        Key::from_slug_spec(k.slug()) == Ok::<Key, ()>(k),
        Key::from_slug_spec(s) matches Ok(j) ==> j.slug() == s,
{
    lemma_slug_injective(k, choose|j: Key| j.slug() == k.slug());
}

/// Decoding the kernel code of a variant gives that variant back, and whatever decodes
/// to a variant is exactly that variant's code.
pub proof fn lemma_code_round_trip(k: Key, c: u16)
    ensures
        Key::from_code_spec(k.code_spec()) == Ok::<Key, ()>(k),
        Key::from_code_spec(c) matches Ok(j) ==> j.code_spec() == c,
{
}

} // verus!
