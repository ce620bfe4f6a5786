//! Global shortcuts: the key and modifier vocabulary, the events the ArkTS
//! side reports, the queue that carries them to the app, and the checks and
//! requests of the global-shortcut plugin.

use vstd::prelude::*;

use crate::bridge::{
    accepted_or, ensure_accepted, outcome, BridgeContextRequirement, BridgeError, BridgeNapiType,
    BridgePlugin,
};
use crate::keyed::text_eq;

verus! {

/// A modifier key of a global shortcut.
#[derive(Debug, Clone, Copy, PartialEq, Eq, Structural)]
pub enum Modifier {
    Control,
    Shift,
    Alt,
    Super,
}

/// The name of a modifier as the shortcut registry spells it.
pub open spec fn modifier_name(m: Modifier) -> Seq<char> {
    match m {
        Modifier::Control => seq!['C', 't', 'r', 'l'],
        Modifier::Shift => seq!['S', 'h', 'i', 'f', 't'],
        Modifier::Alt => seq!['A', 'l', 't'],
        Modifier::Super => seq!['M', 'e', 't', 'a'],
    }
}

impl Modifier {
    /// The modifier's name.
    pub fn as_str(&self) -> (r: &'static str)
        ensures
            r@ == modifier_name(*self),
    {
        match self {
            Modifier::Control => {
                proof {
                    reveal_strlit("Ctrl");
                }
                "Ctrl"
            },
            Modifier::Shift => {
                proof {
                    reveal_strlit("Shift");
                }
                "Shift"
            },
            Modifier::Alt => {
                proof {
                    reveal_strlit("Alt");
                }
                "Alt"
            },
            Modifier::Super => {
                proof {
                    reveal_strlit("Meta");
                }
                "Meta"
            },
        }
    }
}

/// A main key of a global shortcut.
#[derive(Debug, Clone, Copy, PartialEq, Eq, Structural)]
pub enum Key {
    A,
    B,
    C,
    D,
    E,
    F,
    G,
    H,
    I,
    J,
    K,
    L,
    M,
    N,
    O,
    P,
    Q,
    R,
    S,
    T,
    U,
    V,
    W,
    X,
    Y,
    Z,
    Digit0,
    Digit1,
    Digit2,
    Digit3,
    Digit4,
    Digit5,
    Digit6,
    Digit7,
    Digit8,
    Digit9,
    F1,
    F2,
    F3,
    F4,
    F5,
    F6,
    F7,
    F8,
    F9,
    F10,
    F11,
    F12,
    F13,
    F14,
    F15,
    F16,
    F17,
    F18,
    F19,
    F20,
    F21,
    F22,
    F23,
    F24,
    Space,
    Enter,
    Escape,
    Tab,
    Backspace,
    Delete,
    Insert,
    Home,
    End,
    PageUp,
    PageDown,
    ArrowUp,
    ArrowDown,
    ArrowLeft,
    ArrowRight,
}

/// The name of a key, as ArkTS and the shortcut registry spell it.
pub open spec fn key_name(k: Key) -> Seq<char> {
    match k {
        Key::A => seq!['A'],
        Key::B => seq!['B'],
        Key::C => seq!['C'],
        Key::D => seq!['D'],
        Key::E => seq!['E'],
        Key::F => seq!['F'],
        Key::G => seq!['G'],
        Key::H => seq!['H'],
        Key::I => seq!['I'],
        Key::J => seq!['J'],
        Key::K => seq!['K'],
        Key::L => seq!['L'],
        Key::M => seq!['M'],
        Key::N => seq!['N'],
        Key::O => seq!['O'],
        Key::P => seq!['P'],
        Key::Q => seq!['Q'],
        Key::R => seq!['R'],
        Key::S => seq!['S'],
        Key::T => seq!['T'],
        Key::U => seq!['U'],
        Key::V => seq!['V'],
        Key::W => seq!['W'],
        Key::X => seq!['X'],
        Key::Y => seq!['Y'],
        Key::Z => seq!['Z'],
        Key::Digit0 => seq!['0'],
        Key::Digit1 => seq!['1'],
        Key::Digit2 => seq!['2'],
        Key::Digit3 => seq!['3'],
        Key::Digit4 => seq!['4'],
        Key::Digit5 => seq!['5'],
        Key::Digit6 => seq!['6'],
        Key::Digit7 => seq!['7'],
        Key::Digit8 => seq!['8'],
        Key::Digit9 => seq!['9'],
        Key::F1 => seq!['F', '1'],
        Key::F2 => seq!['F', '2'],
        Key::F3 => seq!['F', '3'],
        Key::F4 => seq!['F', '4'],
        Key::F5 => seq!['F', '5'],
        Key::F6 => seq!['F', '6'],
        Key::F7 => seq!['F', '7'],
        Key::F8 => seq!['F', '8'],
        Key::F9 => seq!['F', '9'],
        Key::F10 => seq!['F', '1', '0'],
        Key::F11 => seq!['F', '1', '1'],
        Key::F12 => seq!['F', '1', '2'],
        Key::F13 => seq!['F', '1', '3'],
        Key::F14 => seq!['F', '1', '4'],
        Key::F15 => seq!['F', '1', '5'],
        Key::F16 => seq!['F', '1', '6'],
        Key::F17 => seq!['F', '1', '7'],
        Key::F18 => seq!['F', '1', '8'],
        Key::F19 => seq!['F', '1', '9'],
        Key::F20 => seq!['F', '2', '0'],
        Key::F21 => seq!['F', '2', '1'],
        Key::F22 => seq!['F', '2', '2'],
        Key::F23 => seq!['F', '2', '3'],
        Key::F24 => seq!['F', '2', '4'],
        Key::Space => seq!['S', 'p', 'a', 'c', 'e'],
        Key::Enter => seq!['E', 'n', 't', 'e', 'r'],
        Key::Escape => seq!['E', 's', 'c', 'a', 'p', 'e'],
        Key::Tab => seq!['T', 'a', 'b'],
        Key::Backspace => seq!['B', 'a', 'c', 'k', 's', 'p', 'a', 'c', 'e'],
        Key::Delete => seq!['D', 'e', 'l', 'e', 't', 'e'],
        Key::Insert => seq!['I', 'n', 's', 'e', 'r', 't'],
        Key::Home => seq!['H', 'o', 'm', 'e'],
        Key::End => seq!['E', 'n', 'd'],
        Key::PageUp => seq!['P', 'a', 'g', 'e', 'U', 'p'],
        Key::PageDown => seq!['P', 'a', 'g', 'e', 'D', 'o', 'w', 'n'],
        Key::ArrowUp => seq!['A', 'r', 'r', 'o', 'w', 'U', 'p'],
        Key::ArrowDown => seq!['A', 'r', 'r', 'o', 'w', 'D', 'o', 'w', 'n'],
        Key::ArrowLeft => seq!['A', 'r', 'r', 'o', 'w', 'L', 'e', 'f', 't'],
        Key::ArrowRight => seq!['A', 'r', 'r', 'o', 'w', 'R', 'i', 'g', 'h', 't'],
    }
}

/// The key a name denotes, if any, decided character by character.
pub open spec fn key_of_name(s: Seq<char>) -> Option<Key> {
    if s.len() == 1 && s[0] == 'A' {
        Some(Key::A)
    } else if s.len() == 1 && s[0] == 'B' {
        Some(Key::B)
    } else if s.len() == 1 && s[0] == 'C' {
        Some(Key::C)
    } else if s.len() == 1 && s[0] == 'D' {
        Some(Key::D)
    } else if s.len() == 1 && s[0] == 'E' {
        Some(Key::E)
    } else if s.len() == 1 && s[0] == 'F' {
        Some(Key::F)
    } else if s.len() == 1 && s[0] == 'G' {
        Some(Key::G)
    } else if s.len() == 1 && s[0] == 'H' {
        Some(Key::H)
    } else if s.len() == 1 && s[0] == 'I' {
        Some(Key::I)
    } else if s.len() == 1 && s[0] == 'J' {
        Some(Key::J)
    } else if s.len() == 1 && s[0] == 'K' {
        Some(Key::K)
    } else if s.len() == 1 && s[0] == 'L' {
        Some(Key::L)
    } else if s.len() == 1 && s[0] == 'M' {
        Some(Key::M)
    } else if s.len() == 1 && s[0] == 'N' {
        Some(Key::N)
    } else if s.len() == 1 && s[0] == 'O' {
        Some(Key::O)
    } else if s.len() == 1 && s[0] == 'P' {
        Some(Key::P)
    } else if s.len() == 1 && s[0] == 'Q' {
        Some(Key::Q)
    } else if s.len() == 1 && s[0] == 'R' {
        Some(Key::R)
    } else if s.len() == 1 && s[0] == 'S' {
        Some(Key::S)
    } else if s.len() == 1 && s[0] == 'T' {
        Some(Key::T)
    } else if s.len() == 1 && s[0] == 'U' {
        Some(Key::U)
    } else if s.len() == 1 && s[0] == 'V' {
        Some(Key::V)
    } else if s.len() == 1 && s[0] == 'W' {
        Some(Key::W)
    } else if s.len() == 1 && s[0] == 'X' {
        Some(Key::X)
    } else if s.len() == 1 && s[0] == 'Y' {
        Some(Key::Y)
    } else if s.len() == 1 && s[0] == 'Z' {
        Some(Key::Z)
    } else if s.len() == 1 && s[0] == '0' {
        Some(Key::Digit0)
    } else if s.len() == 1 && s[0] == '1' {
        Some(Key::Digit1)
    } else if s.len() == 1 && s[0] == '2' {
        Some(Key::Digit2)
    } else if s.len() == 1 && s[0] == '3' {
        Some(Key::Digit3)
    } else if s.len() == 1 && s[0] == '4' {
        Some(Key::Digit4)
    } else if s.len() == 1 && s[0] == '5' {
        Some(Key::Digit5)
    } else if s.len() == 1 && s[0] == '6' {
        Some(Key::Digit6)
    } else if s.len() == 1 && s[0] == '7' {
        Some(Key::Digit7)
    } else if s.len() == 1 && s[0] == '8' {
        Some(Key::Digit8)
    } else if s.len() == 1 && s[0] == '9' {
        Some(Key::Digit9)
    } else if s.len() == 2 && s[0] == 'F' && s[1] == '1' {
        Some(Key::F1)
    } else if s.len() == 2 && s[0] == 'F' && s[1] == '2' {
        Some(Key::F2)
    } else if s.len() == 2 && s[0] == 'F' && s[1] == '3' {
        Some(Key::F3)
    } else if s.len() == 2 && s[0] == 'F' && s[1] == '4' {
        Some(Key::F4)
    } else if s.len() == 2 && s[0] == 'F' && s[1] == '5' {
        Some(Key::F5)
    } else if s.len() == 2 && s[0] == 'F' && s[1] == '6' {
        Some(Key::F6)
    } else if s.len() == 2 && s[0] == 'F' && s[1] == '7' {
        Some(Key::F7)
    } else if s.len() == 2 && s[0] == 'F' && s[1] == '8' {
        Some(Key::F8)
    } else if s.len() == 2 && s[0] == 'F' && s[1] == '9' {
        Some(Key::F9)
    } else if s.len() == 3 && s[0] == 'F' && s[1] == '1' && s[2] == '0' {
        Some(Key::F10)
    } else if s.len() == 3 && s[0] == 'F' && s[1] == '1' && s[2] == '1' {
        Some(Key::F11)
    } else if s.len() == 3 && s[0] == 'F' && s[1] == '1' && s[2] == '2' {
        Some(Key::F12)
    } else if s.len() == 3 && s[0] == 'F' && s[1] == '1' && s[2] == '3' {
        Some(Key::F13)
    } else if s.len() == 3 && s[0] == 'F' && s[1] == '1' && s[2] == '4' {
        Some(Key::F14)
    } else if s.len() == 3 && s[0] == 'F' && s[1] == '1' && s[2] == '5' {
        Some(Key::F15)
    } else if s.len() == 3 && s[0] == 'F' && s[1] == '1' && s[2] == '6' {
        Some(Key::F16)
    } else if s.len() == 3 && s[0] == 'F' && s[1] == '1' && s[2] == '7' {
        Some(Key::F17)
    } else if s.len() == 3 && s[0] == 'F' && s[1] == '1' && s[2] == '8' {
        Some(Key::F18)
    } else if s.len() == 3 && s[0] == 'F' && s[1] == '1' && s[2] == '9' {
        Some(Key::F19)
    } else if s.len() == 3 && s[0] == 'F' && s[1] == '2' && s[2] == '0' {
        Some(Key::F20)
    } else if s.len() == 3 && s[0] == 'F' && s[1] == '2' && s[2] == '1' {
        Some(Key::F21)
    } else if s.len() == 3 && s[0] == 'F' && s[1] == '2' && s[2] == '2' {
        Some(Key::F22)
    } else if s.len() == 3 && s[0] == 'F' && s[1] == '2' && s[2] == '3' {
        Some(Key::F23)
    } else if s.len() == 3 && s[0] == 'F' && s[1] == '2' && s[2] == '4' {
        Some(Key::F24)
    } else if s.len() == 5 && s[0] == 'S' && s[1] == 'p' && s[2] == 'a' && s[3] == 'c' && s[4] == 'e' {
        Some(Key::Space)
    } else if s.len() == 5 && s[0] == 'E' && s[1] == 'n' && s[2] == 't' && s[3] == 'e' && s[4] == 'r' {
        Some(Key::Enter)
    } else if s.len() == 6 && s[0] == 'E' && s[1] == 's' && s[2] == 'c' && s[3] == 'a' && s[4] == 'p' && s[5] == 'e' {
        Some(Key::Escape)
    } else if s.len() == 3 && s[0] == 'T' && s[1] == 'a' && s[2] == 'b' {
        Some(Key::Tab)
    } else if s.len() == 9 && s[0] == 'B' && s[1] == 'a' && s[2] == 'c' && s[3] == 'k' && s[4] == 's' && s[5] == 'p' && s[6] == 'a' && s[7] == 'c' && s[8] == 'e' {
        Some(Key::Backspace)
    } else if s.len() == 6 && s[0] == 'D' && s[1] == 'e' && s[2] == 'l' && s[3] == 'e' && s[4] == 't' && s[5] == 'e' {
        Some(Key::Delete)
    } else if s.len() == 6 && s[0] == 'I' && s[1] == 'n' && s[2] == 's' && s[3] == 'e' && s[4] == 'r' && s[5] == 't' {
        Some(Key::Insert)
    } else if s.len() == 4 && s[0] == 'H' && s[1] == 'o' && s[2] == 'm' && s[3] == 'e' {
        Some(Key::Home)
    } else if s.len() == 3 && s[0] == 'E' && s[1] == 'n' && s[2] == 'd' {
        Some(Key::End)
    } else if s.len() == 6 && s[0] == 'P' && s[1] == 'a' && s[2] == 'g' && s[3] == 'e' && s[4] == 'U' && s[5] == 'p' {
        Some(Key::PageUp)
    } else if s.len() == 8 && s[0] == 'P' && s[1] == 'a' && s[2] == 'g' && s[3] == 'e' && s[4] == 'D' && s[5] == 'o' && s[6] == 'w' && s[7] == 'n' {
        Some(Key::PageDown)
    } else if s.len() == 7 && s[0] == 'A' && s[1] == 'r' && s[2] == 'r' && s[3] == 'o' && s[4] == 'w' && s[5] == 'U' && s[6] == 'p' {
        Some(Key::ArrowUp)
    } else if s.len() == 9 && s[0] == 'A' && s[1] == 'r' && s[2] == 'r' && s[3] == 'o' && s[4] == 'w' && s[5] == 'D' && s[6] == 'o' && s[7] == 'w' && s[8] == 'n' {
        Some(Key::ArrowDown)
    } else if s.len() == 9 && s[0] == 'A' && s[1] == 'r' && s[2] == 'r' && s[3] == 'o' && s[4] == 'w' && s[5] == 'L' && s[6] == 'e' && s[7] == 'f' && s[8] == 't' {
        Some(Key::ArrowLeft)
    } else if s.len() == 10 && s[0] == 'A' && s[1] == 'r' && s[2] == 'r' && s[3] == 'o' && s[4] == 'w' && s[5] == 'R' && s[6] == 'i' && s[7] == 'g' && s[8] == 'h' && s[9] == 't' {
        Some(Key::ArrowRight)
    } else {
        None
    }
}

/// Every key's name decodes back to that key.
pub proof fn lemma_key_name_decodes(k: Key)
    ensures
        key_of_name(key_name(k)) == Some(k),
{
    match k {
        Key::A => assert(key_of_name(key_name(Key::A)) == Some(Key::A)),
        Key::B => assert(key_of_name(key_name(Key::B)) == Some(Key::B)),
        Key::C => assert(key_of_name(key_name(Key::C)) == Some(Key::C)),
        Key::D => assert(key_of_name(key_name(Key::D)) == Some(Key::D)),
        Key::E => assert(key_of_name(key_name(Key::E)) == Some(Key::E)),
        Key::F => assert(key_of_name(key_name(Key::F)) == Some(Key::F)),
        Key::G => assert(key_of_name(key_name(Key::G)) == Some(Key::G)),
        Key::H => assert(key_of_name(key_name(Key::H)) == Some(Key::H)),
        Key::I => assert(key_of_name(key_name(Key::I)) == Some(Key::I)),
        Key::J => assert(key_of_name(key_name(Key::J)) == Some(Key::J)),
        Key::K => assert(key_of_name(key_name(Key::K)) == Some(Key::K)),
        Key::L => assert(key_of_name(key_name(Key::L)) == Some(Key::L)),
        Key::M => assert(key_of_name(key_name(Key::M)) == Some(Key::M)),
        Key::N => assert(key_of_name(key_name(Key::N)) == Some(Key::N)),
        Key::O => assert(key_of_name(key_name(Key::O)) == Some(Key::O)),
        Key::P => assert(key_of_name(key_name(Key::P)) == Some(Key::P)),
        Key::Q => assert(key_of_name(key_name(Key::Q)) == Some(Key::Q)),
        Key::R => assert(key_of_name(key_name(Key::R)) == Some(Key::R)),
        Key::S => assert(key_of_name(key_name(Key::S)) == Some(Key::S)),
        Key::T => assert(key_of_name(key_name(Key::T)) == Some(Key::T)),
        Key::U => assert(key_of_name(key_name(Key::U)) == Some(Key::U)),
        Key::V => assert(key_of_name(key_name(Key::V)) == Some(Key::V)),
        Key::W => assert(key_of_name(key_name(Key::W)) == Some(Key::W)),
        Key::X => assert(key_of_name(key_name(Key::X)) == Some(Key::X)),
        Key::Y => assert(key_of_name(key_name(Key::Y)) == Some(Key::Y)),
        Key::Z => assert(key_of_name(key_name(Key::Z)) == Some(Key::Z)),
        Key::Digit0 => assert(key_of_name(key_name(Key::Digit0)) == Some(Key::Digit0)),
        Key::Digit1 => assert(key_of_name(key_name(Key::Digit1)) == Some(Key::Digit1)),
        Key::Digit2 => assert(key_of_name(key_name(Key::Digit2)) == Some(Key::Digit2)),
        Key::Digit3 => assert(key_of_name(key_name(Key::Digit3)) == Some(Key::Digit3)),
        Key::Digit4 => assert(key_of_name(key_name(Key::Digit4)) == Some(Key::Digit4)),
        Key::Digit5 => assert(key_of_name(key_name(Key::Digit5)) == Some(Key::Digit5)),
        Key::Digit6 => assert(key_of_name(key_name(Key::Digit6)) == Some(Key::Digit6)),
        Key::Digit7 => assert(key_of_name(key_name(Key::Digit7)) == Some(Key::Digit7)),
        Key::Digit8 => assert(key_of_name(key_name(Key::Digit8)) == Some(Key::Digit8)),
        Key::Digit9 => assert(key_of_name(key_name(Key::Digit9)) == Some(Key::Digit9)),
        Key::F1 => assert(key_of_name(key_name(Key::F1)) == Some(Key::F1)),
        Key::F2 => assert(key_of_name(key_name(Key::F2)) == Some(Key::F2)),
        Key::F3 => assert(key_of_name(key_name(Key::F3)) == Some(Key::F3)),
        Key::F4 => assert(key_of_name(key_name(Key::F4)) == Some(Key::F4)),
        Key::F5 => assert(key_of_name(key_name(Key::F5)) == Some(Key::F5)),
        Key::F6 => assert(key_of_name(key_name(Key::F6)) == Some(Key::F6)),
        Key::F7 => assert(key_of_name(key_name(Key::F7)) == Some(Key::F7)),
        Key::F8 => assert(key_of_name(key_name(Key::F8)) == Some(Key::F8)),
        Key::F9 => assert(key_of_name(key_name(Key::F9)) == Some(Key::F9)),
        Key::F10 => assert(key_of_name(key_name(Key::F10)) == Some(Key::F10)),
        Key::F11 => assert(key_of_name(key_name(Key::F11)) == Some(Key::F11)),
        Key::F12 => assert(key_of_name(key_name(Key::F12)) == Some(Key::F12)),
        Key::F13 => assert(key_of_name(key_name(Key::F13)) == Some(Key::F13)),
        Key::F14 => assert(key_of_name(key_name(Key::F14)) == Some(Key::F14)),
        Key::F15 => assert(key_of_name(key_name(Key::F15)) == Some(Key::F15)),
        Key::F16 => assert(key_of_name(key_name(Key::F16)) == Some(Key::F16)),
        Key::F17 => assert(key_of_name(key_name(Key::F17)) == Some(Key::F17)),
        Key::F18 => assert(key_of_name(key_name(Key::F18)) == Some(Key::F18)),
        Key::F19 => assert(key_of_name(key_name(Key::F19)) == Some(Key::F19)),
        Key::F20 => assert(key_of_name(key_name(Key::F20)) == Some(Key::F20)),
        Key::F21 => assert(key_of_name(key_name(Key::F21)) == Some(Key::F21)),
        Key::F22 => assert(key_of_name(key_name(Key::F22)) == Some(Key::F22)),
        Key::F23 => assert(key_of_name(key_name(Key::F23)) == Some(Key::F23)),
        Key::F24 => assert(key_of_name(key_name(Key::F24)) == Some(Key::F24)),
        Key::Space => assert(key_of_name(key_name(Key::Space)) == Some(Key::Space)),
        Key::Enter => assert(key_of_name(key_name(Key::Enter)) == Some(Key::Enter)),
        Key::Escape => assert(key_of_name(key_name(Key::Escape)) == Some(Key::Escape)),
        Key::Tab => assert(key_of_name(key_name(Key::Tab)) == Some(Key::Tab)),
        Key::Backspace => assert(key_of_name(key_name(Key::Backspace)) == Some(Key::Backspace)),
        Key::Delete => assert(key_of_name(key_name(Key::Delete)) == Some(Key::Delete)),
        Key::Insert => assert(key_of_name(key_name(Key::Insert)) == Some(Key::Insert)),
        Key::Home => assert(key_of_name(key_name(Key::Home)) == Some(Key::Home)),
        Key::End => assert(key_of_name(key_name(Key::End)) == Some(Key::End)),
        Key::PageUp => assert(key_of_name(key_name(Key::PageUp)) == Some(Key::PageUp)),
        Key::PageDown => assert(key_of_name(key_name(Key::PageDown)) == Some(Key::PageDown)),
        Key::ArrowUp => assert(key_of_name(key_name(Key::ArrowUp)) == Some(Key::ArrowUp)),
        Key::ArrowDown => assert(key_of_name(key_name(Key::ArrowDown)) == Some(Key::ArrowDown)),
        Key::ArrowLeft => assert(key_of_name(key_name(Key::ArrowLeft)) == Some(Key::ArrowLeft)),
        Key::ArrowRight => assert(key_of_name(key_name(Key::ArrowRight)) == Some(Key::ArrowRight)),
    }
}

/// Distinct keys have distinct names.
pub proof fn lemma_key_name_injective(a: Key, b: Key)
    requires
        key_name(a) == key_name(b),
    ensures
        a == b,
{
    lemma_key_name_decodes(a);
    lemma_key_name_decodes(b);
}

impl Key {
    /// The key's name.
    pub fn as_str(&self) -> (r: &'static str)
        ensures
            r@ == key_name(*self),
    {
        match self {
            Key::A => {
                proof {
                    reveal_strlit("A");
                }
                "A"
            },
            Key::B => {
                proof {
                    reveal_strlit("B");
                }
                "B"
            },
            Key::C => {
                proof {
                    reveal_strlit("C");
                }
                "C"
            },
            Key::D => {
                proof {
                    reveal_strlit("D");
                }
                "D"
            },
            Key::E => {
                proof {
                    reveal_strlit("E");
                }
                "E"
            },
            Key::F => {
                proof {
                    reveal_strlit("F");
                }
                "F"
            },
            Key::G => {
                proof {
                    reveal_strlit("G");
                }
                "G"
            },
            Key::H => {
                proof {
                    reveal_strlit("H");
                }
                "H"
            },
            Key::I => {
                proof {
                    reveal_strlit("I");
                }
                "I"
            },
            Key::J => {
                proof {
                    reveal_strlit("J");
                }
                "J"
            },
            Key::K => {
                proof {
                    reveal_strlit("K");
                }
                "K"
            },
            Key::L => {
                proof {
                    reveal_strlit("L");
                }
                "L"
            },
            Key::M => {
                proof {
                    reveal_strlit("M");
                }
                "M"
            },
            Key::N => {
                proof {
                    reveal_strlit("N");
                }
                "N"
            },
            Key::O => {
                proof {
                    reveal_strlit("O");
                }
                "O"
            },
            Key::P => {
                proof {
                    reveal_strlit("P");
                }
                "P"
            },
            Key::Q => {
                proof {
                    reveal_strlit("Q");
                }
                "Q"
            },
            Key::R => {
                proof {
                    reveal_strlit("R");
                }
                "R"
            },
            Key::S => {
                proof {
                    reveal_strlit("S");
                }
                "S"
            },
            Key::T => {
                proof {
                    reveal_strlit("T");
                }
                "T"
            },
            Key::U => {
                proof {
                    reveal_strlit("U");
                }
                "U"
            },
            Key::V => {
                proof {
                    reveal_strlit("V");
                }
                "V"
            },
            Key::W => {
                proof {
                    reveal_strlit("W");
                }
                "W"
            },
            Key::X => {
                proof {
                    reveal_strlit("X");
                }
                "X"
            },
            Key::Y => {
                proof {
                    reveal_strlit("Y");
                }
                "Y"
            },
            Key::Z => {
                proof {
                    reveal_strlit("Z");
                }
                "Z"
            },
            Key::Digit0 => {
                proof {
                    reveal_strlit("0");
                }
                "0"
            },
            Key::Digit1 => {
                proof {
                    reveal_strlit("1");
                }
                "1"
            },
            Key::Digit2 => {
                proof {
                    reveal_strlit("2");
                }
                "2"
            },
            Key::Digit3 => {
                proof {
                    reveal_strlit("3");
                }
                "3"
            },
            Key::Digit4 => {
                proof {
                    reveal_strlit("4");
                }
                "4"
            },
            Key::Digit5 => {
                proof {
                    reveal_strlit("5");
                }
                "5"
            },
            Key::Digit6 => {
                proof {
                    reveal_strlit("6");
                }
                "6"
            },
            Key::Digit7 => {
                proof {
                    reveal_strlit("7");
                }
                "7"
            },
            Key::Digit8 => {
                proof {
                    reveal_strlit("8");
                }
                "8"
            },
            Key::Digit9 => {
                proof {
                    reveal_strlit("9");
                }
                "9"
            },
            Key::F1 => {
                proof {
                    reveal_strlit("F1");
                }
                "F1"
            },
            Key::F2 => {
                proof {
                    reveal_strlit("F2");
                }
                "F2"
            },
            Key::F3 => {
                proof {
                    reveal_strlit("F3");
                }
                "F3"
            },
            Key::F4 => {
                proof {
                    reveal_strlit("F4");
                }
                "F4"
            },
            Key::F5 => {
                proof {
                    reveal_strlit("F5");
                }
                "F5"
            },
            Key::F6 => {
                proof {
                    reveal_strlit("F6");
                }
                "F6"
            },
            Key::F7 => {
                proof {
                    reveal_strlit("F7");
                }
                "F7"
            },
            Key::F8 => {
                proof {
                    reveal_strlit("F8");
                }
                "F8"
            },
            Key::F9 => {
                proof {
                    reveal_strlit("F9");
                }
                "F9"
            },
            Key::F10 => {
                proof {
                    reveal_strlit("F10");
                }
                "F10"
            },
            Key::F11 => {
                proof {
                    reveal_strlit("F11");
                }
                "F11"
            },
            Key::F12 => {
                proof {
                    reveal_strlit("F12");
                }
                "F12"
            },
            Key::F13 => {
                proof {
                    reveal_strlit("F13");
                }
                "F13"
            },
            Key::F14 => {
                proof {
                    reveal_strlit("F14");
                }
                "F14"
            },
            Key::F15 => {
                proof {
                    reveal_strlit("F15");
                }
                "F15"
            },
            Key::F16 => {
                proof {
                    reveal_strlit("F16");
                }
                "F16"
            },
            Key::F17 => {
                proof {
                    reveal_strlit("F17");
                }
                "F17"
            },
            Key::F18 => {
                proof {
                    reveal_strlit("F18");
                }
                "F18"
            },
            Key::F19 => {
                proof {
                    reveal_strlit("F19");
                }
                "F19"
            },
            Key::F20 => {
                proof {
                    reveal_strlit("F20");
                }
                "F20"
            },
            Key::F21 => {
                proof {
                    reveal_strlit("F21");
                }
                "F21"
            },
            Key::F22 => {
                proof {
                    reveal_strlit("F22");
                }
                "F22"
            },
            Key::F23 => {
                proof {
                    reveal_strlit("F23");
                }
                "F23"
            },
            Key::F24 => {
                proof {
                    reveal_strlit("F24");
                }
                "F24"
            },
            Key::Space => {
                proof {
                    reveal_strlit("Space");
                }
                "Space"
            },
            Key::Enter => {
                proof {
                    reveal_strlit("Enter");
                }
                "Enter"
            },
            Key::Escape => {
                proof {
                    reveal_strlit("Escape");
                }
                "Escape"
            },
            Key::Tab => {
                proof {
                    reveal_strlit("Tab");
                }
                "Tab"
            },
            Key::Backspace => {
                proof {
                    reveal_strlit("Backspace");
                }
                "Backspace"
            },
            Key::Delete => {
                proof {
                    reveal_strlit("Delete");
                }
                "Delete"
            },
            Key::Insert => {
                proof {
                    reveal_strlit("Insert");
                }
                "Insert"
            },
            Key::Home => {
                proof {
                    reveal_strlit("Home");
                }
                "Home"
            },
            Key::End => {
                proof {
                    reveal_strlit("End");
                }
                "End"
            },
            Key::PageUp => {
                proof {
                    reveal_strlit("PageUp");
                }
                "PageUp"
            },
            Key::PageDown => {
                proof {
                    reveal_strlit("PageDown");
                }
                "PageDown"
            },
            Key::ArrowUp => {
                proof {
                    reveal_strlit("ArrowUp");
                }
                "ArrowUp"
            },
            Key::ArrowDown => {
                proof {
                    reveal_strlit("ArrowDown");
                }
                "ArrowDown"
            },
            Key::ArrowLeft => {
                proof {
                    reveal_strlit("ArrowLeft");
                }
                "ArrowLeft"
            },
            Key::ArrowRight => {
                proof {
                    reveal_strlit("ArrowRight");
                }
                "ArrowRight"
            },
        }
    }

    /// The key named `name`, if any.
    pub fn from_name(name: &str) -> (r: Option<Key>)
        ensures
            match r {
                Some(k) => key_name(k) == name@,
                None => forall|k: Key| key_name(k) != name@,
            },
    {
        if text_eq(name, Key::A.as_str()) {
            return Some(Key::A);
        }
        if text_eq(name, Key::B.as_str()) {
            return Some(Key::B);
        }
        if text_eq(name, Key::C.as_str()) {
            return Some(Key::C);
        }
        if text_eq(name, Key::D.as_str()) {
            return Some(Key::D);
        }
        if text_eq(name, Key::E.as_str()) {
            return Some(Key::E);
        }
        if text_eq(name, Key::F.as_str()) {
            return Some(Key::F);
        }
        if text_eq(name, Key::G.as_str()) {
            return Some(Key::G);
        }
        if text_eq(name, Key::H.as_str()) {
            return Some(Key::H);
        }
        if text_eq(name, Key::I.as_str()) {
            return Some(Key::I);
        }
        if text_eq(name, Key::J.as_str()) {
            return Some(Key::J);
        }
        if text_eq(name, Key::K.as_str()) {
            return Some(Key::K);
        }
        if text_eq(name, Key::L.as_str()) {
            return Some(Key::L);
        }
        if text_eq(name, Key::M.as_str()) {
            return Some(Key::M);
        }
        if text_eq(name, Key::N.as_str()) {
            return Some(Key::N);
        }
        if text_eq(name, Key::O.as_str()) {
            return Some(Key::O);
        }
        if text_eq(name, Key::P.as_str()) {
            return Some(Key::P);
        }
        if text_eq(name, Key::Q.as_str()) {
            return Some(Key::Q);
        }
        if text_eq(name, Key::R.as_str()) {
            return Some(Key::R);
        }
        if text_eq(name, Key::S.as_str()) {
            return Some(Key::S);
        }
        if text_eq(name, Key::T.as_str()) {
            return Some(Key::T);
        }
        if text_eq(name, Key::U.as_str()) {
            return Some(Key::U);
        }
        if text_eq(name, Key::V.as_str()) {
            return Some(Key::V);
        }
        if text_eq(name, Key::W.as_str()) {
            return Some(Key::W);
        }
        if text_eq(name, Key::X.as_str()) {
            return Some(Key::X);
        }
        if text_eq(name, Key::Y.as_str()) {
            return Some(Key::Y);
        }
        if text_eq(name, Key::Z.as_str()) {
            return Some(Key::Z);
        }
        if text_eq(name, Key::Digit0.as_str()) {
            return Some(Key::Digit0);
        }
        if text_eq(name, Key::Digit1.as_str()) {
            return Some(Key::Digit1);
        }
        if text_eq(name, Key::Digit2.as_str()) {
            return Some(Key::Digit2);
        }
        if text_eq(name, Key::Digit3.as_str()) {
            return Some(Key::Digit3);
        }
        if text_eq(name, Key::Digit4.as_str()) {
            return Some(Key::Digit4);
        }
        if text_eq(name, Key::Digit5.as_str()) {
            return Some(Key::Digit5);
        }
        if text_eq(name, Key::Digit6.as_str()) {
            return Some(Key::Digit6);
        }
        if text_eq(name, Key::Digit7.as_str()) {
            return Some(Key::Digit7);
        }
        if text_eq(name, Key::Digit8.as_str()) {
            return Some(Key::Digit8);
        }
        if text_eq(name, Key::Digit9.as_str()) {
            return Some(Key::Digit9);
        }
        if text_eq(name, Key::F1.as_str()) {
            return Some(Key::F1);
        }
        if text_eq(name, Key::F2.as_str()) {
            return Some(Key::F2);
        }
        if text_eq(name, Key::F3.as_str()) {
            return Some(Key::F3);
        }
        if text_eq(name, Key::F4.as_str()) {
            return Some(Key::F4);
        }
        if text_eq(name, Key::F5.as_str()) {
            return Some(Key::F5);
        }
        if text_eq(name, Key::F6.as_str()) {
            return Some(Key::F6);
        }
        if text_eq(name, Key::F7.as_str()) {
            return Some(Key::F7);
        }
        if text_eq(name, Key::F8.as_str()) {
            return Some(Key::F8);
        }
        if text_eq(name, Key::F9.as_str()) {
            return Some(Key::F9);
        }
        if text_eq(name, Key::F10.as_str()) {
            return Some(Key::F10);
        }
        if text_eq(name, Key::F11.as_str()) {
            return Some(Key::F11);
        }
        if text_eq(name, Key::F12.as_str()) {
            return Some(Key::F12);
        }
        if text_eq(name, Key::F13.as_str()) {
            return Some(Key::F13);
        }
        if text_eq(name, Key::F14.as_str()) {
            return Some(Key::F14);
        }
        if text_eq(name, Key::F15.as_str()) {
            return Some(Key::F15);
        }
        if text_eq(name, Key::F16.as_str()) {
            return Some(Key::F16);
        }
        if text_eq(name, Key::F17.as_str()) {
            return Some(Key::F17);
        }
        if text_eq(name, Key::F18.as_str()) {
            return Some(Key::F18);
        }
        if text_eq(name, Key::F19.as_str()) {
            return Some(Key::F19);
        }
        if text_eq(name, Key::F20.as_str()) {
            return Some(Key::F20);
        }
        if text_eq(name, Key::F21.as_str()) {
            return Some(Key::F21);
        }
        if text_eq(name, Key::F22.as_str()) {
            return Some(Key::F22);
        }
        if text_eq(name, Key::F23.as_str()) {
            return Some(Key::F23);
        }
        if text_eq(name, Key::F24.as_str()) {
            return Some(Key::F24);
        }
        if text_eq(name, Key::Space.as_str()) {
            return Some(Key::Space);
        }
        if text_eq(name, Key::Enter.as_str()) {
            return Some(Key::Enter);
        }
        if text_eq(name, Key::Escape.as_str()) {
            return Some(Key::Escape);
        }
        if text_eq(name, Key::Tab.as_str()) {
            return Some(Key::Tab);
        }
        if text_eq(name, Key::Backspace.as_str()) {
            return Some(Key::Backspace);
        }
        if text_eq(name, Key::Delete.as_str()) {
            return Some(Key::Delete);
        }
        if text_eq(name, Key::Insert.as_str()) {
            return Some(Key::Insert);
        }
        if text_eq(name, Key::Home.as_str()) {
            return Some(Key::Home);
        }
        if text_eq(name, Key::End.as_str()) {
            return Some(Key::End);
        }
        if text_eq(name, Key::PageUp.as_str()) {
            return Some(Key::PageUp);
        }
        if text_eq(name, Key::PageDown.as_str()) {
            return Some(Key::PageDown);
        }
        if text_eq(name, Key::ArrowUp.as_str()) {
            return Some(Key::ArrowUp);
        }
        if text_eq(name, Key::ArrowDown.as_str()) {
            return Some(Key::ArrowDown);
        }
        if text_eq(name, Key::ArrowLeft.as_str()) {
            return Some(Key::ArrowLeft);
        }
        if text_eq(name, Key::ArrowRight.as_str()) {
            return Some(Key::ArrowRight);
        }
        None
    }
}

/// Looking a key up by its own name finds that key: every name decodes back
/// to its key, and no two keys share a name.
pub proof fn law_key_name_round_trip(k: Key)
    ensures
        key_of_name(key_name(k)) == Some(k),
        forall|f: Key| #[trigger] key_name(f) == key_name(k) ==> f == k,
{
    lemma_key_name_decodes(k);
    assert forall|f: Key| #[trigger] key_name(f) == key_name(k) implies f == k by {
        lemma_key_name_injective(f, k);
    }
}

/// Each key is named as ArkTS spells it: a letter key by its letter, a
/// digit key by its digit, a function key by `F` and its number, and every
/// other key by its own name.
pub proof fn law_keys_are_named_as_spelled()
    ensures
        key_name(Key::A) == "A"@,
        key_name(Key::B) == "B"@,
        key_name(Key::C) == "C"@,
        key_name(Key::D) == "D"@,
        key_name(Key::E) == "E"@,
        key_name(Key::F) == "F"@,
        key_name(Key::G) == "G"@,
        key_name(Key::H) == "H"@,
        key_name(Key::I) == "I"@,
        key_name(Key::J) == "J"@,
        key_name(Key::K) == "K"@,
        key_name(Key::L) == "L"@,
        key_name(Key::M) == "M"@,
        key_name(Key::N) == "N"@,
        key_name(Key::O) == "O"@,
        key_name(Key::P) == "P"@,
        key_name(Key::Q) == "Q"@,
        key_name(Key::R) == "R"@,
        key_name(Key::S) == "S"@,
        key_name(Key::T) == "T"@,
        key_name(Key::U) == "U"@,
        key_name(Key::V) == "V"@,
        key_name(Key::W) == "W"@,
        key_name(Key::X) == "X"@,
        key_name(Key::Y) == "Y"@,
        key_name(Key::Z) == "Z"@,
        key_name(Key::Digit0) == "0"@,
        key_name(Key::Digit1) == "1"@,
        key_name(Key::Digit2) == "2"@,
        key_name(Key::Digit3) == "3"@,
        key_name(Key::Digit4) == "4"@,
        key_name(Key::Digit5) == "5"@,
        key_name(Key::Digit6) == "6"@,
        key_name(Key::Digit7) == "7"@,
        key_name(Key::Digit8) == "8"@,
        key_name(Key::Digit9) == "9"@,
        key_name(Key::F1) == "F1"@,
        key_name(Key::F2) == "F2"@,
        key_name(Key::F3) == "F3"@,
        key_name(Key::F4) == "F4"@,
        key_name(Key::F5) == "F5"@,
        key_name(Key::F6) == "F6"@,
        key_name(Key::F7) == "F7"@,
        key_name(Key::F8) == "F8"@,
        key_name(Key::F9) == "F9"@,
        key_name(Key::F10) == "F10"@,
        key_name(Key::F11) == "F11"@,
        key_name(Key::F12) == "F12"@,
        key_name(Key::F13) == "F13"@,
        key_name(Key::F14) == "F14"@,
        key_name(Key::F15) == "F15"@,
        key_name(Key::F16) == "F16"@,
        key_name(Key::F17) == "F17"@,
        key_name(Key::F18) == "F18"@,
        key_name(Key::F19) == "F19"@,
        key_name(Key::F20) == "F20"@,
        key_name(Key::F21) == "F21"@,
        key_name(Key::F22) == "F22"@,
        key_name(Key::F23) == "F23"@,
        key_name(Key::F24) == "F24"@,
        key_name(Key::Space) == "Space"@,
        key_name(Key::Enter) == "Enter"@,
        key_name(Key::Escape) == "Escape"@,
        key_name(Key::Tab) == "Tab"@,
        key_name(Key::Backspace) == "Backspace"@,
        key_name(Key::Delete) == "Delete"@,
        key_name(Key::Insert) == "Insert"@,
        key_name(Key::Home) == "Home"@,
        key_name(Key::End) == "End"@,
        key_name(Key::PageUp) == "PageUp"@,
        key_name(Key::PageDown) == "PageDown"@,
        key_name(Key::ArrowUp) == "ArrowUp"@,
        key_name(Key::ArrowDown) == "ArrowDown"@,
        key_name(Key::ArrowLeft) == "ArrowLeft"@,
        key_name(Key::ArrowRight) == "ArrowRight"@,
{
    reveal_strlit("A");
    reveal_strlit("B");
    reveal_strlit("C");
    reveal_strlit("D");
    reveal_strlit("E");
    reveal_strlit("F");
    reveal_strlit("G");
    reveal_strlit("H");
    reveal_strlit("I");
    reveal_strlit("J");
    reveal_strlit("K");
    reveal_strlit("L");
    reveal_strlit("M");
    reveal_strlit("N");
    reveal_strlit("O");
    reveal_strlit("P");
    reveal_strlit("Q");
    reveal_strlit("R");
    reveal_strlit("S");
    reveal_strlit("T");
    reveal_strlit("U");
    reveal_strlit("V");
    reveal_strlit("W");
    reveal_strlit("X");
    reveal_strlit("Y");
    reveal_strlit("Z");
    reveal_strlit("0");
    reveal_strlit("1");
    reveal_strlit("2");
    reveal_strlit("3");
    reveal_strlit("4");
    reveal_strlit("5");
    reveal_strlit("6");
    reveal_strlit("7");
    reveal_strlit("8");
    reveal_strlit("9");
    reveal_strlit("F1");
    reveal_strlit("F2");
    reveal_strlit("F3");
    reveal_strlit("F4");
    reveal_strlit("F5");
    reveal_strlit("F6");
    reveal_strlit("F7");
    reveal_strlit("F8");
    reveal_strlit("F9");
    reveal_strlit("F10");
    reveal_strlit("F11");
    reveal_strlit("F12");
    reveal_strlit("F13");
    reveal_strlit("F14");
    reveal_strlit("F15");
    reveal_strlit("F16");
    reveal_strlit("F17");
    reveal_strlit("F18");
    reveal_strlit("F19");
    reveal_strlit("F20");
    reveal_strlit("F21");
    reveal_strlit("F22");
    reveal_strlit("F23");
    reveal_strlit("F24");
    reveal_strlit("Space");
    reveal_strlit("Enter");
    reveal_strlit("Escape");
    reveal_strlit("Tab");
    reveal_strlit("Backspace");
    reveal_strlit("Delete");
    reveal_strlit("Insert");
    reveal_strlit("Home");
    reveal_strlit("End");
    reveal_strlit("PageUp");
    reveal_strlit("PageDown");
    reveal_strlit("ArrowUp");
    reveal_strlit("ArrowDown");
    reveal_strlit("ArrowLeft");
    reveal_strlit("ArrowRight");
}

/// Whether a shortcut was pressed or released.
#[derive(Debug, Clone, Copy, PartialEq, Eq, Structural)]
pub enum ShortcutState {
    Pressed,
    Released,
}

/// A triggered global shortcut.
#[derive(Debug, Clone, Copy, PartialEq, Eq, Structural)]
pub struct ShortcutEvent {
    pub id: u32,
    pub state: ShortcutState,
}

/// A request to the native hotkey service.
#[derive(Debug, Clone, Copy, PartialEq, Eq, Structural)]
pub enum ShortcutRequest {
    Register {
        id: u32,
        /// First modifier key code (0 = unused).
        pre_key1: u32,
        /// Second modifier key code (0 = unused).
        pre_key2: u32,
        /// Main key code.
        final_key: u32,
    },
    Unregister { id: u32 },
}

/// The state named by the ArkTS side: `"Released"` releases, and every other
/// name (including an unknown one) counts as a press.
pub open spec fn state_of_name(s: Seq<char>) -> ShortcutState {
    if s == seq!['R', 'e', 'l', 'e', 'a', 's', 'e', 'd'] {
        ShortcutState::Released
    } else {
        ShortcutState::Pressed
    }
}

/// Parses the state name reported with a triggered shortcut.
pub fn parse_shortcut_state(state: &str) -> (r: ShortcutState)
    ensures
        r == state_of_name(state@),
{
    proof {
        reveal_strlit("Released");
        assert("Released"@ =~= seq!['R', 'e', 'l', 'e', 'a', 's', 'e', 'd']);
    }
    if text_eq(state, "Released") {
        ShortcutState::Released
    } else {
        ShortcutState::Pressed
    }
}

/// The event for a shortcut reported by ArkTS with its state name.
pub fn shortcut_event(id: u32, state: &str) -> (r: ShortcutEvent)
    ensures
        r == (ShortcutEvent { id, state: state_of_name(state@) }),
{
    ShortcutEvent { id, state: parse_shortcut_state(state) }
}

/// Capacity of the shortcut event queue.
pub const SHORTCUT_QUEUE_CAPACITY: usize = 256;

/// A bounded FIFO channel of shortcut events (crossbeam `bounded`), holding
/// both of its ends.
#[verifier::external_body]
pub struct ShortcutChannel {
    ends: (crossbeam_channel::Sender<ShortcutEvent>, crossbeam_channel::Receiver<ShortcutEvent>),
}

/// The events waiting in the channel, oldest first.
pub uninterp spec fn queued_shortcut_events(ch: ShortcutChannel) -> Seq<ShortcutEvent>;

/// The capacity the channel was made with.
pub uninterp spec fn shortcut_channel_capacity(ch: ShortcutChannel) -> nat;

/// `crossbeam_channel::bounded(cap)`: an empty channel of capacity `cap`
/// (`cap > 0`, an array-backed channel).
#[verifier::external_body]
fn bounded_shortcut_channel(cap: usize) -> (r: ShortcutChannel)
    requires
        0 < cap <= 1048576,
    ensures
        queued_shortcut_events(r) == Seq::<ShortcutEvent>::empty(),
        shortcut_channel_capacity(r) == cap,
{
    ShortcutChannel { ends: crossbeam_channel::bounded(cap) }
}

/// `Sender::try_send`: with the receiver alive, the event is appended when
/// the channel holds fewer than its capacity, and refused (`Full`) otherwise.
#[verifier::external_body]
fn channel_try_send(ch: &mut ShortcutChannel, event: ShortcutEvent) -> (sent: bool)
    ensures
        shortcut_channel_capacity(*final(ch)) == shortcut_channel_capacity(*old(ch)),
        sent == (queued_shortcut_events(*old(ch)).len() < shortcut_channel_capacity(*old(ch))),
        sent ==> queued_shortcut_events(*final(ch)) == queued_shortcut_events(*old(ch)).push(event),
        !sent ==> queued_shortcut_events(*final(ch)) == queued_shortcut_events(*old(ch)),
{
    ch.ends.0.try_send(event).is_ok()
}

/// `Receiver::try_recv`: takes the oldest event, or `None` when the channel is empty.
#[verifier::external_body]
fn channel_try_recv(ch: &mut ShortcutChannel) -> (r: Option<ShortcutEvent>)
    ensures
        shortcut_channel_capacity(*final(ch)) == shortcut_channel_capacity(*old(ch)),
        queued_shortcut_events(*old(ch)).len() == 0 ==> r is None && queued_shortcut_events(
            *final(ch),
        ) == queued_shortcut_events(*old(ch)),
        queued_shortcut_events(*old(ch)).len() > 0 ==> r == Some(queued_shortcut_events(*old(ch))[0])
            && queued_shortcut_events(*final(ch)) == queued_shortcut_events(*old(ch)).drop_first(),
{
    ch.ends.1.try_recv().ok()
}

impl ShortcutChannel {
    /// An empty shortcut event queue of `SHORTCUT_QUEUE_CAPACITY` events.
    pub fn new() -> (r: ShortcutChannel)
        ensures
            queued_shortcut_events(r) == Seq::<ShortcutEvent>::empty(),
            shortcut_channel_capacity(r) == SHORTCUT_QUEUE_CAPACITY,
    {
        bounded_shortcut_channel(SHORTCUT_QUEUE_CAPACITY)
    }

    /// Takes the oldest queued event.
    pub fn next_event(&mut self) -> (r: Option<ShortcutEvent>)
        ensures
            shortcut_channel_capacity(*final(self)) == shortcut_channel_capacity(*old(self)),
            queued_shortcut_events(*old(self)).len() == 0 ==> r is None && queued_shortcut_events(
                *final(self),
            ) == queued_shortcut_events(*old(self)),
            queued_shortcut_events(*old(self)).len() > 0 ==> r == Some(
                queued_shortcut_events(*old(self))[0],
            ) && queued_shortcut_events(*final(self)) == queued_shortcut_events(
                *old(self),
            ).drop_first(),
    {
        channel_try_recv(self)
    }
}

/// Queues a shortcut event for the app; when the queue is full the event is
/// dropped. Returns whether it was queued.
pub fn emit_event(channel: &mut ShortcutChannel, event: ShortcutEvent) -> (queued: bool)
    ensures
        shortcut_channel_capacity(*final(channel)) == shortcut_channel_capacity(*old(channel)),
        queued == (queued_shortcut_events(*old(channel)).len() < shortcut_channel_capacity(
            *old(channel),
        )),
        queued_shortcut_events(*final(channel)) == (if queued {
            queued_shortcut_events(*old(channel)).push(event)
        } else {
            queued_shortcut_events(*old(channel))
        }),
{
    channel_try_send(channel, event)
}

/// Queues the shortcut ArkTS reported, with its state name parsed.
pub fn emit_shortcut_event(channel: &mut ShortcutChannel, id: u32, state: &str) -> (queued: bool)
    ensures
        shortcut_channel_capacity(*final(channel)) == shortcut_channel_capacity(*old(channel)),
        queued == (queued_shortcut_events(*old(channel)).len() < shortcut_channel_capacity(
            *old(channel),
        )),
        queued_shortcut_events(*final(channel)) == (if queued {
            queued_shortcut_events(*old(channel)).push(ShortcutEvent { id, state: state_of_name(state@) })
        } else {
            queued_shortcut_events(*old(channel))
        }),
{
    let event = shortcut_event(id, state);
    emit_event(channel, event)
}

// ─── The global-shortcut bridge plugin ───

/// Most modifiers the OS hotkey service accepts.
pub const MAX_MODIFIERS: usize = 2;

/// First SDK API level with global hotkeys; below it every operation is a no-op.
pub const MIN_HOTKEY_API_VERSION: i32 = 14;

pub struct GlobalShortcutBridgePlugin;

impl BridgePlugin for GlobalShortcutBridgePlugin {
    const ID: &'static str = "ohos.global-shortcut";

    open spec fn spec_required_contexts() -> Seq<BridgeContextRequirement> {
        seq![BridgeContextRequirement::Ability]
    }

    fn required_contexts() -> (r: &'static [BridgeContextRequirement]) {
        let r: &'static [BridgeContextRequirement] = &[BridgeContextRequirement::Ability];
        r
    }
}

#[derive(Clone, Debug)]
pub struct ShortcutRegisterRequest {
    pub id: u32,
    pub modifiers: Vec<String>,
    pub key: String,
}

impl BridgeNapiType for ShortcutRegisterRequest {
    const TYPE_NAME: &'static str = "ohos.global-shortcut.RegisterRequest";
}

#[derive(Clone, Copy, Debug)]
pub struct ShortcutUnregisterRequest {
    pub id: u32,
}

impl BridgeNapiType for ShortcutUnregisterRequest {
    const TYPE_NAME: &'static str = "ohos.global-shortcut.UnregisterRequest";
}

#[derive(Clone, Copy, Debug)]
pub struct ShortcutUnregisterAllRequest {}

impl BridgeNapiType for ShortcutUnregisterAllRequest {
    const TYPE_NAME: &'static str = "ohos.global-shortcut.UnregisterAllRequest";
}

#[derive(Clone, Copy, Debug)]
pub struct ShortcutAcknowledgement {
    pub accepted: bool,
}

impl BridgeNapiType for ShortcutAcknowledgement {
    const TYPE_NAME: &'static str = "ohos.global-shortcut.Acknowledgement";
}

impl ShortcutAcknowledgement {
    /// `Ok` when the plugin accepted the operation.
    pub fn ensure(self) -> (r: Result<(), BridgeError>)
        ensures
            outcome(r) == accepted_or(
                self.accepted,
                "Global shortcut plugin rejected the requested operation"@,
            ),
    {
        ensure_accepted(self.accepted, "Global shortcut plugin rejected the requested operation")
    }
}

#[derive(Clone, Debug)]
pub struct ShortcutTriggeredEvent {
    pub id: u32,
    pub state: String,
}

impl BridgeNapiType for ShortcutTriggeredEvent {
    const TYPE_NAME: &'static str = "ohos.global-shortcut.TriggeredEvent";
}

/// The texts of a list of strings.
pub open spec fn texts(v: Seq<String>) -> Seq<Seq<char>> {
    v.map_values(|s: String| s@)
}

/// The list with each run of equal neighbours collapsed to one element
/// (`Vec::dedup`).
pub open spec fn dedup_runs(s: Seq<Seq<char>>) -> Seq<Seq<char>>
    decreases s.len(),
{
    if s.len() <= 1 {
        s
    } else {
        let rest = dedup_runs(s.drop_last());
        if s.last() == s[s.len() - 2] {
            rest
        } else {
            rest.push(s.last())
        }
    }
}

/// The modifiers sent with a registration: one or two, neighbouring
/// duplicates collapsed.
pub open spec fn modifier_check(modifiers: Seq<Seq<char>>) -> Result<Seq<Seq<char>>, Seq<char>> {
    if modifiers.len() == 0 {
        Err("At least 1 modifier key is required"@)
    } else if modifiers.len() > MAX_MODIFIERS {
        Err("OHOS supports at most 2 modifier keys"@)
    } else {
        Ok(dedup_runs(modifiers))
    }
}

pub open spec fn strings_result(r: Result<Vec<String>, BridgeError>) -> Result<Seq<Seq<char>>, Seq<char>> {
    match r {
        Ok(v) => Ok(texts(v@)),
        Err(e) => Err(e.reason@),
    }
}

/// Checks the modifier list of a registration and collapses neighbouring
/// duplicates.
pub fn validate_and_dedup_modifiers(modifiers: &Vec<String>) -> (r: Result<Vec<String>, BridgeError>)
    ensures
        strings_result(r) == modifier_check(texts(modifiers@)),
{
    if modifiers.len() == 0 {
        return Err(BridgeError::from_reason("At least 1 modifier key is required"));
    }
    if modifiers.len() > MAX_MODIFIERS {
        return Err(BridgeError::from_reason("OHOS supports at most 2 modifier keys"));
    }
    let ghost all = texts(modifiers@);
    let mut unique: Vec<String> = Vec::new();
    unique.push(modifiers[0].clone());
    let mut i: usize = 1;
    assert(all.take(1) =~= seq![all[0]]);
    assert(texts(unique@) =~= dedup_runs(all.take(1)));
    while i < modifiers.len()
        invariant
            1 <= i <= modifiers@.len(),
            all == texts(modifiers@),
            texts(unique@) == dedup_runs(all.take(i as int)),
        decreases modifiers.len() - i,
    {
        let same = text_eq(modifiers[i].as_str(), modifiers[i - 1].as_str());
        proof {
            let t = all.take(i + 1);
            assert(t.drop_last() =~= all.take(i as int));
            assert(t.last() == all[i as int]);
            assert(t[t.len() - 2] == all[i - 1]);
        }
        if !same {
            unique.push(modifiers[i].clone());
            assert(texts(unique@) =~= dedup_runs(all.take(i as int)).push(all[i as int]));
        }
        i += 1;
    }
    assert(all.take(i as int) =~= all);
    Ok(unique)
}

/// Whether the system has global hotkeys; below the hotkey API level every
/// shortcut operation succeeds without doing anything.
pub fn hotkeys_supported(sdk_api_version: i32) -> (r: bool)
    ensures
        r == (sdk_api_version >= MIN_HOTKEY_API_VERSION),
{
    sdk_api_version >= MIN_HOTKEY_API_VERSION
}

/// The registration request to send, `None` when the system has no global
/// hotkeys (the registration then succeeds as a no-op), or the error of an
/// invalid modifier list.
pub fn register_request(sdk_api_version: i32, id: u32, modifiers: &Vec<String>, key: &str) -> (r:
    Result<Option<ShortcutRegisterRequest>, BridgeError>)
    ensures
        sdk_api_version < MIN_HOTKEY_API_VERSION ==> r matches Ok(None),
        sdk_api_version >= MIN_HOTKEY_API_VERSION ==> match modifier_check(texts(modifiers@)) {
            Ok(deduped) => (r matches Ok(Some(req)) && req.id == id && texts(req.modifiers@)
                == deduped && req.key@ == key@),
            Err(reason) => (r matches Err(e) && e.reason@ == reason),
        },
{
    if !hotkeys_supported(sdk_api_version) {
        return Ok(None);
    }
    match validate_and_dedup_modifiers(modifiers) {
        Ok(deduped) => Ok(Some(ShortcutRegisterRequest { id, modifiers: deduped, key: key.to_owned() })),
        Err(e) => Err(e),
    }
}

/// A valid modifier list (one or two) never comes back with neighbouring
/// duplicates, and two distinct modifiers come back unchanged.
pub proof fn law_dedup_has_no_neighbour_duplicates(modifiers: Seq<Seq<char>>)
    requires
        1 <= modifiers.len() <= MAX_MODIFIERS,
    ensures
        modifier_check(modifiers) is Ok,
        modifiers.len() == 2 && modifiers[0] != modifiers[1] ==> modifier_check(modifiers)
            == Ok::<Seq<Seq<char>>, Seq<char>>(modifiers),
        modifiers.len() == 2 && modifiers[0] == modifiers[1] ==> modifier_check(modifiers)
            == Ok::<Seq<Seq<char>>, Seq<char>>(seq![modifiers[0]]),
{
    reveal_with_fuel(dedup_runs, 2);
    if modifiers.len() == 2 {
        assert(modifiers.drop_last() =~= seq![modifiers[0]]);
        if modifiers[0] != modifiers[1] {
            assert(seq![modifiers[0]].push(modifiers[1]) =~= modifiers);
        }
    }
}

/// Answers a main-thread event of the global-shortcut plugin: a triggered
/// shortcut is handed back to be forwarded to the app's shortcut receiver
/// (and acknowledged with `true`); any other event is refused.
pub fn shortcut_main_thread_event(name: &str, event: ShortcutTriggeredEvent) -> (r: Result<ShortcutTriggeredEvent, BridgeError>)
    ensures
        name@ == "on-shortcut-triggered"@ ==> r == Ok::<ShortcutTriggeredEvent, BridgeError>(event),
        name@ != "on-shortcut-triggered"@ ==> (r matches Err(e)
            && e.reason@ == crate::bridge::unsupported_event_reason("ohos.global-shortcut"@, name@)),
{
    if text_eq(name, "on-shortcut-triggered") {
        Ok(event)
    } else {
        Err(crate::bridge::unsupported_event(GlobalShortcutBridgePlugin::ID, name))
    }
}

} // verus!
