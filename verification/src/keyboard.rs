//! Keys, modifiers and the table from the backend's key codes to keys.

use vstd::prelude::*;

verus! {

/// Key code of the first function key; the codes of F2 to F12 follow it
/// downwards, one by one.
pub const KEY_F1: u16 = 0xffff;
pub const KEY_F12: u16 = 0xffff - 11;
pub const KEY_INSERT: u16 = 0xffff - 12;
pub const KEY_DELETE: u16 = 0xffff - 13;
pub const KEY_HOME: u16 = 0xffff - 14;
pub const KEY_END: u16 = 0xffff - 15;
pub const KEY_PGUP: u16 = 0xffff - 16;
pub const KEY_PGDN: u16 = 0xffff - 17;
pub const KEY_ARROW_UP: u16 = 0xffff - 18;
pub const KEY_ARROW_DOWN: u16 = 0xffff - 19;
pub const KEY_ARROW_LEFT: u16 = 0xffff - 20;
pub const KEY_ARROW_RIGHT: u16 = 0xffff - 21;

/// Key code of Ctrl+A; Ctrl+B to Ctrl+Z follow it upwards, one by one.
pub const KEY_CTRL_A: u16 = 0x01;
/// Ctrl+G: the one control letter that the table leaves undecoded.
pub const KEY_CTRL_G: u16 = 0x07;
/// Backspace; the backend sends the same code for Ctrl+H.
pub const KEY_BACKSPACE: u16 = 0x08;
/// Tab; the backend sends the same code for Ctrl+I.
pub const KEY_TAB: u16 = 0x09;
/// Enter; the backend sends the same code for Ctrl+M.
pub const KEY_ENTER: u16 = 0x0d;
pub const KEY_CTRL_Z: u16 = 0x1a;
/// Escape; the backend sends the same code for Ctrl+[ and Ctrl+3.
pub const KEY_ESC: u16 = 0x1b;
/// Ctrl+\; the backend sends the same code for Ctrl+4.
pub const KEY_CTRL_BACKSLASH: u16 = 0x1c;
/// Ctrl+]; the backend sends the same code for Ctrl+5.
pub const KEY_CTRL_RSQ_BRACKET: u16 = 0x1d;
pub const KEY_CTRL_6: u16 = 0x1e;
/// Ctrl+7; the backend sends the same code for Ctrl+/ and Ctrl+_, and the
/// table decodes all three as Ctrl+7.
pub const KEY_CTRL_7: u16 = 0x1f;
pub const KEY_SPACE: u16 = 0x20;

/// The modifier keys held down with a key. Shift is only ever inferred, from
/// an upper-case letter; for other keys it is not known.
#[derive(Clone, Copy, PartialEq, Eq, Hash, Debug, Structural)]
pub struct Modifiers {
    pub ctrl: bool,
    pub shift: bool,
    pub alt: bool,
}

impl Modifiers {
    /// No modifier held.
    pub fn new() -> (r: Self)
        ensures
            r == Self::none(),
    {
        Self { ctrl: false, shift: false, alt: false }
    }

    pub fn new_all(ctrl: bool, shift: bool, alt: bool) -> (r: Self)
        ensures
            r == (Modifiers { ctrl, shift, alt }),
    {
        Self { ctrl, shift, alt }
    }

    pub fn shift_down(&self) -> (r: bool)
        ensures
            r == self.shift,
    {
        self.shift
    }

    pub fn ctrl_down(&self) -> (r: bool)
        ensures
            r == self.ctrl,
    {
        self.ctrl
    }

    pub fn alt_down(&self) -> (r: bool)
        ensures
            r == self.alt,
    {
        self.alt
    }

    /// The state with no modifier held.
    pub open spec fn none() -> Self {
        Modifiers { ctrl: false, shift: false, alt: false }
    }

    /// The state with Ctrl held and nothing else.
    pub open spec fn only_ctrl() -> Self {
        Modifiers { ctrl: true, shift: false, alt: false }
    }

    /// The state with Shift held and nothing else.
    pub open spec fn only_shift() -> Self {
        Modifiers { ctrl: false, shift: true, alt: false }
    }
}

/// What a key press means, apart from the backend's codes.
#[derive(Clone, Copy, PartialEq, Eq, Hash, Debug, Structural)]
pub enum Key {
    Tab,
    Enter,
    Esc,
    Backspace,
    Right,
    Left,
    Up,
    Down,
    Delete,
    Insert,
    Home,
    End,
    PageUp,
    PageDown,
    Char(char),
    F(u32),
    Unknown(u16),
}

/// A decoded key press: the key, the modifiers, and the three fields of the
/// backend's event as they came.
#[derive(Clone, Copy, PartialEq, Eq, Hash, Debug, Structural)]
pub struct ExtendedKey {
    pub modifiers: Modifiers,
    pub key: Key,
    pub raw_emod: u8,
    pub raw_ch: u32,
    pub raw_key: u16,
}

/// Whether `code` is one of the control-letter codes that decode to a
/// letter: Ctrl+A to Ctrl+Z without Ctrl+G, and without the three codes that
/// Backspace, Tab and Enter share with Ctrl+H, Ctrl+I and Ctrl+M.
pub open spec fn is_ctrl_letter_code(code: u16) -> bool {
    &&& KEY_CTRL_A <= code <= KEY_CTRL_Z
    &&& code != KEY_CTRL_G
    &&& code != KEY_BACKSPACE
    &&& code != KEY_TAB
    &&& code != KEY_ENTER
}

/// Whether `code` is the code of a function key, F1 to F12.
pub open spec fn is_function_key_code(code: u16) -> bool {
    KEY_F12 <= code <= KEY_F1
}

/// The key and modifiers that a key code stands for, if the table holds it.
pub open spec fn key_of_code(code: u16) -> Option<(Key, Modifiers)> {
    if is_ctrl_letter_code(code) {
        Some((Key::Char((code + 0x60) as char), Modifiers::only_ctrl()))
    } else if is_function_key_code(code) {
        Some((Key::F((KEY_F1 - code + 1) as u32), Modifiers::none()))
    } else if code == KEY_BACKSPACE {
        Some((Key::Backspace, Modifiers::none()))
    } else if code == KEY_TAB {
        Some((Key::Tab, Modifiers::none()))
    } else if code == KEY_ENTER {
        Some((Key::Enter, Modifiers::none()))
    } else if code == KEY_ESC {
        Some((Key::Esc, Modifiers::none()))
    } else if code == KEY_CTRL_BACKSLASH {
        Some((Key::Char('\\'), Modifiers::only_ctrl()))
    } else if code == KEY_CTRL_RSQ_BRACKET {
        Some((Key::Char(']'), Modifiers::only_ctrl()))
    } else if code == KEY_CTRL_6 {
        Some((Key::Char('6'), Modifiers::only_ctrl()))
    } else if code == KEY_CTRL_7 {
        Some((Key::Char('7'), Modifiers::only_ctrl()))
    } else if code == KEY_SPACE {
        Some((Key::Char(' '), Modifiers::none()))
    } else if code == KEY_ARROW_RIGHT {
        Some((Key::Right, Modifiers::none()))
    } else if code == KEY_ARROW_LEFT {
        Some((Key::Left, Modifiers::none()))
    } else if code == KEY_ARROW_DOWN {
        Some((Key::Down, Modifiers::none()))
    } else if code == KEY_ARROW_UP {
        Some((Key::Up, Modifiers::none()))
    } else if code == KEY_INSERT {
        Some((Key::Insert, Modifiers::none()))
    } else if code == KEY_DELETE {
        Some((Key::Delete, Modifiers::none()))
    } else if code == KEY_HOME {
        Some((Key::Home, Modifiers::none()))
    } else if code == KEY_END {
        Some((Key::End, Modifiers::none()))
    } else if code == KEY_PGUP {
        Some((Key::PageUp, Modifiers::none()))
    } else if code == KEY_PGDN {
        Some((Key::PageDown, Modifiers::none()))
    } else {
        None
    }
}

/// Whether the table holds `code`.
pub open spec fn is_defined_code(code: u16) -> bool {
    ||| (KEY_CTRL_A <= code <= KEY_SPACE && code != KEY_CTRL_G)
    ||| KEY_ARROW_RIGHT <= code <= KEY_F1
}

impl ExtendedKey {
    /// The key press of `key` with `modifiers`, its raw fields zero.
    pub open spec fn fresh(key: Key, modifiers: Modifiers) -> Self {
        ExtendedKey { modifiers, key, raw_emod: 0, raw_ch: 0, raw_key: 0 }
    }

    /// What `from_code` returns for `code`.
    pub open spec fn decoded(code: u16) -> Option<ExtendedKey> {
        match key_of_code(code) {
            Some((key, modifiers)) => Some(Self::fresh(key, modifiers)),
            None => None,
        }
    }

    pub fn new(key: Key, modifiers: Modifiers) -> (r: Self)
        ensures
            r == Self::fresh(key, modifiers),
    {
        Self { key, modifiers, raw_emod: 0, raw_ch: 0, raw_key: 0 }
    }

    /// Looks a key code of the backend up in the table. Codes that the
    /// backend gives several names decode one way only.
    pub fn from_code(code: u16) -> (r: Option<ExtendedKey>)
        ensures
            r == Self::decoded(code),
            r is Some <==> is_defined_code(code),
    {
        let empty_modifiers = Modifiers::new();
        let ctrl = Modifiers::new_all(true, false, false);
        match code {
            0x01 => Some(ExtendedKey::new(Key::Char('a'), ctrl)),
            0x02 => Some(ExtendedKey::new(Key::Char('b'), ctrl)),
            0x03 => Some(ExtendedKey::new(Key::Char('c'), ctrl)),
            0x04 => Some(ExtendedKey::new(Key::Char('d'), ctrl)),
            0x05 => Some(ExtendedKey::new(Key::Char('e'), ctrl)),
            0x06 => Some(ExtendedKey::new(Key::Char('f'), ctrl)),
            KEY_BACKSPACE => Some(ExtendedKey::new(Key::Backspace, empty_modifiers)),
            KEY_TAB => Some(ExtendedKey::new(Key::Tab, empty_modifiers)),
            0x0a => Some(ExtendedKey::new(Key::Char('j'), ctrl)),
            0x0b => Some(ExtendedKey::new(Key::Char('k'), ctrl)),
            0x0c => Some(ExtendedKey::new(Key::Char('l'), ctrl)),
            KEY_ENTER => Some(ExtendedKey::new(Key::Enter, empty_modifiers)),
            0x0e => Some(ExtendedKey::new(Key::Char('n'), ctrl)),
            0x0f => Some(ExtendedKey::new(Key::Char('o'), ctrl)),
            0x10 => Some(ExtendedKey::new(Key::Char('p'), ctrl)),
            0x11 => Some(ExtendedKey::new(Key::Char('q'), ctrl)),
            0x12 => Some(ExtendedKey::new(Key::Char('r'), ctrl)),
            0x13 => Some(ExtendedKey::new(Key::Char('s'), ctrl)),
            0x14 => Some(ExtendedKey::new(Key::Char('t'), ctrl)),
            0x15 => Some(ExtendedKey::new(Key::Char('u'), ctrl)),
            0x16 => Some(ExtendedKey::new(Key::Char('v'), ctrl)),
            0x17 => Some(ExtendedKey::new(Key::Char('w'), ctrl)),
            0x18 => Some(ExtendedKey::new(Key::Char('x'), ctrl)),
            0x19 => Some(ExtendedKey::new(Key::Char('y'), ctrl)),
            0x1a => Some(ExtendedKey::new(Key::Char('z'), ctrl)),
            KEY_ESC => Some(ExtendedKey::new(Key::Esc, empty_modifiers)),
            KEY_CTRL_BACKSLASH => Some(ExtendedKey::new(Key::Char('\\'), ctrl)),
            KEY_CTRL_RSQ_BRACKET => Some(ExtendedKey::new(Key::Char(']'), ctrl)),
            KEY_CTRL_6 => Some(ExtendedKey::new(Key::Char('6'), ctrl)),
            KEY_CTRL_7 => Some(ExtendedKey::new(Key::Char('7'), ctrl)),
            KEY_SPACE => Some(ExtendedKey::new(Key::Char(' '), empty_modifiers)),
            KEY_ARROW_RIGHT => Some(ExtendedKey::new(Key::Right, empty_modifiers)),
            KEY_ARROW_LEFT => Some(ExtendedKey::new(Key::Left, empty_modifiers)),
            KEY_ARROW_DOWN => Some(ExtendedKey::new(Key::Down, empty_modifiers)),
            KEY_ARROW_UP => Some(ExtendedKey::new(Key::Up, empty_modifiers)),
            0xffff => Some(ExtendedKey::new(Key::F(1), empty_modifiers)),
            0xfffe => Some(ExtendedKey::new(Key::F(2), empty_modifiers)),
            0xfffd => Some(ExtendedKey::new(Key::F(3), empty_modifiers)),
            0xfffc => Some(ExtendedKey::new(Key::F(4), empty_modifiers)),
            0xfffb => Some(ExtendedKey::new(Key::F(5), empty_modifiers)),
            0xfffa => Some(ExtendedKey::new(Key::F(6), empty_modifiers)),
            0xfff9 => Some(ExtendedKey::new(Key::F(7), empty_modifiers)),
            0xfff8 => Some(ExtendedKey::new(Key::F(8), empty_modifiers)),
            0xfff7 => Some(ExtendedKey::new(Key::F(9), empty_modifiers)),
            0xfff6 => Some(ExtendedKey::new(Key::F(10), empty_modifiers)),
            0xfff5 => Some(ExtendedKey::new(Key::F(11), empty_modifiers)),
            0xfff4 => Some(ExtendedKey::new(Key::F(12), empty_modifiers)),
            KEY_INSERT => Some(ExtendedKey::new(Key::Insert, empty_modifiers)),
            KEY_DELETE => Some(ExtendedKey::new(Key::Delete, empty_modifiers)),
            KEY_HOME => Some(ExtendedKey::new(Key::Home, empty_modifiers)),
            KEY_END => Some(ExtendedKey::new(Key::End, empty_modifiers)),
            KEY_PGUP => Some(ExtendedKey::new(Key::PageUp, empty_modifiers)),
            KEY_PGDN => Some(ExtendedKey::new(Key::PageDown, empty_modifiers)),
            _ => None,
        }
    }
}

/// The table holds the defined codes and no others. A control-letter code
/// gives its lower-case letter with Ctrl alone, a function-key code gives
/// the function key of its number with no modifier, and no code gives Shift
/// or Alt.
pub proof fn lemma_table_covers_defined_codes(code: u16)
    ensures
        key_of_code(code) is Some <==> is_defined_code(code),
        ExtendedKey::decoded(code) is Some <==> is_defined_code(code),
        is_ctrl_letter_code(code) ==> (key_of_code(code) matches Some((Key::Char(c), m)) && 'a'
            <= c <= 'z' && c as u32 == code + 0x60 && m == Modifiers::only_ctrl()),
        is_function_key_code(code) ==> (key_of_code(code) matches Some((Key::F(n), m)) && 1 <= n
            <= 12 && n == KEY_F1 - code + 1 && m == Modifiers::none()),
        key_of_code(code) matches Some((k, m)) ==> !m.shift && !m.alt && (m.ctrl <==> (
        is_ctrl_letter_code(code) || KEY_CTRL_BACKSLASH <= code <= KEY_CTRL_7)),
{
}

} // verus!
