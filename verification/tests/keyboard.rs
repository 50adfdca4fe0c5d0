use rustbox::keyboard::{KEY_ARROW_RIGHT, KEY_F1, KEY_SPACE};
use rustbox::{ExtendedKey, Key, Modifiers};

fn plain(key: Key) -> Option<ExtendedKey> {
    Some(ExtendedKey::new(key, Modifiers::new()))
}

fn with_ctrl(c: char) -> Option<ExtendedKey> {
    Some(ExtendedKey::new(Key::Char(c), Modifiers::new_all(true, false, false)))
}

#[test]
fn modifiers_new_holds_nothing() {
    let m = Modifiers::new();
    assert!(!m.ctrl_down());
    assert!(!m.shift_down());
    assert!(!m.alt_down());
    assert_eq!(m, Modifiers { ctrl: false, shift: false, alt: false });
}

#[test]
fn modifiers_new_all_keeps_each_flag() {
    let m = Modifiers::new_all(true, false, true);
    assert!(m.ctrl_down());
    assert!(!m.shift_down());
    assert!(m.alt_down());
    let n = Modifiers::new_all(false, true, false);
    assert!(!n.ctrl_down());
    assert!(n.shift_down());
    assert!(!n.alt_down());
}

#[test]
fn extended_key_new_has_zero_raw_fields() {
    let k = ExtendedKey::new(Key::Home, Modifiers::new_all(false, false, true));
    assert_eq!(k.key, Key::Home);
    assert_eq!(k.modifiers, Modifiers { ctrl: false, shift: false, alt: true });
    assert_eq!(k.raw_emod, 0);
    assert_eq!(k.raw_ch, 0);
    assert_eq!(k.raw_key, 0);
}

#[test]
fn from_code_control_letters() {
    let letters = "abcdefghijklmnopqrstuvwxyz";
    for (i, c) in letters.chars().enumerate() {
        let code: u16 = i as u16 + 1;
        let got = ExtendedKey::from_code(code);
        match c {
            'g' => assert_eq!(got, None),
            'h' => assert_eq!(got, plain(Key::Backspace)),
            'i' => assert_eq!(got, plain(Key::Tab)),
            'm' => assert_eq!(got, plain(Key::Enter)),
            _ => assert_eq!(got, with_ctrl(c)),
        }
    }
}

#[test]
fn from_code_control_punctuation() {
    assert_eq!(ExtendedKey::from_code(0x1b), plain(Key::Esc));
    assert_eq!(ExtendedKey::from_code(0x1c), with_ctrl('\\'));
    assert_eq!(ExtendedKey::from_code(0x1d), with_ctrl(']'));
    assert_eq!(ExtendedKey::from_code(0x1e), with_ctrl('6'));
    assert_eq!(ExtendedKey::from_code(0x20), plain(Key::Char(' ')));
}

#[test]
fn from_code_shared_code_decodes_one_way() {
    // Ctrl+7, Ctrl+/ and Ctrl+_ arrive as one code.
    assert_eq!(ExtendedKey::from_code(0x1f), with_ctrl('7'));
    assert_eq!(ExtendedKey::from_code(0x1f), ExtendedKey::from_code(0x1f));
}

#[test]
fn from_code_function_keys() {
    for n in 1u32..=12 {
        let code: u16 = 0xffff - (n as u16 - 1);
        assert_eq!(ExtendedKey::from_code(code), plain(Key::F(n)));
    }
}

#[test]
fn from_code_navigation_keys() {
    assert_eq!(ExtendedKey::from_code(0xffff - 12), plain(Key::Insert));
    assert_eq!(ExtendedKey::from_code(0xffff - 13), plain(Key::Delete));
    assert_eq!(ExtendedKey::from_code(0xffff - 14), plain(Key::Home));
    assert_eq!(ExtendedKey::from_code(0xffff - 15), plain(Key::End));
    assert_eq!(ExtendedKey::from_code(0xffff - 16), plain(Key::PageUp));
    assert_eq!(ExtendedKey::from_code(0xffff - 17), plain(Key::PageDown));
    assert_eq!(ExtendedKey::from_code(0xffff - 18), plain(Key::Up));
    assert_eq!(ExtendedKey::from_code(0xffff - 19), plain(Key::Down));
    assert_eq!(ExtendedKey::from_code(0xffff - 20), plain(Key::Left));
    assert_eq!(ExtendedKey::from_code(0xffff - 21), plain(Key::Right));
}

#[test]
fn from_code_unknown_codes_give_none() {
    assert_eq!(ExtendedKey::from_code(0x00), None);
    assert_eq!(ExtendedKey::from_code(0x07), None);
    assert_eq!(ExtendedKey::from_code(0x21), None);
    assert_eq!(ExtendedKey::from_code(0x7f), None);
    assert_eq!(ExtendedKey::from_code(0x100), None);
    assert_eq!(ExtendedKey::from_code(0xffff - 22), None);
    assert_eq!(ExtendedKey::from_code(0x8000), None);
}

#[test]
fn from_code_is_some_exactly_on_the_table() {
    for code in 0u16..=0xffff {
        let defined = (0x01 <= code && code <= KEY_SPACE && code != 0x07)
            || (KEY_ARROW_RIGHT <= code && code <= KEY_F1);
        assert_eq!(ExtendedKey::from_code(code).is_some(), defined, "code {}", code);
    }
}

#[test]
fn from_code_leaves_raw_fields_zero() {
    let k = ExtendedKey::from_code(0x01).unwrap();
    assert_eq!(k.raw_emod, 0);
    assert_eq!(k.raw_ch, 0);
    assert_eq!(k.raw_key, 0);
}
