use rustbox::{Color, Style};

#[test]
fn sixteen_colour_codes() {
    assert_eq!(Color::Default.as_16color(), 0x00);
    assert_eq!(Color::Black.as_16color(), 0x10);
    assert_eq!(Color::Red.as_16color(), 0x01);
    assert_eq!(Color::Green.as_16color(), 0x02);
    assert_eq!(Color::Yellow.as_16color(), 0x03);
    assert_eq!(Color::Blue.as_16color(), 0x04);
    assert_eq!(Color::Magenta.as_16color(), 0x05);
    assert_eq!(Color::Cyan.as_16color(), 0x06);
    assert_eq!(Color::White.as_16color(), 0x0F);
}

#[test]
fn palette_codes() {
    assert_eq!(Color::Black.as_256color(), 0x00);
    assert_eq!(Color::Red.as_256color(), 0x01);
    assert_eq!(Color::Green.as_256color(), 0x02);
    assert_eq!(Color::Yellow.as_256color(), 0x03);
    assert_eq!(Color::Blue.as_256color(), 0x04);
    assert_eq!(Color::Magenta.as_256color(), 0x05);
    assert_eq!(Color::Cyan.as_256color(), 0x06);
    assert_eq!(Color::White.as_256color(), 0x07);
    assert_eq!(Color::Byte(0).as_256color(), 0);
    assert_eq!(Color::Byte(200).as_256color(), 200);
    assert_eq!(Color::Byte(0xffff).as_256color(), 0xffff);
}

#[test]
fn named_colours_are_the_first_eight_palette_entries() {
    let named = [
        Color::Black,
        Color::Red,
        Color::Green,
        Color::Yellow,
        Color::Blue,
        Color::Magenta,
        Color::Cyan,
        Color::White,
    ];
    for (i, a) in named.iter().enumerate() {
        assert_eq!(a.as_256color(), i as u16);
        assert!(a.as_256color() < 8);
        for (j, b) in named.iter().enumerate() {
            assert_eq!(a.as_256color() == b.as_256color(), i == j);
        }
    }
}

#[test]
fn default_colour_is_black() {
    assert_eq!(Color::default(), Color::Black);
}

#[test]
fn flag_words() {
    assert_eq!(Style::normal().bits(), 0x0000);
    assert_eq!(Style::bold().bits(), 0x0100);
    assert_eq!(Style::underline().bits(), 0x0400);
    assert_eq!(Style::reverse().bits(), 0x0800);
    assert_eq!(Style::attrib().bits(), 0x0D00);
    assert_eq!(Style::normal_color().bits(), 0x000F);
    assert_eq!(
        (Style::bold() | Style::underline() | Style::reverse()).bits(),
        Style::attrib().bits()
    );
}

#[test]
fn white_with_bold() {
    let s = Style::from_color(Color::White) | Style::bold();
    assert_eq!(s.bits(), 0x010F);
    assert_eq!(s.bits() & 0x000F, Color::White.as_16color());
    assert!(s.contains(Style::bold()));
    assert!(!s.contains(Style::underline()));
    assert_eq!((s & Style::normal_color()).bits(), Color::White.as_16color());
    assert_eq!((s & Style::attrib()).bits(), 0x0100);
}

#[test]
fn from_color_cuts_to_the_colour_bits() {
    assert_eq!(Style::from_color(Color::Black).bits(), 0x00);
    assert_eq!(Style::from_color(Color::Default).bits(), 0x00);
    assert_eq!(Style::from_color(Color::Red).bits(), 0x01);
    assert_eq!(Style::from_color(Color::Cyan).bits(), 0x06);
    assert_eq!(Style::from_color(Color::White).bits(), 0x0F);
}

#[test]
fn from_256color_keeps_the_code_whole() {
    assert_eq!(Style::from_256color(Color::Black).bits(), 0x00);
    assert_eq!(Style::from_256color(Color::White).bits(), 0x07);
    assert_eq!(Style::from_256color(Color::Byte(200)).bits(), 200);
    assert_eq!(Style::from_256color(Color::Byte(0x1234)).bits(), 0x1234);
}

#[test]
fn union_is_commutative_and_idempotent() {
    let all = [
        Style::normal(),
        Style::bold(),
        Style::underline(),
        Style::reverse(),
        Style::from_color(Color::Green),
        Style::from_256color(Color::Byte(0xabcd)),
    ];
    for a in all {
        assert_eq!(a | a, a);
        for b in all {
            assert_eq!(a | b, b | a);
            assert_eq!((a | b) | b, a | b);
            assert_eq!((a | b).bits(), a.bits() | b.bits());
            assert_eq!((a & b).bits(), a.bits() & b.bits());
        }
    }
}

#[test]
fn contains_asks_for_every_bit() {
    let s = Style::bold() | Style::reverse();
    assert!(s.contains(Style::bold()));
    assert!(s.contains(Style::reverse()));
    assert!(s.contains(Style::normal()));
    assert!(!s.contains(Style::attrib()));
    assert!(Style::attrib().contains(s));
}
