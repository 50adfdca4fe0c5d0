//! Colours, and the attribute word that the backend takes for a cell.

use vstd::prelude::*;

verus! {

/// A colour asked for a cell. `Byte` is an index into the 256-colour
/// palette and has no 16-colour code; `Default` is the terminal's own colour
/// and has no 256-colour code.
#[derive(Clone, Copy, PartialEq, Eq, Debug, Structural)]
pub enum Color {
    Black,
    Red,
    Green,
    Yellow,
    Blue,
    Magenta,
    Cyan,
    White,
    Byte(u16),
    Default,
}

impl Color {
    /// The colour's code in 256-colour mode: the eight named colours are
    /// the first eight entries of the palette, in their order. `Default`
    /// has none: the value given for it here is never handed out.
    pub open spec fn code_256(self) -> u16 {
        match self {
            Color::Black => 0x00,
            Color::Red => 0x01,
            Color::Green => 0x02,
            Color::Yellow => 0x03,
            Color::Blue => 0x04,
            Color::Magenta => 0x05,
            Color::Cyan => 0x06,
            Color::White => 0x07,
            Color::Byte(b) => b,
            Color::Default => 0x00,
        }
    }

    /// The colour's code in 16-colour mode. `Byte` has none: the value given
    /// for it here is never handed out.
    pub open spec fn code_16(self) -> u16 {
        match self {
            Color::Default => 0x00,
            Color::Black => 0x10,
            Color::Red => 0x01,
            Color::Green => 0x02,
            Color::Yellow => 0x03,
            Color::Blue => 0x04,
            Color::Magenta => 0x05,
            Color::Cyan => 0x06,
            Color::White => 0x0F,
            Color::Byte(_) => 0x00,
        }
    }

    pub fn as_256color(&self) -> (r: u16)
        requires
            !(*self is Default),
        ensures
            r == self.code_256(),
    {
        match *self {
            Color::Black => 0x00,
            Color::Red => 0x01,
            Color::Green => 0x02,
            Color::Yellow => 0x03,
            Color::Blue => 0x04,
            Color::Magenta => 0x05,
            Color::Cyan => 0x06,
            Color::White => 0x07,
            Color::Byte(b) => b,
            Color::Default => 0x00,
        }
    }

    pub fn as_16color(&self) -> (r: u16)
        requires
            !(*self is Byte),
        ensures
            r == self.code_16(),
    {
        match *self {
            Color::Default => 0x00,
            Color::Black => 0x10,
            Color::Red => 0x01,
            Color::Green => 0x02,
            Color::Yellow => 0x03,
            Color::Blue => 0x04,
            Color::Magenta => 0x05,
            Color::Cyan => 0x06,
            Color::White => 0x0F,
            Color::Byte(_) => 0x00,
        }
    }
}

impl Default for Color {
    fn default() -> (r: Color)
        ensures
            r == Color::Black,
    {
        Color::Black
    }
}

/// The attribute word of a cell: colour bits below, flag bits above.
#[derive(Clone, Copy, PartialEq, Eq, Hash, Debug, Structural)]
pub struct Style(u16);

/// The bits that hold a 16-colour code.
pub const NORMAL_COLOR_BITS: u16 = 0x000F;
pub const BOLD_BITS: u16 = 0x0100;
pub const UNDERLINE_BITS: u16 = 0x0400;
pub const REVERSE_BITS: u16 = 0x0800;
/// The three flag bits together.
pub const ATTRIB_BITS: u16 = 0x0D00;

impl Style {
    /// The word as a number: the model of a style.
    pub closed spec fn view(&self) -> u16 {
        self.0
    }

    /// The style whose word is `bits`.
    pub closed spec fn of_bits(bits: u16) -> Style {
        Style(bits)
    }

    /// The style with every bit that either of the two has.
    pub open spec fn union(self, other: Style) -> Style {
        Style::of_bits(self@ | other@)
    }

    /// The style with the bits that both have.
    pub open spec fn intersection(self, other: Style) -> Style {
        Style::of_bits(self@ & other@)
    }

    /// The style of a colour in 16-colour mode: its code, cut to the colour
    /// bits.
    pub open spec fn for_color(color: Color) -> Style {
        Style::of_bits(color.code_16() & NORMAL_COLOR_BITS)
    }

    /// The style of a colour in 256-colour mode: its code, whole.
    pub open spec fn for_256color(color: Color) -> Style {
        Style::of_bits(color.code_256())
    }

    /// The flag bits of the word, the colour bits cleared.
    pub open spec fn flags(&self) -> u16 {
        self@ & ATTRIB_BITS
    }

    /// The 16-colour bits of the word.
    pub open spec fn color_bits(&self) -> u16 {
        self@ & NORMAL_COLOR_BITS
    }

    /// No flag and no colour.
    pub fn normal() -> (r: Style)
        ensures
            r@ == 0,
            r == Style::of_bits(0),
    {
        Style(0)
    }

    pub fn bold() -> (r: Style)
        ensures
            r@ == BOLD_BITS,
            r == Style::of_bits(BOLD_BITS),
    {
        Style(BOLD_BITS)
    }

    pub fn underline() -> (r: Style)
        ensures
            r@ == UNDERLINE_BITS,
            r == Style::of_bits(UNDERLINE_BITS),
    {
        Style(UNDERLINE_BITS)
    }

    pub fn reverse() -> (r: Style)
        ensures
            r@ == REVERSE_BITS,
            r == Style::of_bits(REVERSE_BITS),
    {
        Style(REVERSE_BITS)
    }

    /// The three flags together: the mask that cuts a style to its flags.
    pub fn attrib() -> (r: Style)
        ensures
            r@ == ATTRIB_BITS,
            r == Style::of_bits(ATTRIB_BITS),
    {
        Style(ATTRIB_BITS)
    }

    /// The mask that cuts a style to its 16-colour bits.
    pub fn normal_color() -> (r: Style)
        ensures
            r@ == NORMAL_COLOR_BITS,
            r == Style::of_bits(NORMAL_COLOR_BITS),
    {
        Style(NORMAL_COLOR_BITS)
    }

    pub fn bits(&self) -> (r: u16)
        ensures
            r == self@,
    {
        self.0
    }

    pub fn from_color(color: Color) -> (r: Style)
        requires
            !(color is Byte),
        ensures
            r == Self::for_color(color),
            r@ == color.code_16() & NORMAL_COLOR_BITS,
    {
        Style(color.as_16color() & NORMAL_COLOR_BITS)
    }

    pub fn from_256color(color: Color) -> (r: Style)
        requires
            !(color is Default),
        ensures
            r == Self::for_256color(color),
            r@ == color.code_256(),
    {
        Style(color.as_256color())
    }

    /// Whether every bit of `other` is set in `self`.
    pub fn contains(&self, other: Style) -> (r: bool)
        ensures
            r == (self@ & other@ == other@),
    {
        self.0 & other.0 == other.0
    }
}

impl core::ops::BitOr for Style {
    type Output = Style;

    fn bitor(self, rhs: Style) -> (r: Style)
        ensures
            r == self.union(rhs),
            r@ == self@ | rhs@,
    {
        Style(self.0 | rhs.0)
    }
}

impl vstd::std_specs::ops::BitOrSpecImpl for Style {
    open spec fn obeys_bitor_spec() -> bool {
        true
    }

    open spec fn bitor_req(self, rhs: Style) -> bool {
        true
    }

    open spec fn bitor_spec(self, rhs: Style) -> Style {
        self.union(rhs)
    }
}

impl core::ops::BitAnd for Style {
    type Output = Style;

    fn bitand(self, rhs: Style) -> (r: Style)
        ensures
            r == self.intersection(rhs),
            r@ == self@ & rhs@,
    {
        Style(self.0 & rhs.0)
    }
}

impl vstd::std_specs::ops::BitAndSpecImpl for Style {
    open spec fn obeys_bitand_spec() -> bool {
        true
    }

    open spec fn bitand_req(self, rhs: Style) -> bool {
        true
    }

    open spec fn bitand_spec(self, rhs: Style) -> Style {
        self.intersection(rhs)
    }
}

/// The eight named colours take the first eight entries of the palette,
/// each its own, and a palette index stands for itself.
pub proof fn lemma_named_colors_head_the_palette(a: Color, b: Color)
    requires
        !(a is Default),
        !(b is Default),
    ensures
        !(a is Byte) ==> a.code_256() < 8,
        !(a is Byte) && !(b is Byte) && a.code_256() == b.code_256() ==> a == b,
        a matches Color::Byte(n) ==> a.code_256() == n,
{
}

/// Two styles with the same word are the same style, and the style made of
/// a word has that word.
pub proof fn lemma_style_is_its_word(a: Style, b: Style, bits: u16)
    ensures
        a@ == b@ ==> a == b,
        Style::of_bits(bits)@ == bits,
        Style::of_bits(a@) == a,
{
}

/// The mask of the flags is the three flag bits joined, and shares no bit
/// with the colour mask.
pub proof fn lemma_flag_mask()
    ensures
        ATTRIB_BITS == BOLD_BITS | UNDERLINE_BITS | REVERSE_BITS,
        ATTRIB_BITS & NORMAL_COLOR_BITS == 0,
{
    assert(0x0D00u16 == 0x0100u16 | 0x0400u16 | 0x0800u16) by (bit_vector);
    assert(0x0D00u16 & 0x000Fu16 == 0) by (bit_vector);
}

/// The union of two styles does not depend on their order.
pub proof fn lemma_union_commutative(a: Style, b: Style)
    ensures
        a.union(b) == b.union(a),
        a.union(b).flags() == b.union(a).flags(),
{
    let x = a@;
    let y = b@;
    assert(x | y == y | x) by (bit_vector);
}

/// The union of a style with itself is that style.
pub proof fn lemma_union_idempotent(a: Style)
    ensures
        a.union(a) == a,
        a.union(a).flags() == a.flags(),
{
    let x = a@;
    assert(x | x == x) by (bit_vector);
}

/// The flag bits of a union are the union of the flag bits, and so are the
/// colour bits.
pub proof fn lemma_union_by_parts(a: Style, b: Style)
    ensures
        a.union(b).flags() == a.flags() | b.flags(),
        a.union(b).color_bits() == a.color_bits() | b.color_bits(),
{
    let x = a@;
    let y = b@;
    assert((x | y) & 0x0D00u16 == (x & 0x0D00u16) | (y & 0x0D00u16)) by (bit_vector);
    assert((x | y) & 0x000Fu16 == (x & 0x000Fu16) | (y & 0x000Fu16)) by (bit_vector);
}

/// A 16-colour style joined with flags keeps the colour's bits and has
/// exactly the flags that were joined to it.
pub proof fn lemma_color_with_flags(color: Color, flags: Style)
    requires
        !(color is Byte),
        flags@ & ATTRIB_BITS == flags@,
    ensures
        Style::for_color(color).union(flags).color_bits() == color.code_16()
            & NORMAL_COLOR_BITS,
        Style::for_color(color).union(flags).flags() == flags@,
{
    let c = color.code_16();
    let f = flags@;
    assert(f & 0x0D00u16 == f ==> ((c & 0x000Fu16) | f) & 0x000Fu16 == c & 0x000Fu16)
        by (bit_vector);
    assert(f & 0x0D00u16 == f ==> ((c & 0x000Fu16) | f) & 0x0D00u16 == f) by (bit_vector);
}

} // verus!
