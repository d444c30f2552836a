use crate::raw::{tb_color, TB_BOLD, TB_REVERSE, TB_UNDERLINE};
use vstd::prelude::*;

verus! {

/// Foreground or background color of a cell.
#[derive(Clone, Copy, Debug, PartialEq, Eq, Structural)]
pub enum Color {
    Default,
    Black,
    Red,
    Green,
    Yellow,
    Blue,
    Magenta,
    Cyan,
    White,
}

/// Text style of a cell: any combination of bold, underline and reverse video.
#[derive(Clone, Copy, Debug, PartialEq, Eq, Structural)]
pub enum Style {
    Normal,
    Bold,
    Underline,
    BoldUnderline,
    Reverse,
    BoldReverse,
    UnderlineReverse,
    BoldUnderlineReverse,
}

/// A color together with a style.
#[derive(Clone, Copy, Debug, PartialEq, Eq, Structural)]
pub struct Attribute {
    pub color: Color,
    pub style: Style,
}

/// Ordinal of a color in the packed word: 0 for the default color, 1 to 8 otherwise.
pub open spec fn color_ordinal(c: Color) -> nat {
    match c {
        Color::Default => 0,
        Color::Black => 1,
        Color::Red => 2,
        Color::Green => 3,
        Color::Yellow => 4,
        Color::Blue => 5,
        Color::Magenta => 6,
        Color::Cyan => 7,
        Color::White => 8,
    }
}

/// Whether the style includes bold.
pub open spec fn is_bold(s: Style) -> bool {
    s is Bold || s is BoldUnderline || s is BoldReverse || s is BoldUnderlineReverse
}

/// Whether the style includes underline.
pub open spec fn is_underline(s: Style) -> bool {
    s is Underline || s is BoldUnderline || s is UnderlineReverse || s is BoldUnderlineReverse
}

/// Whether the style includes reverse video.
pub open spec fn is_reverse(s: Style) -> bool {
    s is Reverse || s is BoldReverse || s is UnderlineReverse || s is BoldUnderlineReverse
}

/// Style flags as a mask: bold 1, underline 2, reverse 4.
pub open spec fn style_mask(s: Style) -> nat {
    (if is_bold(s) { 1nat } else { 0nat }) + (if is_underline(s) { 2nat } else { 0nat }) + (
    if is_reverse(s) { 4nat } else { 0nat })
}

/// The 16-bit word of an attribute: the color ordinal in the low byte, the
/// style mask in the high byte.
pub open spec fn attr_word(a: Attribute) -> u16 {
    (color_ordinal(a.color) + 256 * style_mask(a.style)) as u16
}

/// The color ordinal of `c` as a word.
pub fn convert_color(c: Color) -> (r: u16)
    ensures
        r == color_ordinal(c),
{
    let ret = match c {
        Color::Default => tb_color::TB_DEFAULT,
        Color::Black => tb_color::TB_BLACK,
        Color::Red => tb_color::TB_RED,
        Color::Green => tb_color::TB_GREEN,
        Color::Yellow => tb_color::TB_YELLOW,
        Color::Blue => tb_color::TB_BLUE,
        Color::Magenta => tb_color::TB_MAGENTA,
        Color::Cyan => tb_color::TB_CYAN,
        Color::White => tb_color::TB_WHITE,
    };
    ret.code()
}

/// The style flags of `style`, shifted into the high byte.
///
/// Each style sets exactly the flags it names; `Reverse` sets the reverse
/// flag alone.
pub fn convert_style(style: Style) -> (r: u16)
    ensures
        r == 256 * style_mask(style),
{
    let r: u16 = match style {
        Style::Normal => 0,
        Style::Bold => TB_BOLD,
        Style::Underline => TB_UNDERLINE,
        Style::BoldUnderline => TB_BOLD | TB_UNDERLINE,
        Style::Reverse => TB_REVERSE,
        Style::BoldReverse => TB_BOLD | TB_REVERSE,
        Style::UnderlineReverse => TB_UNDERLINE | TB_REVERSE,
        Style::BoldUnderlineReverse => TB_BOLD | TB_UNDERLINE | TB_REVERSE,
    };
    assert(TB_BOLD | TB_UNDERLINE == 0x0300u16) by (bit_vector);
    assert(TB_BOLD | TB_REVERSE == 0x0500u16) by (bit_vector);
    assert(TB_UNDERLINE | TB_REVERSE == 0x0600u16) by (bit_vector);
    assert(TB_BOLD | TB_UNDERLINE | TB_REVERSE == 0x0700u16) by (bit_vector);
    r
}

proof fn lemma_or_disjoint_bytes(c: u16, s: u16)
    requires
        c < 256,
        s & 0xff == 0,
    ensures
        c | s == c + s,
{
    assert(c < 256 && s & 0xff == 0 ==> c | s == c + s) by (bit_vector);
}

/// Distinct attributes have distinct words: the encoding loses neither the
/// color nor the style, so the pair can be read back from the word.
pub proof fn lemma_attr_word_injective(a: Attribute, b: Attribute)
    ensures
        attr_word(a) == attr_word(b) ==> a == b,
{
    let ca = color_ordinal(a.color);
    let cb = color_ordinal(b.color);
    let ma = style_mask(a.style);
    let mb = style_mask(b.style);
    assert(ca <= 8 && cb <= 8 && ma <= 7 && mb <= 7);
    if attr_word(a) == attr_word(b) {
        assert(ca + 256 * ma == cb + 256 * mb);
        assert(ca == cb && ma == mb) by (nonlinear_arith)
            requires
                ca + 256 * ma == cb + 256 * mb,
                ca <= 8,
                cb <= 8,
        ;
    }
}

impl Attribute {
    /// The packed 16-bit word of this attribute.
    pub fn as_u16(&self) -> (r: u16)
        ensures
            r == attr_word(*self),
    {
        let c = convert_color(self.color);
        let s = convert_style(self.style);
        proof {
            let m = style_mask(self.style);
            assert(s & 0xff == 0) by {
                assert(s == 0 || s == 0x100 || s == 0x200 || s == 0x300 || s == 0x400 || s
                    == 0x500 || s == 0x600 || s == 0x700);
                assert(s == 0 || s == 0x100 || s == 0x200 || s == 0x300 || s == 0x400 || s
                    == 0x500 || s == 0x600 || s == 0x700 ==> s & 0xff == 0) by (bit_vector);
            }
            lemma_or_disjoint_bytes(c, s);
        }
        c | s
    }
}

} // verus!
