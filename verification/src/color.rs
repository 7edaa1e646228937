//! 24-bit RGB colors, as MXP writes them.
use vstd::prelude::*;

use crate::parse::decoder::{digit_of, digits_value, parse_u32, parse_u32_radix};
use crate::text::{chars_of, eq_ignore_case, push_char, str_eq_ignore_case};

verus! {

/// A 24-bit RGB color.
#[derive(Copy, Clone, Debug, PartialEq, Eq, Structural)]
pub struct RgbColor {
    /// Red channel.
    pub r: u8,
    /// Green channel.
    pub g: u8,
    /// Blue channel.
    pub b: u8,
}

/// The 24-bit code of a color, `0xRRGGBB`.
pub open spec fn color_code(c: RgbColor) -> int {
    c.r * 65536 + c.g * 256 + c.b
}

/// The color of a 24-bit code; bits above the 24th are ignored.
pub open spec fn color_of_code(code: int) -> RgbColor {
    RgbColor {
        r: ((code / 65536) % 256) as u8,
        g: ((code / 256) % 256) as u8,
        b: (code % 256) as u8,
    }
}

/// The code of one of the basic HTML color names, compared without regard to ASCII case.
pub open spec fn basic_color_code(name: Seq<char>) -> Option<int> {
    if eq_ignore_case(name, "black"@) {
        Some(0x000000)
    } else if eq_ignore_case(name, "silver"@) {
        Some(0xc0c0c0)
    } else if eq_ignore_case(name, "gray"@) || eq_ignore_case(name, "grey"@) {
        Some(0x808080)
    } else if eq_ignore_case(name, "white"@) {
        Some(0xffffff)
    } else if eq_ignore_case(name, "maroon"@) {
        Some(0x800000)
    } else if eq_ignore_case(name, "red"@) {
        Some(0xff0000)
    } else if eq_ignore_case(name, "purple"@) {
        Some(0x800080)
    } else if eq_ignore_case(name, "fuchsia"@) || eq_ignore_case(name, "magenta"@) {
        Some(0xff00ff)
    } else if eq_ignore_case(name, "green"@) {
        Some(0x008000)
    } else if eq_ignore_case(name, "lime"@) {
        Some(0x00ff00)
    } else if eq_ignore_case(name, "olive"@) {
        Some(0x808000)
    } else if eq_ignore_case(name, "yellow"@) {
        Some(0xffff00)
    } else if eq_ignore_case(name, "navy"@) {
        Some(0x000080)
    } else if eq_ignore_case(name, "blue"@) {
        Some(0x0000ff)
    } else if eq_ignore_case(name, "teal"@) {
        Some(0x008080)
    } else if eq_ignore_case(name, "aqua"@) || eq_ignore_case(name, "cyan"@) {
        Some(0x00ffff)
    } else {
        None
    }
}

/// The color that a name stands for: `#` and six hexadecimal digits, or a basic HTML color
/// name.
pub open spec fn named_color(name: Seq<char>) -> Option<RgbColor> {
    if name.len() == 7 && name[0] == '#' {
        if name[1] != '+' {
            match parse_u32_radix(name.subrange(1, 7), 16) {
                Some(v) => Some(color_of_code(v as int)),
                None => None,
            }
        } else {
            None
        }
    } else {
        match basic_color_code(name) {
            Some(v) => Some(color_of_code(v)),
            None => None,
        }
    }
}

/// A lower-case hexadecimal digit.
pub open spec fn hex_digit_char(d: int) -> char {
    if d < 10 {
        (('0' as int) + d) as char
    } else {
        (('a' as int) + d - 10) as char
    }
}

/// Two lower-case hexadecimal digits of a byte.
pub open spec fn hex_byte(x: u8) -> Seq<char> {
    seq![hex_digit_char((x / 16) as int), hex_digit_char((x % 16) as int)]
}

/// How a color is written: `#` and six lower-case hexadecimal digits.
pub open spec fn color_text(c: RgbColor) -> Seq<char> {
    seq!['#'] + hex_byte(c.r) + hex_byte(c.g) + hex_byte(c.b)
}

fn hex_digit(d: u8) -> (r: char)
    requires
        d < 16,
    ensures
        r == hex_digit_char(d as int),
{
    if d < 10 {
        ((48 + d) as char)
    } else {
        ((97 + d - 10) as char)
    }
}

fn basic_color(name: &str) -> (r: Option<u32>)
    ensures
        r matches Some(v) ==> basic_color_code(name@) == Some(v as int),
        r is None ==> basic_color_code(name@) is None,
{
    if str_eq_ignore_case(name, "black") {
        Some(0x000000)
    } else if str_eq_ignore_case(name, "silver") {
        Some(0xc0c0c0)
    } else if str_eq_ignore_case(name, "gray") || str_eq_ignore_case(name, "grey") {
        Some(0x808080)
    } else if str_eq_ignore_case(name, "white") {
        Some(0xffffff)
    } else if str_eq_ignore_case(name, "maroon") {
        Some(0x800000)
    } else if str_eq_ignore_case(name, "red") {
        Some(0xff0000)
    } else if str_eq_ignore_case(name, "purple") {
        Some(0x800080)
    } else if str_eq_ignore_case(name, "fuchsia") || str_eq_ignore_case(name, "magenta") {
        Some(0xff00ff)
    } else if str_eq_ignore_case(name, "green") {
        Some(0x008000)
    } else if str_eq_ignore_case(name, "lime") {
        Some(0x00ff00)
    } else if str_eq_ignore_case(name, "olive") {
        Some(0x808000)
    } else if str_eq_ignore_case(name, "yellow") {
        Some(0xffff00)
    } else if str_eq_ignore_case(name, "navy") {
        Some(0x000080)
    } else if str_eq_ignore_case(name, "blue") {
        Some(0x0000ff)
    } else if str_eq_ignore_case(name, "teal") {
        Some(0x008080)
    } else if str_eq_ignore_case(name, "aqua") || str_eq_ignore_case(name, "cyan") {
        Some(0x00ffff)
    } else {
        None
    }
}

impl RgbColor {
    /// The color of a code `0xRRGGBB`; bits above the 24th are ignored.
    pub fn hex(code: u32) -> (r: RgbColor)
        ensures
            r == color_of_code(code as int),
    {
        RgbColor {
            r: ((code / 65536) % 256) as u8,
            g: ((code / 256) % 256) as u8,
            b: (code % 256) as u8,
        }
    }

    /// The code `0xRRGGBB` of the color.
    pub fn code(&self) -> (r: u32)
        ensures
            r == color_code(*self),
    {
        (self.r as u32) * 65536 + (self.g as u32) * 256 + (self.b as u32)
    }

    /// Parses a color: `#` and six hexadecimal digits, or a basic HTML color name.
    pub fn named(name: &str) -> (r: Option<RgbColor>)
        ensures
            r == named_color(name@),
    {
        let cs = chars_of(name);
        if cs.len() == 7 && cs[0] == '#' {
            if cs[1] == '+' {
                return None;
            }
            let mut digits: Vec<char> = Vec::new();
            let mut i: usize = 1;
            while i < 7
                invariant
                    1 <= i <= 7,
                    cs@.len() == 7,
                    digits@ == cs@.subrange(1, i as int),
                decreases 7 - i,
            {
                digits.push(cs[i]);
                i += 1;
                assert(digits@ =~= cs@.subrange(1, i as int));
            }
            return match parse_u32(digits.as_slice(), 16) {
                Some(v) => Some(RgbColor::hex(v)),
                None => None,
            };
        }
        match basic_color(name) {
            Some(v) => Some(RgbColor::hex(v)),
            None => None,
        }
    }

    /// The color as MXP writes it: `#` and six lower-case hexadecimal digits.
    pub fn to_string(&self) -> (r: String)
        ensures
            r@ == color_text(*self),
    {
        let mut s = String::new();
        push_char(&mut s, '#');
        push_char(&mut s, hex_digit(self.r / 16));
        push_char(&mut s, hex_digit(self.r % 16));
        push_char(&mut s, hex_digit(self.g / 16));
        push_char(&mut s, hex_digit(self.g % 16));
        push_char(&mut s, hex_digit(self.b / 16));
        push_char(&mut s, hex_digit(self.b % 16));
        assert(s@ =~= color_text(*self));
        s
    }
}

/// A color's code gives the color back.
pub proof fn law_code_round_trip(c: RgbColor)
    ensures
        color_of_code(color_code(c)) == c,
{
    let code = color_code(c);
    assert(code / 65536 == c.r as int) by (nonlinear_arith)
        requires
            code == c.r * 65536 + c.g * 256 + c.b,
            0 <= c.r < 256,
            0 <= c.g < 256,
            0 <= c.b < 256,
    ;
    assert((code / 256) % 256 == c.g as int) by (nonlinear_arith)
        requires
            code == c.r * 65536 + c.g * 256 + c.b,
            0 <= c.r < 256,
            0 <= c.g < 256,
            0 <= c.b < 256,
    ;
    assert(code % 256 == c.b as int) by (nonlinear_arith)
        requires
            code == c.r * 65536 + c.g * 256 + c.b,
            0 <= c.r < 256,
            0 <= c.g < 256,
            0 <= c.b < 256,
    ;
}


proof fn lemma_hex_digit(d: int)
    requires
        0 <= d < 16,
    ensures
        digit_of(hex_digit_char(d), 16) == Some(d as nat),
        hex_digit_char(d) != '+',
{
    if d < 10 {
        assert(hex_digit_char(d) as int == ('0' as int) + d);
    } else {
        assert(hex_digit_char(d) as int == ('a' as int) + d - 10);
    }
}

/// Reading a color's written form gives the color back.
pub proof fn law_text_round_trip(c: RgbColor)
    ensures
        named_color(color_text(c)) == Some(c),
{
    let t = color_text(c);
    let (r, g, b) = (c.r as int, c.g as int, c.b as int);
    let ds = seq![r / 16, r % 16, g / 16, g % 16, b / 16, b % 16];
    assert forall|i: int| 0 <= i < 6 implies 0 <= #[trigger] ds[i] < 16 by {}
    let s = t.subrange(1, 7);
    assert(s =~= ds.map_values(|d: int| hex_digit_char(d)));
    lemma_hex_digit(r / 16);
    lemma_hex_digit(r % 16);
    lemma_hex_digit(g / 16);
    lemma_hex_digit(g % 16);
    lemma_hex_digit(b / 16);
    lemma_hex_digit(b % 16);
    assert(s.drop_last() =~= s.subrange(0, 5));
    assert(s.subrange(0, 5).drop_last() =~= s.subrange(0, 4));
    assert(s.subrange(0, 4).drop_last() =~= s.subrange(0, 3));
    assert(s.subrange(0, 3).drop_last() =~= s.subrange(0, 2));
    assert(s.subrange(0, 2).drop_last() =~= s.subrange(0, 1));
    assert(s.subrange(0, 1).drop_last() =~= Seq::<char>::empty());
    assert(s[0] == hex_digit_char(r / 16));
    assert(s[1] == hex_digit_char(r % 16));
    assert(s[2] == hex_digit_char(g / 16));
    assert(s[3] == hex_digit_char(g % 16));
    assert(s[4] == hex_digit_char(b / 16));
    assert(s[5] == hex_digit_char(b % 16));
    assert(s.subrange(0, 1).last() == s[0]);
    assert(s.subrange(0, 2).last() == s[1]);
    assert(s.subrange(0, 3).last() == s[2]);
    assert(s.subrange(0, 4).last() == s[3]);
    assert(s.subrange(0, 5).last() == s[4]);
    assert(digits_value(Seq::<char>::empty(), 16) == Some(0nat));
    let v1 = r / 16;
    let v2 = v1 * 16 + r % 16;
    let v3 = v2 * 16 + g / 16;
    let v4 = v3 * 16 + g % 16;
    let v5 = v4 * 16 + b / 16;
    let v6 = v5 * 16 + b % 16;
    assert(digits_value(s.subrange(0, 1), 16) == Some(v1 as nat));
    assert(digits_value(s.subrange(0, 2), 16) == Some(v2 as nat));
    assert(digits_value(s.subrange(0, 3), 16) == Some(v3 as nat));
    assert(digits_value(s.subrange(0, 4), 16) == Some(v4 as nat));
    assert(digits_value(s.subrange(0, 5), 16) == Some(v5 as nat));
    assert(digits_value(s, 16) == Some(v6 as nat));
    assert(v6 == color_code(c)) by (nonlinear_arith)
        requires
            0 <= r < 256,
            0 <= g < 256,
            0 <= b < 256,
            v1 == r / 16,
            v2 == v1 * 16 + r % 16,
            v3 == v2 * 16 + g / 16,
            v4 == v3 * 16 + g % 16,
            v5 == v4 * 16 + b / 16,
            v6 == v5 * 16 + b % 16,
            color_code(c) == r * 65536 + g * 256 + b,
    ;
    law_code_round_trip(c);
}

} // verus!