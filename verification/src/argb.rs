//! Packed `0xAARRGGBB` colours: their channel bytes and their `#RRGGBB` /
//! `#RRGGBBAA` hexadecimal notation.

use crate::outside::push_char;
use vstd::prelude::*;

verus! {

broadcast use vstd::string::group_string_axioms;

/// The colour packed from alpha, red, green and blue bytes.
pub open spec fn packed(a: u8, r: u8, g: u8, b: u8) -> int {
    a * 0x100_0000 + r * 0x1_0000 + g * 0x100 + b
}

/// The alpha, red, green and blue bytes of a packed colour.
pub open spec fn channels_spec(argb: u32) -> (u8, u8, u8, u8) {
    (
        (argb / 0x100_0000) as u8,
        ((argb / 0x1_0000) % 0x100) as u8,
        ((argb / 0x100) % 0x100) as u8,
        (argb % 0x100) as u8,
    )
}

/// The alpha, red, green and blue bytes of `argb`.
pub fn argb_channels(argb: u32) -> (channels: (u8, u8, u8, u8))
    ensures
        channels == channels_spec(argb),
{
    (
        (argb / 0x100_0000) as u8,
        ((argb / 0x1_0000) % 0x100) as u8,
        ((argb / 0x100) % 0x100) as u8,
        (argb % 0x100) as u8,
    )
}

/// The colour packed from the alpha, red, green and blue bytes.
pub fn pack_argb(a: u8, r: u8, g: u8, b: u8) -> (argb: u32)
    ensures
        argb == packed(a, r, g, b),
{
    (a as u32) * 0x100_0000 + (r as u32) * 0x1_0000 + (g as u32) * 0x100 + (b as u32)
}

/// Packing a colour's channels gives the colour back, and the channels of a
/// packed colour are the bytes it was packed from.
pub proof fn law_pack_and_channels_are_inverse(argb: u32, a: u8, r: u8, g: u8, b: u8)
    ensures
        packed(channels_spec(argb).0, channels_spec(argb).1, channels_spec(argb).2, channels_spec(argb).3)
            == argb,
        channels_spec(packed(a, r, g, b) as u32) == (a, r, g, b),
{
    let x = argb as int;
    assert(x == (x / 0x100_0000) * 0x100_0000 + ((x / 0x1_0000) % 0x100) * 0x1_0000 + ((x / 0x100) % 0x100)
        * 0x100 + x % 0x100) by (nonlinear_arith)
        requires
            0 <= x,
    ;
    let p = packed(a, r, g, b);
    assert(0 <= p < 0x1_0000_0000) by (nonlinear_arith)
        requires
            p == a * 0x100_0000 + r * 0x1_0000 + g * 0x100 + b,
            0 <= a < 256,
            0 <= r < 256,
            0 <= g < 256,
            0 <= b < 256,
    ;
    assert(p / 0x100_0000 == a && (p / 0x1_0000) % 0x100 == r && (p / 0x100) % 0x100 == g && p % 0x100
        == b) by (nonlinear_arith)
        requires
            p == a * 0x100_0000 + r * 0x1_0000 + g * 0x100 + b,
            0 <= a < 256,
            0 <= r < 256,
            0 <= g < 256,
            0 <= b < 256,
    ;
}

/// The upper-case hexadecimal digit of `d` (0 to 15).
pub open spec fn hex_digit(d: int) -> char {
    seq!['0', '1', '2', '3', '4', '5', '6', '7', '8', '9', 'A', 'B', 'C', 'D', 'E', 'F'][d]
}

/// The two upper-case hexadecimal digits of a byte.
pub open spec fn hex_byte(byte: u8) -> Seq<char> {
    seq![hex_digit((byte / 16) as int), hex_digit((byte % 16) as int)]
}

/// `#RRGGBB` for the red, green and blue bytes.
pub open spec fn hex_rgb_spec(r: u8, g: u8, b: u8) -> Seq<char> {
    seq!['#'] + hex_byte(r) + hex_byte(g) + hex_byte(b)
}

/// `#RRGGBBAA` for the red, green, blue and alpha bytes.
pub open spec fn hex_rgba_spec(r: u8, g: u8, b: u8, a: u8) -> Seq<char> {
    hex_rgb_spec(r, g, b) + hex_byte(a)
}

fn hex_char(d: u8) -> (c: char)
    requires
        d < 16,
    ensures
        c == hex_digit(d as int),
{
    match d {
        0 => '0',
        1 => '1',
        2 => '2',
        3 => '3',
        4 => '4',
        5 => '5',
        6 => '6',
        7 => '7',
        8 => '8',
        9 => '9',
        10 => 'A',
        11 => 'B',
        12 => 'C',
        13 => 'D',
        14 => 'E',
        _ => 'F',
    }
}

fn push_hex_byte(out: &mut String, byte: u8)
    ensures
        final(out)@ == old(out)@ + hex_byte(byte),
{
    push_char(out, hex_char(byte / 16));
    push_char(out, hex_char(byte % 16));
    assert(final(out)@ =~= old(out)@ + hex_byte(byte));
}

/// The colour written `#RRGGBB` in upper-case hexadecimal.
pub fn hex_rgb(r: u8, g: u8, b: u8) -> (hex: String)
    ensures
        hex@ == hex_rgb_spec(r, g, b),
{
    let mut hex = String::new();
    push_char(&mut hex, '#');
    push_hex_byte(&mut hex, r);
    push_hex_byte(&mut hex, g);
    push_hex_byte(&mut hex, b);
    assert(hex@ =~= hex_rgb_spec(r, g, b));
    hex
}

/// The colour written `#RRGGBBAA` in upper-case hexadecimal.
pub fn hex_rgba(r: u8, g: u8, b: u8, a: u8) -> (hex: String)
    ensures
        hex@ == hex_rgba_spec(r, g, b, a),
{
    let mut hex = hex_rgb(r, g, b);
    push_hex_byte(&mut hex, a);
    hex
}

/// A colour's notation is seven characters long, eight more with alpha,
/// and each byte is written by its two hexadecimal digits.
pub proof fn law_hex_notation_shape(r: u8, g: u8, b: u8, a: u8)
    ensures
        hex_rgb_spec(r, g, b).len() == 7,
        hex_rgba_spec(r, g, b, a).len() == 9,
        hex_rgba_spec(r, g, b, a).take(7) == hex_rgb_spec(r, g, b),
{
    assert(hex_rgba_spec(r, g, b, a).take(7) =~= hex_rgb_spec(r, g, b));
}

/// The value a hexadecimal digit stands for: `0`-`9` for 0 to 9 and
/// `A`-`F` (or `a`-`f`) for 10 to 15; -1 for any other character.
pub open spec fn hex_value(c: char) -> int {
    if '0' <= c <= '9' {
        c as int - '0' as int
    } else if 'A' <= c <= 'F' {
        c as int - 'A' as int + 10
    } else if 'a' <= c <= 'f' {
        c as int - 'a' as int + 10
    } else {
        -1
    }
}

/// Each digit is an upper-case hexadecimal digit that stands for its value.
proof fn lemma_hex_digit_value(d: int)
    requires
        0 <= d < 16,
    ensures
        hex_value(hex_digit(d)) == d,
        ('0' <= hex_digit(d) <= '9') || ('A' <= hex_digit(d) <= 'F'),
{
    let digits = seq!['0', '1', '2', '3', '4', '5', '6', '7', '8', '9', 'A', 'B', 'C', 'D', 'E', 'F'];
    assert(hex_digit(d) == digits[d]);
    if d == 0 {
    } else if d == 1 {
    } else if d == 2 {
    } else if d == 3 {
    } else if d == 4 {
    } else if d == 5 {
    } else if d == 6 {
    } else if d == 7 {
    } else if d == 8 {
    } else if d == 9 {
    } else if d == 10 {
    } else if d == 11 {
    } else if d == 12 {
    } else if d == 13 {
    } else if d == 14 {
    } else {
    }
}

/// Two digits read as a base-16 numeral.
pub open spec fn hex_pair_value(a: char, b: char) -> int {
    hex_value(a) * 16 + hex_value(b)
}

/// The notation denotes its bytes: read as base-16 numerals, each pair of
/// digits gives back its byte, and every digit is `0`-`9` or `A`-`F`.
pub proof fn law_hex_notation_denotes_its_bytes(r: u8, g: u8, b: u8, a: u8)
    ensures
        forall|d: int| 0 <= d < 16 ==> #[trigger] hex_value(hex_digit(d)) == d,
        hex_pair_value(hex_byte(r)[0], hex_byte(r)[1]) == r,
        ({
            let s = hex_rgba_spec(r, g, b, a);
            &&& s[0] == '#'
            &&& hex_pair_value(s[1], s[2]) == r
            &&& hex_pair_value(s[3], s[4]) == g
            &&& hex_pair_value(s[5], s[6]) == b
            &&& hex_pair_value(s[7], s[8]) == a
        }),
        ({
            let s = hex_rgb_spec(r, g, b);
            &&& s[0] == '#'
            &&& hex_pair_value(s[1], s[2]) == r
            &&& hex_pair_value(s[3], s[4]) == g
            &&& hex_pair_value(s[5], s[6]) == b
        }),
{
    assert forall|d: int| 0 <= d < 16 implies #[trigger] hex_value(hex_digit(d)) == d by {
        lemma_hex_digit_value(d);
    }
    assert forall|x: u8| #[trigger] hex_pair_value(hex_byte(x)[0], hex_byte(x)[1]) == x by {
        lemma_hex_digit_value((x / 16) as int);
        lemma_hex_digit_value((x % 16) as int);
    }
    assert(hex_pair_value(hex_byte(g)[0], hex_byte(g)[1]) == g);
    assert(hex_pair_value(hex_byte(b)[0], hex_byte(b)[1]) == b);
    assert(hex_pair_value(hex_byte(a)[0], hex_byte(a)[1]) == a);
    assert(hex_pair_value(hex_byte(r)[0], hex_byte(r)[1]) == r);
}

} // verus!
