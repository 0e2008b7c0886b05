//! Palette colors and their canonical hex encoding.
//!
//! A color is either an explicit RGB triple, one of the terminal's symbolic
//! colors, or an indexed terminal color. Only RGB triples have a hex text
//! form; encoding is two uppercase hex digits per channel, `RRGGBB`.

use vstd::prelude::*;

verus! {

/// A palette color as the picker models it. Symbolic variants carry no
/// channel values and therefore have no hex encoding.
#[derive(Clone, Copy, Debug, PartialEq, Eq)]
pub enum Color {
    Reset,
    Black,
    Red,
    Green,
    Yellow,
    Blue,
    Magenta,
    Cyan,
    Gray,
    DarkGray,
    LightRed,
    LightGreen,
    LightYellow,
    LightBlue,
    LightMagenta,
    LightCyan,
    White,
    Rgb(u8, u8, u8),
    Indexed(u8),
}

/// The canonical digit for a value in `0..16`: `0`-`9` then `A`-`F`.
pub open spec fn hex_digit(n: int) -> char {
    if n == 0 {
        '0'
    } else if n == 1 {
        '1'
    } else if n == 2 {
        '2'
    } else if n == 3 {
        '3'
    } else if n == 4 {
        '4'
    } else if n == 5 {
        '5'
    } else if n == 6 {
        '6'
    } else if n == 7 {
        '7'
    } else if n == 8 {
        '8'
    } else if n == 9 {
        '9'
    } else if n == 10 {
        'A'
    } else if n == 11 {
        'B'
    } else if n == 12 {
        'C'
    } else if n == 13 {
        'D'
    } else if n == 14 {
        'E'
    } else {
        'F'
    }
}

/// The value of an uppercase hex digit, or -1 for any other character.
pub open spec fn upper_hex_val(c: char) -> int {
    if c == '0' {
        0
    } else if c == '1' {
        1
    } else if c == '2' {
        2
    } else if c == '3' {
        3
    } else if c == '4' {
        4
    } else if c == '5' {
        5
    } else if c == '6' {
        6
    } else if c == '7' {
        7
    } else if c == '8' {
        8
    } else if c == '9' {
        9
    } else if c == 'A' {
        10
    } else if c == 'B' {
        11
    } else if c == 'C' {
        12
    } else if c == 'D' {
        13
    } else if c == 'E' {
        14
    } else if c == 'F' {
        15
    } else {
        -1
    }
}

/// The value of a hex digit of either case, or -1 for any other character.
pub open spec fn hex_val(c: char) -> int {
    if c == 'a' {
        10
    } else if c == 'b' {
        11
    } else if c == 'c' {
        12
    } else if c == 'd' {
        13
    } else if c == 'e' {
        14
    } else if c == 'f' {
        15
    } else {
        upper_hex_val(c)
    }
}

/// Whether `c` is an ASCII hex digit of either case.
pub open spec fn is_hex_digit(c: char) -> bool {
    hex_val(c) >= 0
}

/// Whether `c` is a digit of the canonical (uppercase) hex alphabet.
pub open spec fn is_upper_hex(c: char) -> bool {
    upper_hex_val(c) >= 0
}

/// The two canonical digits of one 8-bit channel.
pub open spec fn byte_hex(b: u8) -> Seq<char> {
    seq![hex_digit(b as int / 16), hex_digit(b as int % 16)]
}

/// The six canonical digits `RRGGBB` of an RGB triple.
pub open spec fn rgb_hex(r: u8, g: u8, b: u8) -> Seq<char> {
    byte_hex(r) + byte_hex(g) + byte_hex(b)
}

/// Every canonical digit is an uppercase hex digit, and its value is the
/// number it encodes.
pub proof fn lemma_hex_digit_val(n: int)
    requires
        0 <= n < 16,
    ensures
        is_upper_hex(hex_digit(n)),
        upper_hex_val(hex_digit(n)) == n,
{
}

/// An uppercase hex digit is the canonical digit of its own value.
pub proof fn lemma_upper_hex_canon(c: char)
    requires
        is_upper_hex(c),
    ensures
        hex_digit(upper_hex_val(c)) == c,
{
}

/// The canonical encoding of an RGB triple is six uppercase hex digits.
pub proof fn lemma_rgb_hex_wf(r: u8, g: u8, b: u8)
    ensures
        rgb_hex(r, g, b).len() == 6,
        forall|i: int| 0 <= i < 6 ==> is_upper_hex(#[trigger] rgb_hex(r, g, b)[i]),
{
    let s = rgb_hex(r, g, b);
    lemma_hex_digit_val(r as int / 16);
    lemma_hex_digit_val(r as int % 16);
    lemma_hex_digit_val(g as int / 16);
    lemma_hex_digit_val(g as int % 16);
    lemma_hex_digit_val(b as int / 16);
    lemma_hex_digit_val(b as int % 16);
    assert(s[0] == hex_digit(r as int / 16));
    assert(s[1] == hex_digit(r as int % 16));
    assert(s[2] == hex_digit(g as int / 16));
    assert(s[3] == hex_digit(g as int % 16));
    assert(s[4] == hex_digit(b as int / 16));
    assert(s[5] == hex_digit(b as int % 16));
}

/// Round trip: reading the six digits of `rgb_hex` back as base-16 numbers
/// recovers the three channel values exactly.
pub proof fn lemma_hex_round_trip(r: u8, g: u8, b: u8)
    ensures
        upper_hex_val(rgb_hex(r, g, b)[0]) * 16 + upper_hex_val(rgb_hex(r, g, b)[1]) == r,
        upper_hex_val(rgb_hex(r, g, b)[2]) * 16 + upper_hex_val(rgb_hex(r, g, b)[3]) == g,
        upper_hex_val(rgb_hex(r, g, b)[4]) * 16 + upper_hex_val(rgb_hex(r, g, b)[5]) == b,
{
    lemma_rgb_hex_wf(r, g, b);
    lemma_hex_digit_val(r as int / 16);
    lemma_hex_digit_val(r as int % 16);
    lemma_hex_digit_val(g as int / 16);
    lemma_hex_digit_val(g as int % 16);
    lemma_hex_digit_val(b as int / 16);
    lemma_hex_digit_val(b as int % 16);
}

/// Whether `c` is an ASCII hex digit of either case.
pub fn is_hex_digit_char(c: char) -> (r: bool)
    ensures
        r == is_hex_digit(c),
{
    c == '0' || c == '1' || c == '2' || c == '3' || c == '4' || c == '5' || c == '6' || c == '7'
        || c == '8' || c == '9' || c == 'A' || c == 'B' || c == 'C' || c == 'D' || c == 'E'
        || c == 'F' || c == 'a' || c == 'b' || c == 'c' || c == 'd' || c == 'e' || c == 'f'
}

/// Upper-cases a hex digit; any other character passes through unchanged.
pub fn to_upper_hex_char(c: char) -> (r: char)
    ensures
        is_hex_digit(c) ==> is_upper_hex(r) && upper_hex_val(r) == hex_val(c),
        !is_hex_digit(c) ==> r == c,
{
    match c {
        'a' => 'A',
        'b' => 'B',
        'c' => 'C',
        'd' => 'D',
        'e' => 'E',
        'f' => 'F',
        _ => c,
    }
}

/// The canonical digit character for a value below 16.
pub fn hex_digit_char(n: u8) -> (c: char)
    requires
        n < 16,
    ensures
        c == hex_digit(n as int),
{
    match n {
        0 => '0',
        1 => '1',
        2 => '2',
        3 => '3',
        4 => '4',
        5 => '5',
        6 => '6',
        7 => '7',
        8 => '8',
        9 => '9',
        10 => 'A',
        11 => 'B',
        12 => 'C',
        13 => 'D',
        14 => 'E',
        _ => 'F',
    }
}

/// The six canonical digits of an RGB triple, as characters.
pub fn rgb_hex_chars(r: u8, g: u8, b: u8) -> (v: Vec<char>)
    ensures
        v@ == rgb_hex(r, g, b),
{
    let mut v: Vec<char> = Vec::new();
    v.push(hex_digit_char(r / 16));
    v.push(hex_digit_char(r % 16));
    v.push(hex_digit_char(g / 16));
    v.push(hex_digit_char(g % 16));
    v.push(hex_digit_char(b / 16));
    v.push(hex_digit_char(b % 16));
    proof {
        assert(v@ =~= rgb_hex(r, g, b));
    }
    v
}

/// A one-character string slice holding the given uppercase hex digit.
pub fn upper_hex_char_str(c: char) -> (s: &'static str)
    requires
        is_upper_hex(c),
    ensures
        s@ == seq![c],
{
    proof {
        reveal_strlit("0");
        reveal_strlit("1");
        reveal_strlit("2");
        reveal_strlit("3");
        reveal_strlit("4");
        reveal_strlit("5");
        reveal_strlit("6");
        reveal_strlit("7");
        reveal_strlit("8");
        reveal_strlit("9");
        reveal_strlit("A");
        reveal_strlit("B");
        reveal_strlit("C");
        reveal_strlit("D");
        reveal_strlit("E");
        reveal_strlit("F");
    }
    let s = match c {
        '0' => "0",
        '1' => "1",
        '2' => "2",
        '3' => "3",
        '4' => "4",
        '5' => "5",
        '6' => "6",
        '7' => "7",
        '8' => "8",
        '9' => "9",
        'A' => "A",
        'B' => "B",
        'C' => "C",
        'D' => "D",
        'E' => "E",
        _ => "F",
    };
    proof {
        assert(s@ =~= seq![c]);
    }
    s
}

} // verus!
