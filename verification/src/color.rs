//! RGB colours and their six-digit hexadecimal notation.

use vstd::prelude::*;

verus! {

/// An opaque RGB colour, one byte per channel.
#[derive(Debug, Clone, Copy, PartialEq, Eq, Structural)]
pub struct Color {
    pub r: u8,
    pub g: u8,
    pub b: u8,
}

/// The value of a hexadecimal digit of either case, if `c` is one.
pub open spec fn hex_digit(c: char) -> Option<int> {
    if '0' <= c && c <= '9' {
        Some(c as int - '0' as int)
    } else if 'a' <= c && c <= 'f' {
        Some(c as int - 'a' as int + 10)
    } else if 'A' <= c && c <= 'F' {
        Some(c as int - 'A' as int + 10)
    } else {
        None
    }
}

/// The byte written by the two characters `hi` and `lo`: two hexadecimal
/// digits, or a plus sign followed by a single digit.
pub open spec fn hex_pair(hi: char, lo: char) -> Option<int> {
    match hex_digit(lo) {
        Some(l) => match hex_digit(hi) {
            Some(h) => Some(16 * h + l),
            None => if hi == '+' {
                Some(l)
            } else {
                None
            },
        },
        None => None,
    }
}

/// Whether `s` consists of exactly six hexadecimal digits.
pub open spec fn is_hex6(s: Seq<char>) -> bool {
    s.len() == 6 && forall|i: int| 0 <= i < 6 ==> (#[trigger] hex_digit(s[i])) is Some
}

/// The number that six hexadecimal digits denote, most significant first.
pub open spec fn hex6_value(s: Seq<char>) -> int {
    hex_digit(s[0]).unwrap() * 0x100000 + hex_digit(s[1]).unwrap() * 0x10000 + hex_digit(
        s[2],
    ).unwrap() * 0x1000 + hex_digit(s[3]).unwrap() * 0x100 + hex_digit(s[4]).unwrap() * 0x10
        + hex_digit(s[5]).unwrap()
}

fn digit_of(c: char) -> (d: Option<u8>)
    ensures
        match d {
            Some(v) => hex_digit(c) == Some(v as int) && v < 16,
            None => hex_digit(c) is None,
        },
{
    if '0' <= c && c <= '9' {
        Some((c as u32 - '0' as u32) as u8)
    } else if 'a' <= c && c <= 'f' {
        Some((c as u32 - 'a' as u32 + 10) as u8)
    } else if 'A' <= c && c <= 'F' {
        Some((c as u32 - 'A' as u32 + 10) as u8)
    } else {
        None
    }
}

fn pair_of(hi: char, lo: char) -> (v: Option<u8>)
    ensures
        match v {
            Some(b) => hex_pair(hi, lo) == Some(b as int),
            None => hex_pair(hi, lo) is None,
        },
{
    match digit_of(lo) {
        Some(l) => match digit_of(hi) {
            Some(h) => Some(16 * h + l),
            None => if hi == '+' {
                Some(l)
            } else {
                None
            },
        },
        None => None,
    }
}

impl Color {
    /// The colour as one number, `0xRRGGBB`.
    pub open spec fn packed(self) -> int {
        self.r as int * 0x10000 + self.g as int * 0x100 + self.b as int
    }

    /// What a colour notation denotes. The first six characters are read as
    /// three channel pairs; anything after them is not looked at.
    pub open spec fn parse(s: Seq<char>) -> Option<Color> {
        if s.len() < 6 {
            None
        } else {
            match (hex_pair(s[0], s[1]), hex_pair(s[2], s[3]), hex_pair(s[4], s[5])) {
                (Some(r), Some(g), Some(b)) => Some(Color { r: r as u8, g: g as u8, b: b as u8 }),
                _ => None,
            }
        }
    }

    /// Reads a colour from `chars`, or reports that they do not spell one.
    pub fn from_chars(chars: &[char]) -> (c: Option<Color>)
        ensures
            c == Color::parse(chars@),
    {
        if chars.len() < 6 {
            return None;
        }
        let r = pair_of(chars[0], chars[1]);
        let g = pair_of(chars[2], chars[3]);
        let b = pair_of(chars[4], chars[5]);
        match (r, g, b) {
            (Some(r), Some(g), Some(b)) => Some(Color { r, g, b }),
            _ => None,
        }
    }

    /// Reads a colour from the characters of `hex`, or reports that they do
    /// not spell one.
    pub fn try_from_hex(hex: &str) -> (c: Option<Color>)
        ensures
            c == Color::parse(hex@),
    {
        if hex.unicode_len() < 6 {
            return None;
        }
        let r = pair_of(hex.get_char(0), hex.get_char(1));
        let g = pair_of(hex.get_char(2), hex.get_char(3));
        let b = pair_of(hex.get_char(4), hex.get_char(5));
        match (r, g, b) {
            (Some(r), Some(g), Some(b)) => Some(Color { r, g, b }),
            _ => None,
        }
    }

    /// Reads a colour from a notation that is known to spell one.
    pub fn from_hex(hex: String) -> (c: Color)
        requires
            Color::parse(hex@) is Some,
        ensures
            Some(c) == Color::parse(hex@),
    {
        Color::try_from_hex(hex.as_str()).unwrap()
    }

    /// The colour as one number, `0xRRGGBB`: red in bits 16 to 23, green in
    /// bits 8 to 15, blue in bits 0 to 7.
    pub fn as_hex(&self) -> (v: i32)
        ensures
            v == self.packed(),
            0 <= v <= 0xFF_FFFF,
            v as u32 == (self.r as u32) << 16 | (self.g as u32) << 8 | (self.b as u32),
    {
        let r: i32 = self.r as i32;
        let g: i32 = self.g as i32;
        let b: i32 = self.b as i32;
        proof {
            let (r8, g8, b8) = (self.r, self.g, self.b);
            assert(((r8 as u32) << 16 | (g8 as u32) << 8 | (b8 as u32)) == (r8 as u32) * 0x10000
                + (g8 as u32) * 0x100 + (b8 as u32)) by (bit_vector);
        }
        r * 0x10000 + g * 0x100 + b
    }
}

/// Six hexadecimal digits always spell a colour, and that colour packs to
/// the number the digits denote.
pub proof fn lemma_hex6_round_trip(s: Seq<char>)
    requires
        is_hex6(s),
    ensures
        Color::parse(s) is Some,
        Color::parse(s).unwrap().packed() == hex6_value(s),
{
    assert(hex_digit(s[0]) is Some);
    assert(hex_digit(s[1]) is Some);
    assert(hex_digit(s[2]) is Some);
    assert(hex_digit(s[3]) is Some);
    assert(hex_digit(s[4]) is Some);
    assert(hex_digit(s[5]) is Some);
}

} // verus!
