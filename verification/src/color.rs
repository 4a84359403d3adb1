//! Colours and the `#RRGGBB` / `#RRGGBBAA` hex notation the theme uses.

use vstd::prelude::*;

verus! {

/// An sRGB colour with unmultiplied alpha.
#[derive(Debug, PartialEq, Eq, Structural, Clone, Copy)]
pub struct Color {
    pub r: u8,
    pub g: u8,
    pub b: u8,
    pub a: u8,
}

impl Color {
    /// Fully opaque black, the fallback for malformed hex strings.
    pub fn black() -> (c: Color)
        ensures
            c == (Color { r: 0, g: 0, b: 0, a: 255 }),
    {
        Color { r: 0, g: 0, b: 0, a: 255 }
    }
}

/// Value of one hex digit, upper or lower case.
pub open spec fn hex_digit_spec(c: char) -> Option<u8> {
    let v = c as u32;
    if 48 <= v && v <= 57 {
        Some((v - 48) as u8)
    } else if 97 <= v && v <= 102 {
        Some((v - 87) as u8)
    } else if 65 <= v && v <= 70 {
        Some((v - 55) as u8)
    } else {
        None
    }
}

/// Value of a two-character hex component, as the standard parser reads
/// it: two digits, or a digit after a tolerated leading plus sign.
pub open spec fn hex_pair_spec(c1: char, c2: char) -> Option<u8> {
    if c1 == '+' {
        hex_digit_spec(c2)
    } else {
        match (hex_digit_spec(c1), hex_digit_spec(c2)) {
            (Some(hi), Some(lo)) => Some((16 * hi + lo) as u8),
            _ => None,
        }
    }
}

/// The string with every leading `#` removed.
pub open spec fn trim_hash_spec(s: Seq<char>) -> Seq<char>
    decreases s.len(),
{
    if s.len() > 0 && s[0] == '#' {
        trim_hash_spec(s.subrange(1, s.len() as int))
    } else {
        s
    }
}

/// A colour component at pair `i` of the trimmed string; a malformed pair
/// reads as zero.
pub open spec fn component_spec(t: Seq<char>, i: int) -> u8 {
    match hex_pair_spec(t[2 * i], t[2 * i + 1]) {
        Some(v) => v,
        None => 0,
    }
}

/// The colour a hex string denotes. After the leading `#`s are removed,
/// six digits give an opaque colour and eight add an alpha component (a
/// malformed alpha pair reads as opaque); any other length is black.
pub open spec fn hex_color_spec(s: Seq<char>) -> Color {
    let t = trim_hash_spec(s);
    if t.len() == 6 {
        Color { r: component_spec(t, 0), g: component_spec(t, 1), b: component_spec(t, 2), a: 255 }
    } else if t.len() == 8 {
        Color {
            r: component_spec(t, 0),
            g: component_spec(t, 1),
            b: component_spec(t, 2),
            a: match hex_pair_spec(t[6], t[7]) {
                Some(v) => v,
                None => 255,
            },
        }
    } else {
        Color { r: 0, g: 0, b: 0, a: 255 }
    }
}

fn hex_digit(c: char) -> (r: Option<u8>)
    ensures
        r == hex_digit_spec(c),
{
    let v = c as u32;
    if 48 <= v && v <= 57 {
        Some((v - 48) as u8)
    } else if 97 <= v && v <= 102 {
        Some((v - 87) as u8)
    } else if 65 <= v && v <= 70 {
        Some((v - 55) as u8)
    } else {
        None
    }
}

fn hex_pair(c1: char, c2: char) -> (r: Option<u8>)
    ensures
        r == hex_pair_spec(c1, c2),
{
    if c1 == '+' {
        hex_digit(c2)
    } else {
        match (hex_digit(c1), hex_digit(c2)) {
            (Some(hi), Some(lo)) => Some(16 * hi + lo),
            _ => None,
        }
    }
}

fn component(c1: char, c2: char) -> (r: u8)
    ensures
        r == (match hex_pair_spec(c1, c2) {
            Some(v) => v,
            None => 0u8,
        }),
{
    match hex_pair(c1, c2) {
        Some(v) => v,
        None => 0,
    }
}

/// If the first `i` characters are `#` and the next one (if any) is not,
/// trimming removes exactly those `i` characters.
proof fn lemma_trim_prefix(s: Seq<char>, i: int)
    requires
        0 <= i <= s.len(),
        forall|j: int| 0 <= j < i ==> s[j] == '#',
        i == s.len() || s[i] != '#',
    ensures
        trim_hash_spec(s) == s.subrange(i, s.len() as int),
    decreases i,
{
    if i == 0 {
        assert(s.subrange(0, s.len() as int) =~= s);
    } else {
        let tail = s.subrange(1, s.len() as int);
        lemma_trim_prefix(tail, i - 1);
        assert(tail.subrange(i - 1, tail.len() as int) =~= s.subrange(i, s.len() as int));
    }
}

/// Parse a hex colour string, as the theme writes them: an optional run of
/// `#`, then `RRGGBB` or `RRGGBBAA`; anything else is black.
pub fn hex_to_color(hex: &str) -> (c: Color)
    ensures
        c == hex_color_spec(hex@),
{
    let n = hex.unicode_len();
    let mut i: usize = 0;
    while i < n && hex.get_char(i) == '#'
        invariant
            n == hex@.len(),
            0 <= i <= n,
            forall|j: int| 0 <= j < i ==> hex@[j] == '#',
        decreases n - i,
    {
        i = i + 1;
    }
    proof {
        lemma_trim_prefix(hex@, i as int);
    }
    let m = n - i;
    if m == 6 {
        let r = component(hex.get_char(i), hex.get_char(i + 1));
        let g = component(hex.get_char(i + 2), hex.get_char(i + 3));
        let b = component(hex.get_char(i + 4), hex.get_char(i + 5));
        Color { r, g, b, a: 255 }
    } else if m == 8 {
        let r = component(hex.get_char(i), hex.get_char(i + 1));
        let g = component(hex.get_char(i + 2), hex.get_char(i + 3));
        let b = component(hex.get_char(i + 4), hex.get_char(i + 5));
        let a = match hex_pair(hex.get_char(i + 6), hex.get_char(i + 7)) {
            Some(v) => v,
            None => 255,
        };
        Color { r, g, b, a }
    } else {
        Color::black()
    }
}

} // verus!
