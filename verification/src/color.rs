//! Colors written as `#rrggbb` / `#rrggbbaa` text or as 8-bit components.
use vstd::prelude::*;
use vstd::string::StringSliceAdditionalSpecFns;

verus! {

/// A color as four 8-bit components, not premultiplied.
#[derive(PartialEq, Eq, Structural, Clone, Copy, Debug)]
pub struct Rgba8 {
    pub r: u8,
    pub g: u8,
    pub b: u8,
    pub a: u8,
}

/// The value of one hexadecimal digit byte.
pub open spec fn hex_digit(b: u8) -> Option<int> {
    if 48 <= b && b <= 57 {
        Some(b - 48)
    } else if 97 <= b && b <= 102 {
        Some(b - 87)
    } else if 65 <= b && b <= 70 {
        Some(b - 55)
    } else {
        None
    }
}

/// What `u8::from_str_radix(_, 16)` reads from a two-byte text: two hex
/// digits, or `+` and one hex digit.
pub open spec fn hex_pair(b0: u8, b1: u8) -> Option<u8> {
    if b0 == 43 {
        match hex_digit(b1) {
            Some(v) => Some(v as u8),
            None => None,
        }
    } else {
        match (hex_digit(b0), hex_digit(b1)) {
            (Some(h), Some(l)) => Some((h * 16 + l) as u8),
            _ => None,
        }
    }
}

/// A UTF-8 continuation byte: a byte offset there is not a character boundary.
pub open spec fn is_continuation(b: u8) -> bool {
    128 <= b && b < 192
}

/// The color that a string with UTF-8 bytes `s` denotes: `#` followed by six
/// or eight bytes read pairwise as hexadecimal (red, green, blue, then alpha,
/// which is 255 when absent). Anything else denotes no color.
pub open spec fn color_text(s: Seq<u8>) -> Option<Rgba8> {
    if s.len() > 0 && s[0] == 35 {
        let h = s.drop_first();
        if h.len() == 6 || h.len() == 8 {
            match (hex_pair(h[0], h[1]), hex_pair(h[2], h[3]), hex_pair(h[4], h[5])) {
                (Some(r), Some(g), Some(b)) => {
                    if h.len() == 8 {
                        match hex_pair(h[6], h[7]) {
                            Some(a) => Some(Rgba8 { r, g, b, a }),
                            None => None,
                        }
                    } else {
                        Some(Rgba8 { r, g, b, a: 255 })
                    }
                },
                _ => None,
            }
        } else {
            None
        }
    } else {
        None
    }
}

/// The inputs on which slicing the text pairwise cuts through a character,
/// which panics: a pair is only cut after every pair before it was read.
pub open spec fn color_text_cuts_char(s: Seq<u8>) -> bool {
    &&& s.len() > 0 && s[0] == 35
    &&& {
        let h = s.drop_first();
        &&& h.len() == 6 || h.len() == 8
        &&& {
            ||| is_continuation(h[2])
            ||| (hex_pair(h[0], h[1]) is Some && is_continuation(h[4]))
            ||| (hex_pair(h[0], h[1]) is Some && hex_pair(h[2], h[3]) is Some && h.len() == 8
                && is_continuation(h[6]))
        }
    }
}

/// Whether reading `s` as a color would cut a character (see
/// `color_text_cuts_char`).
pub fn color_text_cuts(s: &str) -> (r: bool)
    ensures
        r == color_text_cuts_char(s.spec_bytes()),
{
    let b = s.as_bytes();
    if b.len() == 0 || b[0] != 35 {
        return false;
    }
    let n = b.len() - 1;
    if n != 6 && n != 8 {
        return false;
    }
    let ghost h = b@.drop_first();
    assert(h[0] == b@[1] && h[1] == b@[2] && h[2] == b@[3] && h[3] == b@[4] && h[4] == b@[5]);
    let p01 = hex_pair_exec(b[1], b[2]).is_some();
    let p23 = hex_pair_exec(b[3], b[4]).is_some();
    let c3 = 128 <= b[3] && b[3] < 192;
    let c5 = 128 <= b[5] && b[5] < 192;
    let c7 = if n == 8 {
        assert(h[6] == b@[7]);
        128 <= b[7] && b[7] < 192
    } else {
        false
    };
    c3 || (p01 && c5) || (p01 && p23 && n == 8 && c7)
}

fn hex_digit_exec(b: u8) -> (r: Option<u8>)
    ensures
        match r {
            Some(v) => hex_digit(b) == Some(v as int),
            None => hex_digit(b) is None,
        },
{
    if 48 <= b && b <= 57 {
        Some(b - 48)
    } else if 97 <= b && b <= 102 {
        Some(b - 87)
    } else if 65 <= b && b <= 70 {
        Some(b - 55)
    } else {
        None
    }
}

fn hex_pair_exec(b0: u8, b1: u8) -> (r: Option<u8>)
    ensures
        r == hex_pair(b0, b1),
{
    if b0 == 43 {
        hex_digit_exec(b1)
    } else {
        match (hex_digit_exec(b0), hex_digit_exec(b1)) {
            (Some(h), Some(l)) => Some(h * 16 + l),
            _ => None,
        }
    }
}

/// The color a `#rrggbb` / `#rrggbbaa` string denotes.
pub fn parse_hex_color(s: &str) -> (r: Option<Rgba8>)
    requires
        !color_text_cuts_char(s.spec_bytes()),
    ensures
        r == color_text(s.spec_bytes()),
{
    let bytes = s.as_bytes();
    let n = bytes.len();
    if n == 0 || bytes[0] != 35 {
        return None;
    }
    if n != 7 && n != 9 {
        return None;
    }
    let ghost h = bytes@.drop_first();
    assert(h[0] == bytes@[1] && h[1] == bytes@[2] && h[2] == bytes@[3] && h[3] == bytes@[4]);
    assert(h[4] == bytes@[5] && h[5] == bytes@[6]);
    let r = match hex_pair_exec(bytes[1], bytes[2]) {
        Some(v) => v,
        None => return None,
    };
    let g = match hex_pair_exec(bytes[3], bytes[4]) {
        Some(v) => v,
        None => return None,
    };
    let b = match hex_pair_exec(bytes[5], bytes[6]) {
        Some(v) => v,
        None => return None,
    };
    if n == 9 {
        assert(h[6] == bytes@[7] && h[7] == bytes@[8]);
        match hex_pair_exec(bytes[7], bytes[8]) {
            Some(a) => Some(Rgba8 { r, g, b, a }),
            None => None,
        }
    } else {
        Some(Rgba8 { r, g, b, a: 255 })
    }
}

/// The low eight bits of `v`, as `v as u8` keeps them.
pub open spec fn low_byte(v: u64) -> u8 {
    (v % 256) as u8
}

/// A color from optional components: a missing component is 0, missing alpha
/// is 255, and each component keeps the low eight bits of its value.
pub fn color_from_components(r: Option<u64>, g: Option<u64>, b: Option<u64>, a: Option<u64>) -> (c: Rgba8)
    ensures
        c.r == low_byte(match r { Some(v) => v, None => 0 }),
        c.g == low_byte(match g { Some(v) => v, None => 0 }),
        c.b == low_byte(match b { Some(v) => v, None => 0 }),
        c.a == low_byte(match a { Some(v) => v, None => 255 }),
{
    let rv = match r { Some(v) => v, None => 0 };
    let gv = match g { Some(v) => v, None => 0 };
    let bv = match b { Some(v) => v, None => 0 };
    let av = match a { Some(v) => v, None => 255 };
    Rgba8 { r: (rv % 256) as u8, g: (gv % 256) as u8, b: (bv % 256) as u8, a: (av % 256) as u8 }
}

/// The lower-case hexadecimal digit of a value below 16.
pub open spec fn hex_char(v: int) -> char {
    if v < 10 { ((48 + v) as u32) as char } else { ((87 + v) as u32) as char }
}

/// Two lower-case hexadecimal digits of `v`.
pub open spec fn hex_pair_chars(v: u8) -> Seq<char> {
    seq![hex_char((v / 16) as int), hex_char((v % 16) as int)]
}

/// `#rrggbbaa` in lower case.
pub open spec fn hex_rgba(c: Rgba8) -> Seq<char> {
    seq!['#'] + hex_pair_chars(c.r) + hex_pair_chars(c.g) + hex_pair_chars(c.b) + hex_pair_chars(c.a)
}

/// `#rrggbb` in lower case.
pub open spec fn hex_rgb(c: Rgba8) -> Seq<char> {
    seq!['#'] + hex_pair_chars(c.r) + hex_pair_chars(c.g) + hex_pair_chars(c.b)
}

fn hex_char_exec(v: u8) -> (r: char)
    requires
        v < 16,
    ensures
        r == hex_char(v as int),
{
    if v < 10 { (48 + v) as char } else { (87 + v) as char }
}

fn push_pair(out: &mut Vec<char>, v: u8)
    ensures
        final(out)@ == old(out)@ + hex_pair_chars(v),
{
    out.push(hex_char_exec(v / 16));
    out.push(hex_char_exec(v % 16));
    assert(final(out)@ =~= old(out)@ + hex_pair_chars(v));
}

/// Format a color as `#rrggbbaa` in lower case.
pub fn color_to_hex(c: Rgba8) -> (r: String)
    ensures
        r@ == hex_rgba(c),
{
    let mut out: Vec<char> = Vec::new();
    out.push('#');
    push_pair(&mut out, c.r);
    push_pair(&mut out, c.g);
    push_pair(&mut out, c.b);
    push_pair(&mut out, c.a);
    assert(out@ =~= hex_rgba(c));
    crate::text::string_from_chars(&out)
}

/// Format a color as `#rrggbb` in lower case, without alpha.
pub fn color_to_hex_noalpha(c: Rgba8) -> (r: String)
    ensures
        r@ == hex_rgb(c),
{
    let mut out: Vec<char> = Vec::new();
    out.push('#');
    push_pair(&mut out, c.r);
    push_pair(&mut out, c.g);
    push_pair(&mut out, c.b);
    assert(out@ =~= hex_rgb(c));
    crate::text::string_from_chars(&out)
}

} // verus!
