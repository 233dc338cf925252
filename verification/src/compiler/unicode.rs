//! Character classes used by the Tortuga compiler.
use vstd::prelude::*;

verus! {

/// The Unicode `Pattern_White_Space` property.
pub open spec fn spec_is_pattern_white_space(c: char) -> bool {
    ||| c == '\u{0009}'
    ||| ('\u{000A}' <= c && c <= '\u{000D}')
    ||| c == '\u{0020}'
    ||| c == '\u{0085}'
    ||| c == '\u{200E}'
    ||| c == '\u{200F}'
    ||| c == '\u{2028}'
    ||| c == '\u{2029}'
}

/// Character extension to test for Unicode properties.
pub trait UnicodeProperties {
    /// Tests whether this is a Unicode character with the `Pattern_White_Space` property.
    fn is_pattern_white_space(&self) -> bool;
}

impl UnicodeProperties for char {
    fn is_pattern_white_space(&self) -> (r: bool)
        ensures
            r == spec_is_pattern_white_space(*self),
    {
        pattern_white_space(*self)
    }
}

/// Tests whether `c` has the `Pattern_White_Space` property.
pub fn pattern_white_space(c: char) -> (r: bool)
    ensures
        r == spec_is_pattern_white_space(c),
{
    match c {
        '\u{0009}' | '\u{000A}'..='\u{000D}' | '\u{0020}' | '\u{0085}' | '\u{200E}' | '\u{200F}'
        | '\u{2028}' | '\u{2029}' => true,
        _ => false,
    }
}

/// The number of bytes of the UTF-8 encoding of `c`.
pub open spec fn spec_utf8_len(c: char) -> nat {
    if (c as u32) < 0x80 {
        1
    } else if (c as u32) < 0x800 {
        2
    } else if (c as u32) < 0x10000 {
        3
    } else {
        4
    }
}

/// The number of bytes needed to encode `c` in UTF-8.
pub fn utf8_len(c: char) -> (n: usize)
    ensures
        n == spec_utf8_len(c),
        1 <= n <= 4,
{
    let code = c as u32;
    if code < 0x80 {
        1
    } else if code < 0x800 {
        2
    } else if code < 0x10000 {
        3
    } else {
        4
    }
}

pub open spec fn spec_is_ascii_digit(c: char) -> bool {
    '0' <= c && c <= '9'
}

pub open spec fn spec_is_ascii_alphabetic(c: char) -> bool {
    ('a' <= c && c <= 'z') || ('A' <= c && c <= 'Z')
}

pub open spec fn spec_is_ascii_alphanumeric(c: char) -> bool {
    spec_is_ascii_digit(c) || spec_is_ascii_alphabetic(c)
}

/// The ASCII punctuation characters `!"#$%&'()*+,-./:;<=>?@[\]^_`{|}~`.
pub open spec fn spec_is_ascii_punctuation(c: char) -> bool {
    ||| ('!' <= c && c <= '/')
    ||| (':' <= c && c <= '@')
    ||| ('[' <= c && c <= '`')
    ||| ('{' <= c && c <= '~')
}

pub fn is_ascii_digit(c: char) -> (r: bool)
    ensures
        r == spec_is_ascii_digit(c),
{
    '0' <= c && c <= '9'
}

pub fn is_ascii_alphanumeric(c: char) -> (r: bool)
    ensures
        r == spec_is_ascii_alphanumeric(c),
{
    ('0' <= c && c <= '9') || ('a' <= c && c <= 'z') || ('A' <= c && c <= 'Z')
}

pub fn is_ascii_punctuation(c: char) -> (r: bool)
    ensures
        r == spec_is_ascii_punctuation(c),
{
    ('!' <= c && c <= '/') || (':' <= c && c <= '@') || ('[' <= c && c <= '`') || ('{' <= c
        && c <= '~')
}

} // verus!
