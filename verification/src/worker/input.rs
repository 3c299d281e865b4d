//! Small rules of the quick input window and the app icon: the icon's rounded
//! square, cursor positions in UTF-8, pre-edit ranges and the keysyms that typed
//! characters are sent as.

use vstd::prelude::*;
use vstd::string::StringSliceAdditionalSpecFns;
use crate::text::{chars_of, str_len};

verus! {

broadcast use vstd::string::group_string_axioms;

/// Width and height of the app icon, in pixels.
pub const ICON_SIZE: u32 = 64;

/// The icon's rounded square: 4 pixels from each edge, corners rounded with a radius
/// of 12 around the centers at 16 and 47.
pub open spec fn in_rounded_square(x: int, y: int) -> bool {
    let cx = if x < 16 {
        16
    } else if x > 47 {
        47
    } else {
        x
    };
    let cy = if y < 16 {
        16
    } else if y > 47 {
        47
    } else {
        y
    };
    &&& 4 <= x < 60
    &&& 4 <= y < 60
    &&& (x - cx) * (x - cx) + (y - cy) * (y - cy) <= 144
}

/// Whether the icon pixel at (`x`, `y`) lies inside its rounded square.
pub fn inside_rounded_square(x: u32, y: u32) -> (r: bool)
    ensures
        r == in_rounded_square(x as int, y as int),
{
    if !(4 <= x && x < 60) || !(4 <= y && y < 60) {
        return false;
    }
    let xi = x as i32;
    let yi = y as i32;
    let cx: i32 = if xi < 16 {
        16
    } else if xi > 47 {
        47
    } else {
        xi
    };
    let cy: i32 = if yi < 16 {
        16
    } else if yi > 47 {
        47
    } else {
        yi
    };
    let dx = xi - cx;
    let dy = yi - cy;
    assert(-12 <= dx <= 12 && -12 <= dy <= 12);
    assert(0 <= dx * dx <= 144 && 0 <= dy * dy <= 144) by (nonlinear_arith)
        requires
            -12 <= dx <= 12,
            -12 <= dy <= 12,
    ;
    dx * dx + dy * dy <= 144
}

/// The byte offset of character `char_index` of `text`, or the text's length in
/// bytes where it has fewer characters.
pub open spec fn byte_index_of_char(text: Seq<char>, char_index: int) -> usize {
    if char_index < text.len() {
        str_len(text.take(char_index))
    } else {
        str_len(text)
    }
}

/// The UTF-8 byte offset of a character position in `text`.
pub fn byte_index_at_char(text: &str, char_index: usize) -> (r: usize)
    ensures
        r == byte_index_of_char(text@, char_index as int),
{
    let n = chars_of(text).len();
    if char_index < n {
        let head = text.substring_char(0, char_index);
        assert(head@ == text@.take(char_index as int));
        head.len()
    } else {
        text.len()
    }
}

/// Whether an attribute over `attr_start..attr_end` lies within the pre-edit range
/// `start..end`.
pub fn preedit_contains_attribute(start: u32, end: u32, attr_start: u32, attr_end: u32) -> (r: bool)
    ensures
        r == (attr_start >= start && attr_end <= end),
{
    attr_start >= start && attr_end <= end
}

/// The X keysym that a typed character is sent as: Return for a line break, Tab,
/// BackSpace, the Latin-1 code itself, and else the Unicode keysym `0x01000000 | c`.
pub open spec fn keysym_of(c: char) -> i32 {
    if c == '\n' || c == '\r' {
        0xff0d
    } else if c == '\t' {
        0xff09
    } else if c == '\u{8}' {
        0xff08
    } else if (c as u32) <= 0xff {
        c as i32
    } else {
        (0x0100_0000 + c as u32) as i32
    }
}

/// The X keysym of a typed character.
pub fn character_to_keysym(character: char) -> (r: i32)
    ensures
        r == keysym_of(character),
{
    if character == '\n' || character == '\r' {
        0xff0d
    } else if character == '\t' {
        0xff09
    } else if character == '\u{8}' {
        0xff08
    } else if (character as u32) <= 0xff {
        (character as u32) as i32
    } else {
        let u = character as u32;
        assert(u <= 0x10ffff);
        (0x0100_0000 + u) as i32
    }
}

} // verus!
