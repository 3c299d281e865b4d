//! The result of the screen colour picker, with the colour as `#RRGGBB`.

use vstd::prelude::*;
use crate::text::push_char;

verus! {

broadcast use vstd::string::group_string_axioms;

/// A picked colour: its `#RRGGBB` text and its channels.
#[derive(Debug, Clone, PartialEq, Eq)]
pub struct PickedColor {
    pub hex: String,
    pub red: u8,
    pub green: u8,
    pub blue: u8,
}

/// What the colour picker reports to the web view for one request.
#[derive(Debug, Clone, PartialEq, Eq)]
pub struct ColorPickResult {
    pub request_id: String,
    pub color: Option<PickedColor>,
    pub cancelled: bool,
    pub error: Option<String>,
}

/// The upper-case hexadecimal digit for `n` in `0..16`.
pub open spec fn hex_upper(n: int) -> char {
    if n < 10 {
        (n + 48) as char
    } else {
        (n + 55) as char
    }
}

/// Two upper-case hexadecimal digits for a byte.
pub open spec fn hex2(b: u8) -> Seq<char> {
    seq![hex_upper(b as int / 16), hex_upper(b as int % 16)]
}

/// The `#RRGGBB` text of a colour.
pub open spec fn color_hex(red: u8, green: u8, blue: u8) -> Seq<char> {
    seq!['#'] + hex2(red) + hex2(green) + hex2(blue)
}

fn hex_digit(n: u8) -> (c: char)
    requires
        n < 16,
    ensures
        c == hex_upper(n as int),
{
    if n < 10 {
        (48 + n) as char
    } else {
        (55 + n) as char
    }
}

fn push_hex2(s: &mut String, b: u8)
    ensures
        final(s)@ == old(s)@ + hex2(b),
{
    push_char(s, hex_digit(b / 16));
    push_char(s, hex_digit(b % 16));
    assert(final(s)@ =~= old(s)@ + hex2(b));
}

impl PickedColor {
    /// The colour with these channels and its `#RRGGBB` text.
    pub fn new(red: u8, green: u8, blue: u8) -> (c: PickedColor)
        ensures
            c.hex@ == color_hex(red, green, blue),
            c.red == red,
            c.green == green,
            c.blue == blue,
    {
        let mut hex = String::new();
        push_char(&mut hex, '#');
        push_hex2(&mut hex, red);
        push_hex2(&mut hex, green);
        push_hex2(&mut hex, blue);
        assert(hex@ =~= color_hex(red, green, blue));
        PickedColor { hex, red, green, blue }
    }
}

impl ColorPickResult {
    /// A picked colour for the request.
    pub fn success(request_id: String, red: u8, green: u8, blue: u8) -> (r: ColorPickResult)
        ensures
            r.request_id@ == request_id@,
            r.color matches Some(c) && c.hex@ == color_hex(red, green, blue) && c.red == red && c.green
                == green && c.blue == blue,
            !r.cancelled,
            r.error is None,
    {
        ColorPickResult { request_id, color: Some(PickedColor::new(red, green, blue)), cancelled: false, error: None }
    }

    /// The user cancelled the pick.
    pub fn cancelled(request_id: String) -> (r: ColorPickResult)
        ensures
            r.request_id@ == request_id@,
            r.color is None,
            r.cancelled,
            r.error is None,
    {
        ColorPickResult { request_id, color: None, cancelled: true, error: None }
    }

    /// The pick failed with `error`.
    pub fn error(request_id: String, error: String) -> (r: ColorPickResult)
        ensures
            r.request_id@ == request_id@,
            r.color is None,
            !r.cancelled,
            r.error matches Some(e) && e@ == error@,
    {
        ColorPickResult { request_id, color: None, cancelled: false, error: Some(error) }
    }
}

/// The value that a screen read gives for a pixel it could not read (`CLR_INVALID`).
pub const INVALID_PIXEL: u32 = 0xffff_ffff;

/// The result for a pixel read from the Windows screen as a `COLORREF`
/// (`0x00BBGGRR`): the colour of its low three bytes, or the error
/// `GetPixel failed` for `INVALID_PIXEL`.
pub fn color_from_pixel(request_id: String, pixel: u32) -> (r: ColorPickResult)
    ensures
        r.request_id@ == request_id@,
        pixel == INVALID_PIXEL ==> r.color is None && !r.cancelled && (r.error matches Some(e) && e@
            == "GetPixel failed"@),
        pixel != INVALID_PIXEL ==> !r.cancelled && r.error is None && (r.color matches Some(c) && c.red
            == pixel % 256 && c.green == (pixel / 256) % 256 && c.blue == (pixel / 65536) % 256 && c.hex@
            == color_hex(c.red, c.green, c.blue)),
{
    if pixel == INVALID_PIXEL {
        return ColorPickResult::error(request_id, String::from_str("GetPixel failed"));
    }
    let red = (pixel & 0xff) as u8;
    let green = ((pixel >> 8) & 0xff) as u8;
    let blue = ((pixel >> 16) & 0xff) as u8;
    assert(pixel & 0xff == pixel % 256) by (bit_vector);
    assert((pixel >> 8) & 0xff == (pixel / 256) % 256) by (bit_vector);
    assert((pixel >> 16) & 0xff == (pixel / 65536) % 256) by (bit_vector);
    ColorPickResult::success(request_id, red, green, blue)
}

} // verus!
