//! Small helpers of the window procedure: colours, pointer coordinates,
//! rectangles and wide strings.

use vstd::prelude::*;

verus! {

/// A rectangle in window or screen coordinates, by its four edges.
#[derive(Debug, Copy, Clone, PartialEq, Eq, Structural)]
pub struct Rect {
    pub left: i32,
    pub top: i32,
    pub right: i32,
    pub bottom: i32,
}

impl Rect {
    /// Whether `(x, y)` lies strictly inside the rectangle: a point on an
    /// edge is outside.
    pub open spec fn strictly_contains(self, x: int, y: int) -> bool {
        self.left < x < self.right && self.top < y < self.bottom
    }
}

/// The colour with the given red, green and blue parts, red lowest.
pub open spec fn rgb(r: u32, g: u32, b: u32) -> u32 {
    r | (g << 8) | (b << 16)
}

/// The low 16 bits of `value`, read as a signed number.
pub open spec fn signed_low_word(value: int) -> int {
    let word = value % 0x1_0000;
    if word < 0x8000 {
        word
    } else {
        word - 0x1_0000
    }
}

/// Packs a colour as the drawing interface expects it: red in the lowest
/// byte, then green, then blue. With parts of at most 255 the result is
/// `r + 256 * g + 65536 * b`.
#[allow(non_snake_case)]
pub fn RGB(r: u32, g: u32, b: u32) -> (color: u32)
    ensures
        color == rgb(r, g, b),
        r <= 255 && g <= 255 && b <= 255 ==> color == r + 0x100 * g + 0x1_0000 * b,
{
    let color: u32 = r | g << 8 | b << 16;
    assert(r <= 255 && g <= 255 && b <= 255 ==> (r | (g << 8) | (b << 16)) == r + 0x100 * g
        + 0x1_0000 * b) by (bit_vector);
    color
}

/// The horizontal pointer position packed into a message parameter: its low
/// word, signed.
#[allow(non_snake_case)]
pub fn GET_X_LPARAM(lparam: isize) -> (x: i16)
    ensures
        x == signed_low_word(lparam as int),
{
    let word: usize = (lparam as usize) & 0xFFFF;
    let low: u16 = word as u16;
    let x: i16 = low as i16;
    assert(x as int == signed_low_word(lparam as int)) by (bit_vector)
        requires
            word == (lparam as usize) & 0xFFFF,
            low == word as u16,
            x == low as i16,
    ;
    x
}

/// The vertical pointer position packed into a message parameter: its
/// second word, signed.
#[allow(non_snake_case)]
pub fn GET_Y_LPARAM(lparam: isize) -> (y: i16)
    ensures
        y == signed_low_word((lparam as int) / 0x1_0000),
{
    let word: usize = ((lparam as usize) & 0xFFFF_0000) >> 16;
    let low: u16 = word as u16;
    let y: i16 = low as i16;
    assert(y as int == signed_low_word((lparam as int) / 0x1_0000)) by (bit_vector)
        requires
            word == ((lparam as usize) & 0xFFFF_0000) >> 16,
            low == word as u16,
            y == low as i16,
    ;
    y
}

/// Whether `(x, y)` lies strictly inside `rect`.
pub fn rect_contains(rect: Rect, x: i32, y: i32) -> (inside: bool)
    ensures
        inside == rect.strictly_contains(x as int, y as int),
{
    (rect.left < x) && (x < rect.right) && (rect.top < y) && (y < rect.bottom)
}

/// A point on an edge of a rectangle, or beyond one, is not inside it.
pub proof fn lemma_boundary_is_outside(rect: Rect, x: int, y: int)
    requires
        x <= rect.left || x >= rect.right || y <= rect.top || y >= rect.bottom,
    ensures
        !rect.strictly_contains(x, y),
{
}

/// The UTF-16 code units of one character: itself where it fits in 16 bits,
/// else a high and a low surrogate.
pub open spec fn utf16_units(c: char) -> Seq<u16> {
    let code = c as int;
    if code < 0x1_0000 {
        seq![code as u16]
    } else {
        seq![
            (0xD800 + (code - 0x1_0000) / 0x400) as u16,
            (0xDC00 + (code - 0x1_0000) % 0x400) as u16,
        ]
    }
}

/// The UTF-16 encoding of a text.
pub open spec fn utf16(text: Seq<char>) -> Seq<u16>
    decreases text.len(),
{
    if text.len() == 0 {
        Seq::empty()
    } else {
        utf16(text.drop_last()) + utf16_units(text.last())
    }
}

/// A text as the platform takes it: UTF-16 with a closing 0.
pub open spec fn wide(text: Seq<char>) -> Seq<u16> {
    utf16(text).push(0u16)
}

/// Appends the UTF-16 code units of one character.
fn push_utf16(units: &mut Vec<u16>, c: char)
    ensures
        final(units)@ == old(units)@ + utf16_units(c),
{
    let code: u32 = c as u32;
    if code < 0x1_0000 {
        units.push(code as u16);
    } else {
        let rest: u32 = code - 0x1_0000;
        units.push((0xD800 + rest / 0x400) as u16);
        units.push((0xDC00 + rest % 0x400) as u16);
    }
    assert(units@ =~= old(units)@ + utf16_units(c));
}

/// Encodes a string as UTF-16 and closes it with a 0.
pub fn encode_wide(string: &str) -> (units: Vec<u16>)
    ensures
        units@ == wide(string@),
{
    let mut units: Vec<u16> = Vec::new();
    for c in it: string.chars()
        invariant
            it.seq() == string@,
            units@ == utf16(string@.take(it.index())),
    {
        let ghost index = it.index();
        push_utf16(&mut units, c);
        proof {
            let upto = string@.take(index + 1);
            assert(upto.drop_last() =~= string@.take(index));
            assert(upto.last() == c);
        }
    }
    assert(string@.take(string@.len() as int) =~= string@);
    units.push(0);
    units
}

} // verus!
