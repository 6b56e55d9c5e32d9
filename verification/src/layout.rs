//! The fixed measures and colours of a notification window.

use vstd::prelude::*;
use crate::util::{rgb, Rect};

verus! {

/// Notification width.
pub const NW: i32 = 360;

/// Notification height.
pub const NH: i32 = 170;

/// Notification margin: the space between the window's edge and its content.
pub const NM: i32 = 16;

/// Notification icon size, width and height alike.
pub const NIS: i32 = 16;

/// The space kept free between the stack of notifications and the right and
/// bottom edges of the work area.
pub const EDGE: i32 = 15;

/// The space between two stacked notifications.
pub const GAP: i32 = 10;

/// Side length of the close button.
pub const CLOSE_BTN_SIZE: i32 = 8;

/// Window background colour.
pub const WC: u32 = 0x0045_3932;

/// Colour of the title, the application name and the hovered close button.
pub const TC: u32 = 0x00FF_FFFF;

/// Colour of the body text and the idle close button.
pub const SC: u32 = 0x00C8_C8C8;

/// The close button's rectangle, as a plain value.
pub open spec fn close_btn_rect() -> Rect {
    Rect { left: 336, top: 16, right: 344, bottom: 24 }
}

/// The rectangle that the body text is wrapped into, as a plain value.
pub open spec fn body_rect() -> Rect {
    Rect { left: 16, top: 65, right: 344, bottom: 154 }
}

/// The rectangle of the close button: a small square near the top right
/// corner of the window, one and a half margins from its right edge.
pub fn close_button() -> (rect: Rect)
    ensures
        rect == close_btn_rect(),
{
    let left: i32 = NW - NM - NM / 2;
    Rect { left, top: NM, right: left + CLOSE_BTN_SIZE, bottom: NM + CLOSE_BTN_SIZE }
}

/// The rectangle of the body text: below the title, inside the margins.
pub fn body_area() -> (rect: Rect)
    ensures
        rect == body_rect(),
{
    Rect { left: NM, top: NM + NIS + (NM / 2) + 17 + (NM / 2), right: NW - NM, bottom: NH - NM }
}

/// The three colours written as hexadecimal numbers are the ones mixed from
/// their red, green and blue parts.
pub proof fn lemma_palette()
    ensures
        WC == rgb(50, 57, 69),
        TC == rgb(255, 255, 255),
        SC == rgb(200, 200, 200),
{
    assert(0x0045_3932u32 == 50u32 | (57u32 << 8) | (69u32 << 16)) by (bit_vector);
    assert(0x00FF_FFFFu32 == 255u32 | (255u32 << 8) | (255u32 << 16)) by (bit_vector);
    assert(0x00C8_C8C8u32 == 200u32 | (200u32 << 8) | (200u32 << 16)) by (bit_vector);
}

} // verus!
