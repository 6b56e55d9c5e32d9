//! Turning straight-alpha RGBA pixels into the two planes of a device icon.

use vstd::prelude::*;

verus! {

/// Bytes per pixel of a 32 bit RGBA buffer.
pub const PIXEL_SIZE: usize = 4;

/// The number of whole pixels in a buffer.
pub open spec fn pixel_count(rgba: Seq<u8>) -> nat {
    (rgba.len() / 4) as nat
}

/// The alpha byte of the pixel with the given number.
pub open spec fn alpha_at(rgba: Seq<u8>, pixel: int) -> u8 {
    rgba[4 * pixel + 3]
}

/// The mask byte of a pixel with the given alpha, which is the inverted
/// alpha: 0 for a fully opaque pixel, 255 for a fully transparent one.
pub open spec fn mask_byte(alpha: u8) -> u8 {
    (255 - alpha) as u8
}

/// The transparency mask of a buffer: one byte per whole pixel.
pub open spec fn and_mask(rgba: Seq<u8>) -> Seq<u8> {
    Seq::new(pixel_count(rgba), |i: int| mask_byte(alpha_at(rgba, i)))
}

/// The colour plane of a buffer: every whole pixel with its red and blue
/// bytes exchanged, green and alpha kept; bytes after the last whole pixel
/// are kept too.
pub open spec fn bgra(rgba: Seq<u8>) -> Seq<u8> {
    Seq::new(
        rgba.len(),
        |j: int|
            if j / 4 < pixel_count(rgba) && j % 4 == 0 {
                rgba[j + 2]
            } else if j / 4 < pixel_count(rgba) && j % 4 == 2 {
                rgba[j - 2]
            } else {
                rgba[j]
            },
    )
}

/// Whether every whole pixel of the buffer is fully opaque.
pub open spec fn fully_opaque(rgba: Seq<u8>) -> bool {
    forall|i: int| 0 <= i < pixel_count(rgba) ==> #[trigger] alpha_at(rgba, i) == 255
}

/// What the platform needs to build an icon: its size, one colour plane of
/// 32 bits per pixel, the transparency mask and the colour bytes.
#[derive(Debug, PartialEq, Eq)]
pub struct IconImage {
    pub width: u32,
    pub height: u32,
    pub planes: u8,
    pub bits_per_pixel: u8,
    pub and_mask: Vec<u8>,
    pub color: Vec<u8>,
}

/// An `IconImage` as plain values.
pub struct IconImageView {
    pub width: u32,
    pub height: u32,
    pub planes: u8,
    pub bits_per_pixel: u8,
    pub and_mask: Seq<u8>,
    pub color: Seq<u8>,
}

impl View for IconImage {
    type V = IconImageView;

    open spec fn view(&self) -> IconImageView {
        IconImageView {
            width: self.width,
            height: self.height,
            planes: self.planes,
            bits_per_pixel: self.bits_per_pixel,
            and_mask: self.and_mask@,
            color: self.color@,
        }
    }
}

/// The icon that a buffer of the given size describes.
pub open spec fn icon_image(rgba: Seq<u8>, width: u32, height: u32) -> IconImageView {
    IconImageView {
        width,
        height,
        planes: 1,
        bits_per_pixel: 32,
        and_mask: and_mask(rgba),
        color: bgra(rgba),
    }
}

/// Prepares a device icon from 32 bit RGBA data: derives the transparency
/// mask from the alpha bytes and reorders the colours from RGBA to BGRA.
pub fn get_hicon_from_32bpp_rgba(rgba: Vec<u8>, width: u32, height: u32) -> (image: IconImage)
    ensures
        image@ == icon_image(rgba@, width, height),
{
    let mut color = rgba;
    let pixels: usize = color.len() / PIXEL_SIZE;
    let mut mask: Vec<u8> = Vec::with_capacity(pixels);
    let mut i: usize = 0;
    while i < pixels
        invariant
            i <= pixels,
            pixels == pixel_count(rgba@),
            pixels * 4 <= rgba@.len(),
            color@.len() == rgba@.len(),
            mask@.len() == i,
            forall|k: int| 0 <= k < i ==> mask@[k] == mask_byte(alpha_at(rgba@, k)),
            forall|j: int| 0 <= j < 4 * i ==> color@[j] == bgra(rgba@)[j],
            forall|j: int| 4 * i <= j < rgba@.len() ==> color@[j] == rgba@[j],
        decreases pixels - i,
    {
        assert(color@.len() == color.len());
        assert(4 * i + 3 < color@.len());
        let at: usize = i * PIXEL_SIZE;
        let red: u8 = color[at];
        let blue: u8 = color[at + 2];
        let alpha: u8 = color[at + 3];
        mask.push(u8::MAX - alpha);
        color.set(at, blue);
        color.set(at + 2, red);
        i = i + 1;
    }
    assert(mask@ =~= and_mask(rgba@));
    assert(color@ =~= bgra(rgba@));
    IconImage { width, height, planes: 1, bits_per_pixel: 32, and_mask: mask, color }
}

/// A buffer whose pixels are all fully opaque has a mask of zero bytes only.
pub proof fn lemma_opaque_mask_is_zero(rgba: Seq<u8>)
    requires
        fully_opaque(rgba),
    ensures
        and_mask(rgba).len() == pixel_count(rgba),
        forall|i: int| 0 <= i < pixel_count(rgba) ==> and_mask(rgba)[i] == 0,
{
}

/// In the colour plane every whole pixel has its red and blue bytes
/// exchanged and its green and alpha bytes kept.
pub proof fn lemma_bgra_swaps_red_and_blue(rgba: Seq<u8>, pixel: int)
    requires
        0 <= pixel < pixel_count(rgba),
    ensures
        bgra(rgba).len() == rgba.len(),
        bgra(rgba)[4 * pixel] == rgba[4 * pixel + 2],
        bgra(rgba)[4 * pixel + 1] == rgba[4 * pixel + 1],
        bgra(rgba)[4 * pixel + 2] == rgba[4 * pixel],
        bgra(rgba)[4 * pixel + 3] == rgba[4 * pixel + 3],
{
    assert((4 * pixel) / 4 == pixel && (4 * pixel) % 4 == 0);
    assert((4 * pixel + 1) / 4 == pixel && (4 * pixel + 1) % 4 == 1);
    assert((4 * pixel + 2) / 4 == pixel && (4 * pixel + 2) % 4 == 2);
    assert((4 * pixel + 3) / 4 == pixel && (4 * pixel + 3) % 4 == 3);
}

/// Converting twice gives the buffer back.
pub proof fn lemma_bgra_is_an_involution(rgba: Seq<u8>)
    ensures
        bgra(bgra(rgba)) == rgba,
{
    let once = bgra(rgba);
    assert(pixel_count(once) == pixel_count(rgba));
    assert forall|j: int| 0 <= j < rgba.len() implies bgra(once)[j] == rgba[j] by {
        let p = j / 4;
        if p < pixel_count(rgba) && j % 4 == 0 {
            assert(j == 4 * p);
            assert((4 * p + 2) / 4 == p && (4 * p + 2) % 4 == 2);
        } else if p < pixel_count(rgba) && j % 4 == 2 {
            assert(j == 4 * p + 2);
            assert((4 * p) / 4 == p && (4 * p) % 4 == 0);
        }
    }
    assert(bgra(once) =~= rgba);
}

} // verus!
