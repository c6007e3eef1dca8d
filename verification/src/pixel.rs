//! Packed 24-bit RGB pixels and their expansion to RGBA bytes.

use vstd::prelude::*;

verus! {

/// The pixel written for points that never escape.
pub const BLACK: u32 = 0;

/// The alpha byte of every expanded pixel: fully opaque.
pub const OPAQUE: u8 = 255;

/// The packed value of three channels: red in bits 16..24, green in bits
/// 8..16, blue in bits 0..8.
pub open spec fn packed(r: u8, g: u8, b: u8) -> int {
    r as int * 65536 + g as int * 256 + b as int
}

/// The red channel of a pixel.
pub open spec fn red_of(pixel: u32) -> int {
    (pixel as int / 65536) % 256
}

/// The green channel of a pixel.
pub open spec fn green_of(pixel: u32) -> int {
    (pixel as int / 256) % 256
}

/// The blue channel of a pixel.
pub open spec fn blue_of(pixel: u32) -> int {
    pixel as int % 256
}

/// The four bytes that a pixel expands to: red, green, blue, and an opaque
/// alpha. Bits 24..32 of the pixel are not read.
pub open spec fn rgba_of(pixel: u32) -> Seq<u8> {
    seq![red_of(pixel) as u8, green_of(pixel) as u8, blue_of(pixel) as u8, OPAQUE]
}

/// The RGBA bytes of a whole buffer: byte `j` is byte `j % 4` of the
/// expansion of pixel `j / 4`.
pub open spec fn rgba_bytes(buffer: Seq<u32>) -> Seq<u8> {
    Seq::new(4 * buffer.len(), |j: int| rgba_of(buffer[j / 4])[j % 4])
}

/// Packs three 8-bit channels into one pixel.
pub fn pack_rgb(r: u8, g: u8, b: u8) -> (pixel: u32)
    ensures
        pixel as int == packed(r, g, b),
        red_of(pixel) == r,
        green_of(pixel) == g,
        blue_of(pixel) == b,
{
    let wide_r: u32 = r as u32;
    let wide_g: u32 = g as u32;
    let wide_b: u32 = b as u32;
    let pixel: u32 = (wide_r << 16) | (wide_g << 8) | wide_b;
    assert(((wide_r << 16) | (wide_g << 8) | wide_b) == wide_r * 65536 + wide_g * 256 + wide_b)
        by (bit_vector)
        requires
            wide_r < 256,
            wide_g < 256,
            wide_b < 256,
    ;
    pixel
}

/// The red channel of a pixel.
pub fn red(pixel: u32) -> (channel: u8)
    ensures
        channel as int == red_of(pixel),
{
    let channel: u32 = (pixel >> 16) & 0xFF;
    assert(((pixel >> 16) & 0xFF) == (pixel / 65536) % 256) by (bit_vector);
    channel as u8
}

/// The green channel of a pixel.
pub fn green(pixel: u32) -> (channel: u8)
    ensures
        channel as int == green_of(pixel),
{
    let channel: u32 = (pixel >> 8) & 0xFF;
    assert(((pixel >> 8) & 0xFF) == (pixel / 256) % 256) by (bit_vector);
    channel as u8
}

/// The blue channel of a pixel.
pub fn blue(pixel: u32) -> (channel: u8)
    ensures
        channel as int == blue_of(pixel),
{
    let channel: u32 = pixel & 0xFF;
    assert((pixel & 0xFF) == pixel % 256) by (bit_vector);
    channel as u8
}

/// Expands a buffer of packed pixels to RGBA bytes, four per pixel and in
/// pixel order, for upload as an image.
pub fn buffer_to_rgba(buffer: &Vec<u32>) -> (rgba: Vec<u8>)
    ensures
        rgba@ == rgba_bytes(buffer@),
{
    let mut rgba: Vec<u8> = Vec::new();
    let mut i: usize = 0;
    while i < buffer.len()
        invariant
            0 <= i <= buffer@.len(),
            rgba@.len() == 4 * i,
            forall|j: int| 0 <= j < 4 * i ==> rgba@[j] == rgba_of(buffer@[j / 4])[j % 4],
        decreases buffer@.len() - i,
    {
        let pixel = buffer[i];
        rgba.push(red(pixel));
        rgba.push(green(pixel));
        rgba.push(blue(pixel));
        rgba.push(OPAQUE);
        i += 1;
    }
    assert(rgba@ =~= rgba_bytes(buffer@));
    rgba
}

/// Unpacking undoes packing: the channels of a packed pixel are the
/// channels it was packed from.
pub proof fn lemma_channels_of_packed(r: u8, g: u8, b: u8)
    ensures
        0 <= packed(r, g, b) < 0x100_0000,
        red_of(packed(r, g, b) as u32) == r,
        green_of(packed(r, g, b) as u32) == g,
        blue_of(packed(r, g, b) as u32) == b,
{
}

/// Black is the pixel whose three channels are zero.
pub proof fn lemma_black()
    ensures
        BLACK as int == packed(0, 0, 0),
{
}

} // verus!
