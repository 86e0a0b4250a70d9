//! The RGBA pixel buffers of the `image` crate, as the redaction code sees them.
//!
//! A buffer is modelled by two names: its size in pixels and its bytes, four per
//! pixel, row after row.

use image::{Rgba, RgbaImage};
use vstd::prelude::*;

verus! {

/// An RGBA image of the `image` crate (`ImageBuffer<Rgba<u8>, Vec<u8>>`). Verus does
/// not accept a declaration of `ImageBuffer` itself (its pixel parameter is bound by
/// the crate's `Pixel` trait), so the buffer is carried in this opaque struct.
#[verifier::external_body]
pub struct RgbaCanvas(pub RgbaImage);

/// The bytes of an RGBA buffer, four per pixel, row after row.
pub uninterp spec fn rgba_samples(img: RgbaCanvas) -> Seq<u8>;

/// The width and height of an RGBA buffer, in pixels.
pub uninterp spec fn rgba_size(img: RgbaCanvas) -> (u32, u32);

/// Where the four bytes of pixel `(x, y)` start in a buffer `width` pixels wide.
pub open spec fn pixel_offset(width: int, x: int, y: int) -> int {
    (y * width + x) * 4
}

/// The four bytes of pixel `(x, y)`.
pub open spec fn pixel_at(samples: Seq<u8>, width: int, x: int, y: int) -> Seq<u8> {
    samples.subrange(pixel_offset(width, x, y), pixel_offset(width, x, y) + 4)
}

/// `samples` with the four bytes at `offset` replaced by `px`.
pub open spec fn with_pixel(samples: Seq<u8>, offset: int, px: [u8; 4]) -> Seq<u8> {
    Seq::new(
        samples.len(),
        |i: int|
            if offset <= i < offset + 4 {
                px@[i - offset]
            } else {
                samples[i]
            },
    )
}

/// `ImageBuffer::dimensions`: the width and height the buffer was made with. Every
/// constructor of `ImageBuffer` checks that the container holds at least
/// `4 * width * height` bytes for four channels, and the buffer never shrinks it.
#[verifier::external_body]
pub fn rgba_dimensions(img: &RgbaCanvas) -> (dims: (u32, u32))
    ensures
        dims == rgba_size(*img),
        rgba_samples(*img).len() >= 4 * dims.0 * dims.1,
{
    img.0.dimensions()
}

/// `ImageBuffer::put_pixel`: writes the four channels of `px` at pixel `(x, y)`, that
/// is at bytes `(y * width + x) * 4` to `+ 4`, and changes nothing else. It panics
/// outside the image, which the precondition rules out.
#[verifier::external_body]
pub fn rgba_put_pixel(img: &mut RgbaCanvas, x: u32, y: u32, px: [u8; 4])
    requires
        x < rgba_size(*old(img)).0,
        y < rgba_size(*old(img)).1,
    ensures
        rgba_size(*final(img)) == rgba_size(*old(img)),
        rgba_samples(*final(img)) == with_pixel(
            rgba_samples(*old(img)),
            pixel_offset(rgba_size(*old(img)).0 as int, x as int, y as int),
            px,
        ),
{
    img.0.put_pixel(x, y, Rgba(px));
}

} // verus!
