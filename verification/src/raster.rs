//! Burning redaction boxes into rendered pages.
//!
//! A redaction box is kept in two units: normalized to the page (0.0 to 1.0, as the
//! editor records it) and in pixels of a rendered page. The exporter turns the first
//! into the second for each page it renders; the pixels are then blacked out here.

use crate::image_buffer::{
    pixel_at, pixel_offset, rgba_dimensions, rgba_put_pixel, rgba_samples, rgba_size,
    with_pixel, RgbaCanvas,
};
use vstd::prelude::*;

verus! {

/// An area to black out on one page of a document, measured in the unit `C`.
#[derive(Debug, Clone, Copy)]
pub struct RedactionBox<C> {
    pub page_index: u16,
    pub x: C,
    pub y: C,
    pub width: C,
    pub height: C,
}

/// Exports documents with their redactions burnt into the pixels of every page.
pub struct RasterizedPdfExporter;

/// The colour a redacted pixel gets: opaque black.
pub open spec fn black() -> Seq<u8> {
    seq![0u8, 0u8, 0u8, 255u8]
}

/// Pixel `(px, py)` lies in box `b`, both in pixels.
pub open spec fn box_covers(b: RedactionBox<u32>, px: int, py: int) -> bool {
    &&& b.x <= px < b.x + b.width
    &&& b.y <= py < b.y + b.height
}

/// Some box of `boxes` on page `page` covers pixel `(px, py)`.
pub open spec fn redacted_on_page(boxes: Seq<RedactionBox<u32>>, page: u16, px: int, py: int) -> bool {
    exists|i: int|
        0 <= i < boxes.len() && #[trigger] boxes[i].page_index == page && box_covers(
            boxes[i],
            px,
            py,
        )
}

/// The far edges of every box of page `page` fit in a `u32`.
pub open spec fn page_boxes_fit(boxes: Seq<RedactionBox<u32>>, page: u16) -> bool {
    forall|i: int|
        0 <= i < boxes.len() && #[trigger] boxes[i].page_index == page ==> boxes[i].x
            + boxes[i].width <= u32::MAX && boxes[i].y + boxes[i].height <= u32::MAX
}

/// `new` is `old` with the pixels of a `w` by `h` image for which `inside` holds set to
/// `px`, and every other byte kept.
pub open spec fn painted(
    new: Seq<u8>,
    old: Seq<u8>,
    w: int,
    h: int,
    inside: spec_fn(int, int) -> bool,
    px: Seq<u8>,
) -> bool {
    &&& new.len() == old.len()
    &&& forall|a: int, b: int|
        0 <= a < w && 0 <= b < h ==> #[trigger] pixel_at(new, w, a, b) == if inside(a, b) {
            px
        } else {
            pixel_at(old, w, a, b)
        }
    &&& forall|i: int| 4 * w * h <= i < old.len() ==> new[i] == old[i]
}

/// Burning the same redactions in twice gives what burning them in once gave: the
/// second pass changes no pixel and no other byte.
pub proof fn lemma_painting_twice_is_painting_once(
    once: Seq<u8>,
    twice: Seq<u8>,
    orig: Seq<u8>,
    w: int,
    h: int,
    inside: spec_fn(int, int) -> bool,
    px: Seq<u8>,
)
    requires
        painted(once, orig, w, h, inside, px),
        painted(twice, once, w, h, inside, px),
    ensures
        painted(twice, orig, w, h, inside, px),
        forall|a: int, b: int| 0 <= a < w && 0 <= b < h ==> #[trigger] pixel_at(twice, w, a, b) == pixel_at(once, w, a, b),
        forall|i: int| 4 * w * h <= i < once.len() ==> twice[i] == once[i],
{
    assert forall|a: int, b: int| 0 <= a < w && 0 <= b < h implies #[trigger] pixel_at(twice, w, a, b)
        == pixel_at(once, w, a, b) by {
        assert(pixel_at(twice, w, a, b) == if inside(a, b) { px } else { pixel_at(once, w, a, b) });
        assert(pixel_at(once, w, a, b) == if inside(a, b) { px } else { pixel_at(orig, w, a, b) });
    }
}

proof fn lemma_pixel_in_buffer(w: int, h: int, x: int, y: int)
    requires
        0 <= x < w,
        0 <= y < h,
    ensures
        0 <= pixel_offset(w, x, y),
        pixel_offset(w, x, y) + 4 <= 4 * w * h,
{
    assert(0 <= y * w) by (nonlinear_arith)
        requires
            0 <= y,
            0 <= w,
    ;
    assert(y * w + w <= h * w) by (nonlinear_arith)
        requires
            y < h,
            0 <= w,
    ;
    assert(4 * w * h == 4 * (h * w)) by (nonlinear_arith);
}

proof fn lemma_pixels_disjoint(w: int, a: int, b: int, x: int, y: int)
    requires
        0 <= a < w,
        0 <= x < w,
        0 <= b,
        0 <= y,
        a != x || b != y,
    ensures
        pixel_offset(w, a, b) + 4 <= pixel_offset(w, x, y) || pixel_offset(w, x, y) + 4
            <= pixel_offset(w, a, b),
{
    if b < y {
        assert(b * w + w <= y * w) by (nonlinear_arith)
            requires
                b < y,
                0 <= w,
        ;
    } else if y < b {
        assert(y * w + w <= b * w) by (nonlinear_arith)
            requires
                y < b,
                0 <= w,
        ;
    }
}

/// Writing pixel `(x, y)` changes that pixel and no other.
proof fn lemma_write_pixel(old: Seq<u8>, w: int, h: int, x: int, y: int, px: [u8; 4])
    requires
        0 <= x < w,
        0 <= y < h,
        old.len() >= 4 * w * h,
    ensures
        ({
            let new = with_pixel(old, pixel_offset(w, x, y), px);
            &&& new.len() == old.len()
            &&& forall|a: int, b: int|
                0 <= a < w && 0 <= b < h ==> #[trigger] pixel_at(new, w, a, b) == if a == x && b
                    == y {
                    px@
                } else {
                    pixel_at(old, w, a, b)
                }
            &&& forall|i: int| 4 * w * h <= i < old.len() ==> new[i] == old[i]
        }),
{
    let new = with_pixel(old, pixel_offset(w, x, y), px);
    lemma_pixel_in_buffer(w, h, x, y);
    assert forall|a: int, b: int| 0 <= a < w && 0 <= b < h implies #[trigger] pixel_at(
        new,
        w,
        a,
        b,
    ) == if a == x && b == y {
        px@
    } else {
        pixel_at(old, w, a, b)
    } by {
        lemma_pixel_in_buffer(w, h, a, b);
        if a == x && b == y {
            assert(pixel_at(new, w, a, b) =~= px@);
        } else {
            lemma_pixels_disjoint(w, a, b, x, y);
            assert(pixel_at(new, w, a, b) =~= pixel_at(old, w, a, b));
        }
    }
}

/// Sets every pixel with `x0 <= x < x1` and `y0 <= y < y1` to `px`.
fn fill_rect(
    img: &mut RgbaCanvas,
    width: u32,
    height: u32,
    x0: u32,
    x1: u32,
    y0: u32,
    y1: u32,
    px: [u8; 4],
)
    requires
        rgba_size(*old(img)) == (width, height),
        x1 <= width,
        y1 <= height,
        rgba_samples(*old(img)).len() >= 4 * width * height,
    ensures
        rgba_size(*final(img)) == rgba_size(*old(img)),
        painted(
            rgba_samples(*final(img)),
            rgba_samples(*old(img)),
            width as int,
            height as int,
            |a: int, b: int| x0 <= a < x1 && y0 <= b < y1,
            px@,
        ),
{
    let ghost orig = rgba_samples(*img);
    let ghost w = width as int;
    let ghost h = height as int;
    let mut py = y0;
    while py < y1
        invariant
            rgba_size(*img) == (width, height),
            w == width,
            h == height,
            x1 <= width,
            y1 <= height,
            y0 <= py,
            py <= y1 || py == y0,
            orig.len() >= 4 * w * h,
            painted(
                rgba_samples(*img),
                orig,
                w,
                h,
                |a: int, b: int| x0 <= a < x1 && y0 <= b < py,
                px@,
            ),
        decreases y1 - py,
    {
        let mut pxx = x0;
        while pxx < x1
            invariant
                rgba_size(*img) == (width, height),
                w == width,
                h == height,
                x1 <= width,
                y1 <= height,
                y0 <= py < y1,
                x0 <= pxx,
                pxx <= x1 || pxx == x0,
                orig.len() >= 4 * w * h,
                painted(
                    rgba_samples(*img),
                    orig,
                    w,
                    h,
                    |a: int, b: int| (x0 <= a < x1 && y0 <= b < py) || (b == py && x0 <= a < pxx),
                    px@,
                ),
            decreases x1 - pxx,
        {
            let ghost before = rgba_samples(*img);
            rgba_put_pixel(img, pxx, py, px);
            proof {
                lemma_write_pixel(before, w, h, pxx as int, py as int, px);
                let new = rgba_samples(*img);
                assert(new == with_pixel(before, pixel_offset(w, pxx as int, py as int), px));
                assert forall|a: int, b: int| 0 <= a < w && 0 <= b < h implies #[trigger] pixel_at(
                    new,
                    w,
                    a,
                    b,
                ) == if (x0 <= a < x1 && y0 <= b < py) || (b == py && x0 <= a < pxx + 1) {
                    px@
                } else {
                    pixel_at(orig, w, a, b)
                } by {
                    assert(pixel_at(new, w, a, b) == if a == pxx && b == py {
                        px@
                    } else {
                        pixel_at(before, w, a, b)
                    });
                }
            }
            pxx = pxx + 1;
        }
        proof {
            let cur = rgba_samples(*img);
            assert forall|a: int, b: int| 0 <= a < w && 0 <= b < h implies #[trigger] pixel_at(
                cur,
                w,
                a,
                b,
            ) == if x0 <= a < x1 && y0 <= b < py + 1 {
                px@
            } else {
                pixel_at(orig, w, a, b)
            } by {
                assert(pixel_at(cur, w, a, b) == if (x0 <= a < x1 && y0 <= b < py) || (b == py
                    && x0 <= a < pxx) {
                    px@
                } else {
                    pixel_at(orig, w, a, b)
                });
            }
        }
        py = py + 1;
    }
}

impl RasterizedPdfExporter {
    /// Blacks out, on the rendered page `page_index`, every pixel that a box of that
    /// page covers; boxes are in pixels and are clipped to the image. Boxes of other
    /// pages and every other byte of the buffer are left as they were.
    pub fn apply_redactions_to_image(
        img: &mut RgbaCanvas,
        page_index: u16,
        redactions: &[RedactionBox<u32>],
    )
        requires
            page_boxes_fit(redactions@, page_index),
        ensures
            rgba_size(*final(img)) == rgba_size(*old(img)),
            painted(
                rgba_samples(*final(img)),
                rgba_samples(*old(img)),
                rgba_size(*old(img)).0 as int,
                rgba_size(*old(img)).1 as int,
                |a: int, b: int| redacted_on_page(redactions@, page_index, a, b),
                black(),
            ),
    {
        let (width, height) = rgba_dimensions(img);
        let ghost orig = rgba_samples(*img);
        let ghost w = width as int;
        let ghost h = height as int;
        let black_px: [u8; 4] = [0, 0, 0, 255];
        assert(black_px@ =~= black());
        let mut k: usize = 0;
        while k < redactions.len()
            invariant
                rgba_size(*img) == (width, height),
                w == width,
                h == height,
                (width, height) == rgba_size(*old(img)),
                orig == rgba_samples(*old(img)),
                orig.len() >= 4 * w * h,
                black_px@ == black(),
                k <= redactions.len(),
                page_boxes_fit(redactions@, page_index),
                painted(
                    rgba_samples(*img),
                    orig,
                    w,
                    h,
                    |a: int, b: int| redacted_on_page(redactions@.take(k as int), page_index, a, b),
                    black(),
                ),
            decreases redactions.len() - k,
        {
            let r = redactions[k];
            let ghost prev = rgba_samples(*img);
            if r.page_index == page_index {
                let x_end = if r.x + r.width < width {
                    r.x + r.width
                } else {
                    width
                };
                let y_end = if r.y + r.height < height {
                    r.y + r.height
                } else {
                    height
                };
                fill_rect(img, width, height, r.x, x_end, r.y, y_end, black_px);
            }
            proof {
                let cur = rgba_samples(*img);
                let done = redactions@.take(k as int);
                let next = redactions@.take(k as int + 1);
                assert forall|a: int, b: int| 0 <= a < w && 0 <= b < h implies #[trigger] pixel_at(
                    cur,
                    w,
                    a,
                    b,
                ) == if redacted_on_page(next, page_index, a, b) {
                    black()
                } else {
                    pixel_at(orig, w, a, b)
                } by {
                    if redacted_on_page(done, page_index, a, b) {
                        let i = choose|i: int|
                            0 <= i < done.len() && #[trigger] done[i].page_index == page_index
                                && box_covers(done[i], a, b);
                        assert(next[i] == done[i]);
                    }
                    if r.page_index == page_index && box_covers(r, a, b) {
                        assert(next[k as int] == r);
                    }
                    if redacted_on_page(next, page_index, a, b) {
                        let i = choose|i: int|
                            0 <= i < next.len() && #[trigger] next[i].page_index == page_index
                                && box_covers(next[i], a, b);
                        if i < k {
                            assert(done[i] == next[i]);
                        }
                    }
                }
            }
            k = k + 1;
        }
        assert(redactions@.take(redactions.len() as int) =~= redactions@);
    }
}

} // verus!
