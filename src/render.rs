//! Turning the machine's framebuffer into the filled rectangles that show it.
use vstd::prelude::*;

verus! {

/// An axis-aligned rectangle on the window surface, in real pixels.
#[derive(Clone, Copy, Debug, PartialEq, Eq, Structural)]
pub struct Rect {
    pub x: i32,
    pub y: i32,
    pub w: u32,
    pub h: u32,
}

/// The S x S block that shows the emulated pixel at linear position `i` of a
/// row-major framebuffer `width` pixels wide.
pub open spec fn cell_rect(i: int, width: int, scale: int) -> Rect {
    Rect {
        x: ((i % width) * scale) as i32,
        y: ((i / width) * scale) as i32,
        w: scale as u32,
        h: scale as u32,
    }
}

/// The rectangles for the set pixels among the first `n` of `pixels`, in the
/// order of their positions.
pub open spec fn rects_upto(pixels: Seq<bool>, width: int, scale: int, n: int) -> Seq<Rect>
    decreases n,
{
    if n <= 0 {
        seq![]
    } else if pixels[n - 1] {
        rects_upto(pixels, width, scale, n - 1).push(cell_rect(n - 1, width, scale))
    } else {
        rects_upto(pixels, width, scale, n - 1)
    }
}

/// The rectangles that show the whole framebuffer.
pub open spec fn frame_rects(pixels: Seq<bool>, width: int, scale: int) -> Seq<Rect> {
    rects_upto(pixels, width, scale, pixels.len() as int)
}

/// The number of set pixels among the first `n` of `pixels`.
pub open spec fn count_set(pixels: Seq<bool>, n: int) -> nat
    decreases n,
{
    if n <= 0 {
        0
    } else {
        count_set(pixels, n - 1) + if pixels[n - 1] { 1nat } else { 0nat }
    }
}

/// The rectangles to fill, over a cleared surface, so that it shows
/// `pixels`: one `scale` x `scale` block per set pixel, none for a clear one.
pub fn screen_rects(pixels: &[bool], width: usize, scale: u32) -> (r: Vec<Rect>)
    requires
        width > 0,
        scale > 0,
        pixels@.len() * scale <= i32::MAX,
    ensures
        r@ == frame_rects(pixels@, width as int, scale as int),
{
    let mut r: Vec<Rect> = Vec::new();
    let mut i: usize = 0;
    while i < pixels.len()
        invariant
            width > 0,
            scale > 0,
            pixels@.len() * scale <= i32::MAX,
            i <= pixels@.len(),
            r@ == rects_upto(pixels@, width as int, scale as int, i as int),
        decreases pixels@.len() - i,
    {
        if pixels[i] {
            let x: usize = i % width;
            let y: usize = i / width;
            proof {
                assert(x <= i) by (nonlinear_arith)
                    requires x == i % width, width > 0;
                assert(y <= i) by (nonlinear_arith)
                    requires y == i / width, width > 0;
                assert(x * scale <= i * scale && y * scale <= i * scale) by (nonlinear_arith)
                    requires x <= i, y <= i;
                assert(i * scale < pixels@.len() * scale) by (nonlinear_arith)
                    requires i < pixels@.len(), scale > 0;
            }
            assert(pixels@.len() <= i32::MAX) by (nonlinear_arith)
                requires pixels@.len() * scale <= i32::MAX, scale > 0;
            let rect = Rect {
                x: (x as u32 * scale) as i32,
                y: (y as u32 * scale) as i32,
                w: scale,
                h: scale,
            };
            r.push(rect);
        }
        i = i + 1;
    }
    r
}

/// Every set pixel is shown by the block at its position, and every drawn
/// block shows a set pixel.
pub proof fn lemma_rects_match_set_pixels(pixels: Seq<bool>, width: int, scale: int, n: int)
    requires
        0 <= n <= pixels.len(),
    ensures
        forall|i: int| 0 <= i < n && pixels[i] ==> rects_upto(pixels, width, scale, n).contains(
            cell_rect(i, width, scale),
        ),
        forall|k: int|
            0 <= k < rects_upto(pixels, width, scale, n).len() ==> exists|i: int|
                0 <= i < n && pixels[i] && #[trigger] rects_upto(pixels, width, scale, n)[k]
                    == cell_rect(i, width, scale),
        rects_upto(pixels, width, scale, n).len() == count_set(pixels, n),
    decreases n,
{
    if n > 0 {
        lemma_rects_match_set_pixels(pixels, width, scale, n - 1);
        let prev = rects_upto(pixels, width, scale, n - 1);
        let cur = rects_upto(pixels, width, scale, n);
        assert forall|i: int| 0 <= i < n && pixels[i] implies cur.contains(
            cell_rect(i, width, scale),
        ) by {
            if i < n - 1 {
                let k = choose|k: int| 0 <= k < prev.len() && prev[k] == cell_rect(i, width, scale);
                assert(cur[k] == prev[k]);
            } else {
                assert(cur[cur.len() - 1] == cell_rect(i, width, scale));
            }
        }
        assert forall|k: int| 0 <= k < cur.len() implies exists|i: int|
            0 <= i < n && pixels[i] && #[trigger] cur[k] == cell_rect(i, width, scale) by {
            if k < prev.len() {
                assert(cur[k] == prev[k]);
                let i = choose|i: int|
                    0 <= i < n - 1 && pixels[i] && #[trigger] prev[k] == cell_rect(i, width, scale);
                assert(0 <= i < n && pixels[i] && cur[k] == cell_rect(i, width, scale));
            } else {
                assert(cur[k] == cell_rect(n - 1, width, scale));
            }
        }
    }
}

/// A framebuffer with no set pixel is drawn with no rectangle.
pub proof fn lemma_clear_frame_draws_nothing(pixels: Seq<bool>, width: int, scale: int)
    requires
        forall|i: int| 0 <= i < pixels.len() ==> !pixels[i],
    ensures
        frame_rects(pixels, width, scale).len() == 0,
{
    lemma_rects_match_set_pixels(pixels, width, scale, pixels.len() as int);
    let r = frame_rects(pixels, width, scale);
    if r.len() > 0 {
        assert(r[0] == rects_upto(pixels, width, scale, pixels.len() as int)[0]);
        let i = choose|i: int|
            0 <= i < pixels.len() && pixels[i] && #[trigger] rects_upto(
                pixels,
                width,
                scale,
                pixels.len() as int,
            )[0] == cell_rect(i, width, scale);
        assert(!pixels[i]);
    }
}

} // verus!
