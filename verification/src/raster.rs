//! Ring rasterization: fills a row-major ARGB pixel buffer with a two-edge
//! annular ring, classifying every pixel by its squared distance from the
//! buffer's center — integer arithmetic only, no square roots.

use vstd::prelude::*;

verus! {

/// The four concentric boundary radii of the ring, outermost first. They are
/// derived by saturating subtraction, so they never go below zero and always
/// satisfy `outer >= line_outer >= line_inner >= inner`.
pub struct RingRadii {
    pub outer: u32,
    pub line_outer: u32,
    pub line_inner: u32,
    pub inner: u32,
}

/// The saturating chain `outer = radius`, `line_outer = outer - 1`,
/// `line_inner = line_outer - line_width`, `inner = line_inner - 1`.
pub open spec fn ring_radii_spec(radius: u32, line_width: u32) -> RingRadii {
    let outer = radius;
    let line_outer: u32 = if outer >= 1 { (outer - 1) as u32 } else { 0u32 };
    let line_inner: u32 = if line_outer >= line_width {
        (line_outer - line_width) as u32
    } else {
        0u32
    };
    let inner: u32 = if line_inner >= 1 { (line_inner - 1) as u32 } else { 0u32 };
    RingRadii { outer, line_outer, line_inner, inner }
}

/// Derives the four ring radii from the ring's radius and line width.
/// The radii are monotonically non-increasing from `outer` to `inner`;
/// a radius too small for all the bands saturates to zero, never underflows.
pub fn ring_radii(radius: u32, line_width: u32) -> (rr: RingRadii)
    ensures
        rr == ring_radii_spec(radius, line_width),
        rr.outer >= rr.line_outer,
        rr.line_outer >= rr.line_inner,
        rr.line_inner >= rr.inner,
{
    let outer = radius;
    let line_outer = outer.saturating_sub(1);
    let line_inner = line_outer.saturating_sub(line_width);
    let inner = line_inner.saturating_sub(1);
    RingRadii { outer, line_outer, line_inner, inner }
}

/// The color of a pixel at squared distance `dist_sq` from the center:
/// the edge color on the two halos (strictly between `line_outer` and
/// `outer`, or from `inner` up to but excluding `line_inner`), the fill
/// color on the band between them, fully transparent elsewhere.
pub open spec fn classify_spec(dist_sq: int, rr: RingRadii, fill: u32, edge: u32) -> u32 {
    let outer_sq = rr.outer * rr.outer;
    let line_outer_sq = rr.line_outer * rr.line_outer;
    let line_inner_sq = rr.line_inner * rr.line_inner;
    let inner_sq = rr.inner * rr.inner;
    if (inner_sq <= dist_sq && dist_sq < line_inner_sq)
        || (line_outer_sq < dist_sq && dist_sq <= outer_sq) {
        edge
    } else if line_inner_sq <= dist_sq && dist_sq <= line_outer_sq {
        fill
    } else {
        0u32
    }
}

/// A `u32` squared always fits in a `u64`.
proof fn lemma_u32_square_fits_u64(a: u32)
    ensures
        (a as int) * (a as int) <= 0xFFFF_FFFE_0000_0001,
{
    assert((a as int) * (a as int) <= 0xFFFF_FFFE_0000_0001) by (nonlinear_arith);
}

/// Classifies one pixel by its squared distance from the center, comparing
/// against the squares of the four ring radii.
pub fn classify_pixel(dist_sq: u64, rr: &RingRadii, fill: u32, edge: u32) -> (c: u32)
    ensures
        c == classify_spec(dist_sq as int, *rr, fill, edge),
{
    proof {
        lemma_u32_square_fits_u64(rr.outer);
        lemma_u32_square_fits_u64(rr.line_outer);
        lemma_u32_square_fits_u64(rr.line_inner);
        lemma_u32_square_fits_u64(rr.inner);
    }
    let outer_sq = (rr.outer as u64) * (rr.outer as u64);
    let line_outer_sq = (rr.line_outer as u64) * (rr.line_outer as u64);
    let line_inner_sq = (rr.line_inner as u64) * (rr.line_inner as u64);
    let inner_sq = (rr.inner as u64) * (rr.inner as u64);
    if (inner_sq <= dist_sq && dist_sq < line_inner_sq)
        || (line_outer_sq < dist_sq && dist_sq <= outer_sq) {
        edge
    } else if line_inner_sq <= dist_sq && dist_sq <= line_outer_sq {
        fill
    } else {
        0x0000_0000
    }
}

/// Absolute difference.
pub open spec fn abs_diff_spec(a: int, b: int) -> int {
    if a >= b { a - b } else { b - a }
}

/// Squared Euclidean distance of `(x, y)` from `(cx, cy)`.
pub open spec fn pixel_dist_sq(x: int, y: int, cx: int, cy: int) -> int {
    abs_diff_spec(x, cx) * abs_diff_spec(x, cx) + abs_diff_spec(y, cy) * abs_diff_spec(y, cy)
}

/// The color the rasterizer gives pixel `(x, y)` of a `w`-by-`h` buffer: its
/// squared distance from the center `(w / 2, h / 2)`, classified against the
/// ring radii derived from `radius` and `line_width`.
pub open spec fn ring_pixel_spec(
    x: int,
    y: int,
    w: u32,
    h: u32,
    radius: u32,
    line_width: u32,
    fill: u32,
    edge: u32,
) -> u32 {
    classify_spec(
        pixel_dist_sq(x, y, w as int / 2, h as int / 2),
        ring_radii_spec(radius, line_width),
        fill,
        edge,
    )
}

/// The whole rasterized frame: a row-major sequence of `w * h` pixels, each
/// the `ring_pixel_spec` color of its coordinates. Rasterization is a pure
/// function of its six arguments: this sequence is the one and only result.
pub open spec fn ring_buffer_spec(
    w: u32,
    h: u32,
    radius: u32,
    line_width: u32,
    fill: u32,
    edge: u32,
) -> Seq<u32> {
    Seq::new(
        (w as nat) * (h as nat),
        |i: int| ring_pixel_spec(i % (w as int), i / (w as int), w, h, radius, line_width, fill, edge),
    )
}

/// Squared pixel distances within a `w`-by-`h` buffer of at most `u32::MAX`
/// pixels fit in a `u64`.
proof fn lemma_dist_sq_fits_u64(dx: int, dy: int, w: int, h: int)
    requires
        0 <= dx < w,
        0 <= dy < h,
        w * h <= 0xFFFF_FFFF,
    ensures
        dx * dx + dy * dy <= 0xFFFF_FFFE_0000_0002,
{
    assert(dx * dx + dy * dy <= (w * h) * (w * h) + 1) by (nonlinear_arith)
        requires
            0 <= dx < w,
            0 <= dy < h,
    {
        assert(dx * dx <= (w - 1) * (w - 1));
        assert(dy * dy <= (h - 1) * (h - 1));
        assert((w * w - 1) * (h * h - 1) >= 0);
    }
    assert((w * h) * (w * h) <= 0xFFFF_FFFF * 0xFFFF_FFFF) by (nonlinear_arith)
        requires
            0 <= w * h <= 0xFFFF_FFFF,
    ;
}

/// Rasterizes one frame of the ring into `buf`, replacing whatever the buffer
/// held: afterwards it holds exactly the `width * height` row-major pixels of
/// `ring_buffer_spec`, whatever its previous length or contents — a buffer
/// just resized to new dimensions carries no stale pixels. The bound on
/// `width * height` keeps the pixel count within a 32-bit index.
#[verifier::loop_isolation(false)]
pub fn draw_ring(
    buf: &mut Vec<u32>,
    width: u32,
    height: u32,
    radius: u32,
    line_width: u32,
    fill_argb: u32,
    edge_argb: u32,
)
    requires
        width as int * height as int <= u32::MAX as int,
    ensures
        final(buf)@ == ring_buffer_spec(width, height, radius, line_width, fill_argb, edge_argb),
{
    let ghost target = ring_buffer_spec(width, height, radius, line_width, fill_argb, edge_argb);
    let rr = ring_radii(radius, line_width);
    let cx = width / 2;
    let cy = height / 2;
    buf.clear();
    let mut y: u32 = 0;
    while y < height
        invariant
            y <= height,
            buf@.len() == y as int * width as int,
            forall|i: int| 0 <= i < buf@.len() ==> buf@[i] == target[i],
        decreases height - y,
    {
        let dy = if y >= cy { y - cy } else { cy - y };
        let mut x: u32 = 0;
        while x < width
            invariant
                x <= width,
                y < height,
                buf@.len() == y as int * width as int + x as int,
                forall|i: int| 0 <= i < buf@.len() ==> buf@[i] == target[i],
            decreases width - x,
        {
            let dx = if x >= cx { x - cx } else { cx - x };
            proof {
                lemma_dist_sq_fits_u64(dx as int, dy as int, width as int, height as int);
            }
            let dist_sq = (dx as u64) * (dx as u64) + (dy as u64) * (dy as u64);
            let c = classify_pixel(dist_sq, &rr, fill_argb, edge_argb);
            proof {
                let i = y as int * width as int + x as int;
                assert(i < width as int * height as int) by (nonlinear_arith)
                    requires
                        0 <= x < width,
                        0 <= y < height,
                        i == y as int * width as int + x as int,
                ;
                vstd::arithmetic::div_mod::lemma_fundamental_div_mod_converse(
                    i, width as int, y as int, x as int);
                assert(dist_sq as int == pixel_dist_sq(x as int, y as int, cx as int, cy as int));
                assert(c == target[i]);
            }
            buf.push(c);
            x = x + 1;
        }
        proof {
            assert((y as int + 1) * width as int == y as int * width as int + width as int)
                by (nonlinear_arith);
        }
        y = y + 1;
    }
    proof {
        assert(height as int * width as int == (width as nat) * (height as nat))
            by (nonlinear_arith);
        assert(buf@ =~= target);
    }
}

/// Rasterization is deterministic: the buffer contents after a draw are a
/// pure function of the six arguments, so two draws with identical arguments
/// yield identical pixels.
pub proof fn lemma_raster_deterministic(
    b1: Seq<u32>,
    b2: Seq<u32>,
    width: u32,
    height: u32,
    radius: u32,
    line_width: u32,
    fill: u32,
    edge: u32,
)
    requires
        b1 == ring_buffer_spec(width, height, radius, line_width, fill, edge),
        b2 == ring_buffer_spec(width, height, radius, line_width, fill, edge),
    ensures
        b1 == b2,
{
}

} // verus!
