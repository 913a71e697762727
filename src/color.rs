use vstd::prelude::*;

verus! {

/// Full intensity of the red channel, reached at the bottom edge.
pub const RED_DEPTH: u64 = 255;

/// Full intensity of the green channel, reached at the right edge.
pub const GREEN_DEPTH: u64 = 120;

/// The red channel: a vertical ramp, `y / height` of the full depth,
/// truncated toward zero.
pub open spec fn red_level(y: int, height: int) -> int {
    RED_DEPTH * y / height
}

/// The green channel: a horizontal ramp, `x / width` of the full depth,
/// truncated toward zero.
pub open spec fn green_level(x: int, width: int) -> int {
    GREEN_DEPTH * x / width
}

/// An opaque pixel in `0xAARRGGBB` layout, alpha fully set.
pub open spec fn argb(r: int, g: int, b: int) -> int {
    0xFF00_0000 + r * 0x1_0000 + g * 0x100 + b
}

/// `c` is the color that [`draw`] gives pixel `(x, y)` of a `width` by
/// `height` frame, with blue one that `shade` may return for that pixel.
pub open spec fn drawn<F: Fn(u32, u32) -> u8>(
    x: u32,
    y: u32,
    width: u32,
    height: u32,
    shade: F,
    c: (u8, u8, u8),
) -> bool {
    &&& c.0 == red_level(y as int, height as int)
    &&& c.1 == green_level(x as int, width as int)
    &&& shade.ensures((x, y), c.2)
}

/// A ramp `depth * v / n` over `0 <= v < n` stays within `0 ..= depth`.
proof fn lemma_ramp_bounded(depth: int, v: int, n: int)
    requires
        0 <= depth,
        0 <= v < n,
    ensures
        0 <= depth * v / n <= depth,
{
    assert(0 <= depth * v / n <= depth) by (nonlinear_arith)
        requires
            0 <= depth,
            0 <= v < n,
    ;
}

/// Packs a color into one opaque `0xAARRGGBB` cell.
pub fn pack_color(r: u8, g: u8, b: u8) -> (c: u32)
    ensures
        c == argb(r as int, g as int, b as int),
{
    0xFF00_0000u32 + (r as u32) * 0x1_0000 + (g as u32) * 0x100 + (b as u32)
}

/// The color of pixel `(x, y)` in a `width` by `height` frame.
///
/// Red and green are linear ramps over the frame. Blue comes from `shade`,
/// the ring pattern, which is handed the coordinates alone: it never sees the
/// frame's size, so on a resize the rings re-tile instead of stretching.
pub fn draw<F: Fn(u32, u32) -> u8>(x: u32, y: u32, width: u32, height: u32, shade: &F) -> (r: (
    u8,
    u8,
    u8,
))
    requires
        x < width,
        y < height,
        shade.requires((x, y)),
    ensures
        drawn(x, y, width, height, *shade, r),
{
    let ry = (RED_DEPTH * (y as u64)) / (height as u64);
    let gx = (GREEN_DEPTH * (x as u64)) / (width as u64);
    proof {
        lemma_ramp_bounded(RED_DEPTH as int, y as int, height as int);
        lemma_ramp_bounded(GREEN_DEPTH as int, x as int, width as int);
    }
    let b = shade(x, y);
    (ry as u8, gx as u8, b)
}

/// The color of a pixel is fixed by its coordinates, the frame's size and
/// the ring shade: two colors drawn for the same pixel agree wherever the
/// shade gives that pixel a single value.
pub proof fn lemma_draw_deterministic<F: Fn(u32, u32) -> u8>(
    x: u32,
    y: u32,
    width: u32,
    height: u32,
    shade: F,
    c1: (u8, u8, u8),
    c2: (u8, u8, u8),
)
    requires
        x < width,
        y < height,
        drawn(x, y, width, height, shade, c1),
        drawn(x, y, width, height, shade, c2),
        forall|b1: u8, b2: u8|
            shade.ensures((x, y), b1) && shade.ensures((x, y), b2) ==> b1 == b2,
    ensures
        c1 == c2,
{
}

/// The top-left pixel has no red and no green, whatever the frame's size:
/// its color is the ring shade alone.
pub proof fn lemma_origin_color<F: Fn(u32, u32) -> u8>(
    width: u32,
    height: u32,
    shade: F,
    c: (u8, u8, u8),
)
    requires
        width > 0,
        height > 0,
        drawn(0, 0, width, height, shade, c),
    ensures
        c.0 == 0,
        c.1 == 0,
        shade.ensures((0u32, 0u32), c.2),
{
}

/// Moving down a column never lowers the red channel.
pub proof fn lemma_red_monotone(y1: int, y2: int, height: int)
    requires
        0 <= y1 <= y2 < height,
    ensures
        red_level(y1, height) <= red_level(y2, height),
{
    lemma_ramp_monotone(RED_DEPTH as int, y1, y2, height);
}

/// Moving right along a row never lowers the green channel.
pub proof fn lemma_green_monotone(x1: int, x2: int, width: int)
    requires
        0 <= x1 <= x2 < width,
    ensures
        green_level(x1, width) <= green_level(x2, width),
{
    lemma_ramp_monotone(GREEN_DEPTH as int, x1, x2, width);
}

proof fn lemma_ramp_monotone(depth: int, v1: int, v2: int, n: int)
    requires
        0 <= depth,
        0 <= v1 <= v2 < n,
    ensures
        depth * v1 / n <= depth * v2 / n,
{
    assert(depth * v1 <= depth * v2) by (nonlinear_arith)
        requires
            0 <= depth,
            v1 <= v2,
    ;
    vstd::arithmetic::div_mod::lemma_div_is_ordered(depth * v1, depth * v2, n);
}

} // verus!
