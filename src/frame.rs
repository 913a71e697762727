use vstd::prelude::*;

use crate::color::{argb, draw, drawn, pack_color};

verus! {

/// Column of cell `index` in a frame `width` cells wide.
pub open spec fn column_of(index: int, width: int) -> int {
    index % width
}

/// Row of cell `index` in a frame `width` cells wide.
pub open spec fn row_of(index: int, width: int) -> int {
    index / width
}

/// Cell `c` at row-major position `index` of a `width` by `height` frame
/// holds the packed color that [`draw`] gives its pixel.
pub open spec fn painted<F: Fn(u32, u32) -> u8>(
    c: u32,
    index: int,
    width: u32,
    height: u32,
    shade: F,
) -> bool {
    exists|rgb: (u8, u8, u8)|
        {
            &&& drawn(
                column_of(index, width as int) as u32,
                row_of(index, width as int) as u32,
                width,
                height,
                shade,
                rgb,
            )
            &&& c == argb(rgb.0 as int, rgb.1 as int, rgb.2 as int)
        }
}

/// Row-major addressing is a one-to-one map between the cells
/// `0 .. width * height` and the pixels of the frame: each cell names a
/// pixel inside the frame, and `row * width + column` leads back to it.
pub proof fn lemma_row_major(index: int, width: int, height: int)
    requires
        width > 0,
        height > 0,
        0 <= index < width * height,
    ensures
        0 <= column_of(index, width) < width,
        0 <= row_of(index, width) < height,
        row_of(index, width) * width + column_of(index, width) == index,
{
    vstd::arithmetic::div_mod::lemma_fundamental_div_mod(index, width);
    vstd::arithmetic::div_mod::lemma_mod_bound(index, width);
    vstd::arithmetic::div_mod::lemma_div_pos_is_pos(index, width);
    let q = index / width;
    let r = index % width;
    assert(q < height) by (nonlinear_arith)
        requires
            index == width * q + r,
            0 <= r,
            index < width * height,
            width > 0,
    ;
    assert(q * width == width * q) by (nonlinear_arith);
}

/// Two different cells never name the same pixel, so painting every cell
/// once writes every pixel once.
pub proof fn lemma_row_major_distinct(i: int, j: int, width: int, height: int)
    requires
        width > 0,
        height > 0,
        0 <= i < width * height,
        0 <= j < width * height,
        i != j,
    ensures
        column_of(i, width) != column_of(j, width) || row_of(i, width) != row_of(j, width),
{
    lemma_row_major(i, width, height);
    lemma_row_major(j, width, height);
}

/// Paints a whole `width` by `height` frame, held row-major in `buf`: each
/// cell gets the packed color of its own pixel, and nothing else changes.
pub fn paint<F: Fn(u32, u32) -> u8>(buf: &mut [u32], width: u32, height: u32, shade: &F)
    requires
        width > 0,
        height > 0,
        old(buf)@.len() == width as int * height as int,
        forall|x: u32, y: u32| x < width && y < height ==> shade.requires((x, y)),
    ensures
        final(buf)@.len() == old(buf)@.len(),
        forall|i: int|
            0 <= i < final(buf)@.len() ==> painted(#[trigger] final(buf)@[i], i, width, height, *shade),
{
    let n = buf.len();
    let w = width as usize;
    let mut i: usize = 0;
    while i < n
        invariant
            w == width,
            n == buf@.len(),
            n == width as int * height as int,
            width > 0,
            height > 0,
            0 <= i <= n,
            forall|x: u32, y: u32| x < width && y < height ==> shade.requires((x, y)),
            forall|j: int| 0 <= j < i ==> painted(#[trigger] buf@[j], j, width, height, *shade),
        decreases n - i,
    {
        proof {
            lemma_row_major(i as int, width as int, height as int);
        }
        let x = (i % w) as u32;
        let y = (i / w) as u32;
        let rgb = draw(x, y, width, height, shade);
        buf[i] = pack_color(rgb.0, rgb.1, rgb.2);
        assert(painted(buf@[i as int], i as int, width, height, *shade));
        i = i + 1;
    }
}

} // verus!
