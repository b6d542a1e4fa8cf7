use vstd::prelude::*;

verus! {

/// Half the width of the level ground made under each cannon.
pub const FLAT_HALF_WIDTH: usize = 50;

/// Mask value of a pixel in `row` of a column whose ground surface is at
/// `surface`: opaque below the surface (rows grow downwards), clear above.
pub open spec fn mask_value(row: int, surface: int) -> u8 {
    if row >= surface {
        255
    } else {
        0
    }
}

/// Byte `b` of an RGBA mask, `width` pixels wide and stored row by row,
/// for a terrain whose surface in column `i` is at row `contour[i]`.
pub open spec fn mask_byte(contour: Seq<u32>, width: int, b: int) -> u8 {
    let pixel: int = b / 4;
    mask_value(pixel / width, contour[pixel % width] as int)
}

/// Fills the first `4 * width * height` bytes of `buffer` with an RGBA
/// image of `width` by `height` pixels, stored row by row: the terrain mask
/// of `contour`. All four bytes of a pixel are 255 at or below the surface
/// row of its column, 0 above it. Bytes past the image are left as they are.
pub fn generate_foreground_mask_buffer(
    buffer: &mut Vec<u8>,
    contour: &Vec<u32>,
    width: u32,
    height: u32,
)
    requires
        contour.len() >= width,
        old(buffer).len() >= 4 * width * height,
    ensures
        final(buffer).len() == old(buffer).len(),
        forall|b: int|
            0 <= b < 4 * width * height ==> #[trigger] final(buffer)[b] == mask_byte(
                contour@,
                width as int,
                b,
            ),
        forall|b: int|
            4 * width * height <= b < old(buffer).len() ==> #[trigger] final(buffer)[b]
                == old(buffer)[b],
{
    let w: usize = width as usize;
    let h: usize = height as usize;
    proof {
        assert(w * h <= 4 * w * h) by (nonlinear_arith);
        assert(4 * w * h == 4 * (w * h)) by (nonlinear_arith);
    }
    let size: usize = 4 * (w * h);
    let ghost before = buffer@;
    let mut b: usize = 0;
    while b < size
        invariant
            buffer.len() == before.len(),
            size == 4 * width * height,
            size <= before.len(),
            w == width,
            contour.len() >= w,
            b <= size,
            forall|c: int|
                0 <= c < b ==> #[trigger] buffer[c] == mask_byte(contour@, width as int, c),
            forall|c: int| size <= c < before.len() ==> #[trigger] buffer[c] == before[c],
        decreases size - b,
    {
        proof {
            if w == 0 {
                assert(4 * width * height == 0) by (nonlinear_arith)
                    requires
                        width == 0,
                ;
            }
        }
        let pixel: usize = b / 4;
        let column: usize = pixel % w;
        let row: usize = pixel / w;
        let value: u8 = if row >= contour[column] as usize {
            255
        } else {
            0
        };
        buffer.set(b, value);
        b = b + 1;
    }
}

/// Levels the ground under a cannon standing at column `position`: the
/// columns from `position - FLAT_HALF_WIDTH` up to (not including)
/// `position + FLAT_HALF_WIDTH`, cut at the terrain's edge, take the height
/// of the first of them. Nothing changes when that stretch starts past the
/// terrain's end.
pub fn flatten_under<T: Copy>(contour: &mut Vec<T>, position: usize)
    requires
        FLAT_HALF_WIDTH <= position,
        position + FLAT_HALF_WIDTH <= usize::MAX,
    ensures
        final(contour).len() == old(contour).len(),
        forall|i: int|
            0 <= i < old(contour).len() ==> #[trigger] final(contour)[i] == if position
                - FLAT_HALF_WIDTH <= i < position + FLAT_HALF_WIDTH {
                old(contour)[position - FLAT_HALF_WIDTH]
            } else {
                old(contour)[i]
            },
{
    let start: usize = position - FLAT_HALF_WIDTH;
    let end: usize = if position + FLAT_HALF_WIDTH < contour.len() {
        position + FLAT_HALF_WIDTH
    } else {
        contour.len()
    };
    if start >= contour.len() {
        return;
    }
    let height = contour[start];
    let ghost before = contour@;
    let mut i: usize = start;
    while i < end
        invariant
            start <= i <= end,
            end <= contour.len(),
            contour.len() == before.len(),
            start < before.len(),
            height == before[start as int],
            end == if position + FLAT_HALF_WIDTH < before.len() {
                (position + FLAT_HALF_WIDTH) as int
            } else {
                before.len() as int
            },
            forall|j: int|
                0 <= j < before.len() ==> #[trigger] contour[j] == if start <= j < i {
                    height
                } else {
                    before[j]
                },
        decreases end - i,
    {
        contour.set(i, height);
        i = i + 1;
    }
}

} // verus!
