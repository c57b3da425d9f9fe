//! Flat ARGB window buffers built from value matrices: helpers for display
//! paths that want one `u32` per pixel instead of RGBA byte quads.

use vstd::arithmetic::div_mod::lemma_fundamental_div_mod_converse;
use vstd::arithmetic::div_mod::lemma_mod_division_less_than_divisor;
use vstd::arithmetic::div_mod::lemma_multiply_divide_lt;
use vstd::prelude::*;

verus! {

/// A grayscale intensity packed as one ARGB pixel: R = G = B = `val`, with
/// the alpha byte left at zero.
pub open spec fn spec_to_argb(val: u32) -> u32 {
    (val << 16) | (val << 8) | val
}

/// Pack a grayscale intensity as one ARGB `u32` pixel.
pub fn to_argb(val: u32) -> (r: u32)
    ensures
        r == spec_to_argb(val),
{
    (val << 16) | (val << 8) | val
}

/// Flatten a rectangular matrix of grayscale values into a row-major ARGB
/// buffer, one pixel per matrix cell.
pub fn matrix2buffer_simple(matrix: &Vec<Vec<u32>>) -> (r: Vec<u32>)
    requires
        matrix@.len() >= 1,
        forall|y: int|
            0 <= y < matrix@.len() ==> (#[trigger] matrix@[y])@.len() == matrix@[0]@.len(),
        matrix@.len() * matrix@[0]@.len() <= usize::MAX,
    ensures
        r@.len() == matrix@.len() * matrix@[0]@.len(),
        forall|k: int|
            0 <= k < r@.len() ==> #[trigger] r@[k] == spec_to_argb(
                matrix@[k / matrix@[0]@.len() as int]@[k % matrix@[0]@.len() as int],
            ),
{
    let height = matrix.len();
    let width = matrix[0].len();
    proof {
        vstd::arithmetic::mul::lemma_mul_nonnegative(height as int, width as int);
    }
    let mut buffer: Vec<u32> = Vec::new();
    let mut y: usize = 0;
    while y < height
        invariant
            height == matrix@.len(),
            width == matrix@[0]@.len(),
            height >= 1,
            forall|yy: int| 0 <= yy < height ==> (#[trigger] matrix@[yy])@.len() == width,
            height * width <= usize::MAX,
            0 <= y <= height,
            buffer@.len() == y * width,
            y * width <= height * width,
            forall|k: int|
                0 <= k < buffer@.len() ==> #[trigger] buffer@[k] == spec_to_argb(
                    matrix@[k / width as int]@[k % width as int],
                ),
        decreases height - y,
    {
        let mut x: usize = 0;
        proof {
            assert((y + 1) * width == y * width + width) by (nonlinear_arith);
            assert((y + 1) * width <= height * width) by (nonlinear_arith)
                requires
                    y + 1 <= height,
                    width >= 0,
            ;
        }
        while x < width
            invariant
                height == matrix@.len(),
                width == matrix@[0]@.len(),
                forall|yy: int| 0 <= yy < height ==> (#[trigger] matrix@[yy])@.len() == width,
                0 <= y < height,
                0 <= x <= width,
                y * width + width <= height * width,
                buffer@.len() == y * width + x,
                forall|k: int|
                    0 <= k < buffer@.len() ==> #[trigger] buffer@[k] == spec_to_argb(
                        matrix@[k / width as int]@[k % width as int],
                    ),
            decreases width - x,
        {
            proof {
                lemma_fundamental_div_mod_converse(
                    y as int * width as int + x as int,
                    width as int,
                    y as int,
                    x as int,
                );
            }
            let row = &matrix[y];
            buffer.push(to_argb(row[x]));
            x = x + 1;
        }
        proof {
            assert((y + 1) * width == y * width + width) by (nonlinear_arith);
        }
        y = y + 1;
    }
    buffer
}

/// Flatten a matrix of colour indices into a row-major ARGB buffer, scaling
/// each cell to a block of `xscale` by `yscale` identical pixels, coloured
/// from the palette.
pub fn matrix2buffer_color(
    matrix: &Vec<Vec<u32>>,
    colors: &Vec<u32>,
    xscale: usize,
    yscale: usize,
) -> (r: Vec<u32>)
    requires
        matrix@.len() >= 1,
        forall|y: int|
            0 <= y < matrix@.len() ==> (#[trigger] matrix@[y])@.len() == matrix@[0]@.len(),
        forall|y: int, x: int|
            0 <= y < matrix@.len() && 0 <= x < matrix@[0]@.len() ==> (#[trigger] matrix@[y]@[x])
                < colors@.len(),
        matrix@[0]@.len() * xscale <= usize::MAX,
        matrix@.len() * yscale <= usize::MAX,
        (matrix@[0]@.len() * xscale) * (matrix@.len() * yscale) <= usize::MAX,
    ensures
        r@.len() == (matrix@[0]@.len() * xscale) * (matrix@.len() * yscale),
        forall|k: int|
            0 <= k < r@.len() ==> #[trigger] r@[k] == colors@[matrix@[(k / (matrix@[0]@.len()
                * xscale) as int) / yscale as int]@[(k % (matrix@[0]@.len() * xscale) as int)
                / xscale as int] as int],
{
    let height = matrix.len();
    let width = matrix[0].len();
    let window_width = width * xscale;
    let window_height = height * yscale;
    let total = window_width * window_height;
    let mut buffer: Vec<u32> = Vec::new();
    let mut m: usize = 0;
    while m < total
        invariant
            height == matrix@.len(),
            width == matrix@[0]@.len(),
            height >= 1,
            forall|yy: int| 0 <= yy < height ==> (#[trigger] matrix@[yy])@.len() == width,
            forall|yy: int, xx: int|
                0 <= yy < height && 0 <= xx < width ==> (#[trigger] matrix@[yy]@[xx])
                    < colors@.len(),
            window_width == width * xscale,
            window_height == height * yscale,
            total == window_width * window_height,
            0 <= m <= total,
            buffer@.len() == m,
            forall|k: int|
                0 <= k < buffer@.len() ==> #[trigger] buffer@[k] == colors@[matrix@[(k
                    / window_width as int) / yscale as int]@[(k % window_width as int)
                    / xscale as int] as int],
        decreases total - m,
    {
        proof {
            assert(window_width > 0 && window_height > 0) by (nonlinear_arith)
                requires
                    m < total,
                    m >= 0,
                    total == window_width * window_height,
            ;
            assert(xscale > 0 && yscale > 0) by (nonlinear_arith)
                requires
                    window_width == width * xscale,
                    window_height == height * yscale,
                    window_width > 0,
                    window_height > 0,
            ;
            lemma_mod_division_less_than_divisor(m as int, window_width as int);
            lemma_multiply_divide_lt(m as int, window_width as int, window_height as int);
        }
        let py = m / window_width;
        let px = m % window_width;
        proof {
            assert(py < yscale * height && px < xscale * width) by (nonlinear_arith)
                requires
                    py < window_height,
                    px < window_width,
                    window_height == height * yscale,
                    window_width == width * xscale,
            ;
            lemma_multiply_divide_lt(py as int, yscale as int, height as int);
            lemma_multiply_divide_lt(px as int, xscale as int, width as int);
        }
        let y = py / yscale;
        let x = px / xscale;
        let row = &matrix[y];
        let color = colors[row[x] as usize];
        buffer.push(color);
        m = m + 1;
    }
    buffer
}

} // verus!
