//! Size of the rendered image and of the buffer that holds it.

use vstd::prelude::*;
use crate::pixel::BLACK;

verus! {

/// Narrowest image that is rendered.
pub const MIN_WIDTH: usize = 200;

/// Widest image that is rendered.
pub const MAX_WIDTH: usize = 2000;

/// Lowest image that is rendered.
pub const MIN_HEIGHT: usize = 150;

/// Highest image that is rendered.
pub const MAX_HEIGHT: usize = 1500;

/// The value of `lower..=upper` nearest to `value`.
pub open spec fn nearest(value: int, lower: int, upper: int) -> int {
    if value < lower {
        lower
    } else if value > upper {
        upper
    } else {
        value
    }
}

/// A buffer brought to `len` cells: the cells it had are kept in place, as
/// far as they fit, and new cells are black.
pub open spec fn fitted(buffer: Seq<u32>, len: int) -> Seq<u32> {
    Seq::new(
        len as nat,
        |i: int|
            if i < buffer.len() {
                buffer[i]
            } else {
                BLACK
            },
    )
}

/// The image size for a display area of the given size in pixels: each side
/// is held to its range, so that the pixel count stays small enough for any
/// machine word.
pub fn render_size(display_width: usize, display_height: usize) -> (size: (usize, usize))
    ensures
        size.0 as int == nearest(display_width as int, MIN_WIDTH as int, MAX_WIDTH as int),
        size.1 as int == nearest(display_height as int, MIN_HEIGHT as int, MAX_HEIGHT as int),
        size.0 * size.1 <= MAX_WIDTH * MAX_HEIGHT,
{
    let width: usize = if display_width < MIN_WIDTH {
        MIN_WIDTH
    } else if display_width > MAX_WIDTH {
        MAX_WIDTH
    } else {
        display_width
    };
    let height: usize = if display_height < MIN_HEIGHT {
        MIN_HEIGHT
    } else if display_height > MAX_HEIGHT {
        MAX_HEIGHT
    } else {
        display_height
    };
    assert(width * height <= MAX_WIDTH * MAX_HEIGHT) by (nonlinear_arith)
        requires
            width <= MAX_WIDTH,
            height <= MAX_HEIGHT,
    ;
    (width, height)
}

/// Brings the buffer to `width * height` cells and says whether its length
/// changed.
pub fn fit_buffer(buffer: &mut Vec<u32>, width: usize, height: usize) -> (changed: bool)
    requires
        width * height <= usize::MAX,
    ensures
        final(buffer)@ == fitted(old(buffer)@, width * height),
        changed <==> old(buffer)@.len() != width * height,
{
    let len: usize = width * height;
    if buffer.len() == len {
        false
    } else {
        buffer.resize(len, BLACK);
        true
    }
}

} // verus!
