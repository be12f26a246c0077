//! Sizes of surfaces, in logical units or in pixels.

use std::ops::Mul;
use vstd::prelude::*;
use vstd::std_specs::ops::MulSpecImpl;

verus! {

/// Width and height of a surface.
#[derive(Copy, Clone, Default, Debug, PartialEq, Eq, Structural)]
pub struct Size<T = i32> {
    pub width: T,
    pub height: T,
}

impl<T> Size<T> {
    /// A size of the given width and height.
    pub fn new(width: T, height: T) -> (size: Self)
        ensures
            size.width == width,
            size.height == height,
    {
        Self { width, height }
    }
}

/// The product of a length and a factor, held to the range of `i32`.
pub open spec fn saturating_product(length: int, factor: int) -> int {
    if length * factor > i32::MAX {
        i32::MAX as int
    } else if length * factor < i32::MIN {
        i32::MIN as int
    } else {
        length * factor
    }
}

/// Multiplies a length by a factor; a product beyond the range of `i32`
/// becomes the nearest bound.
pub fn scale_length(length: i32, factor: i32) -> (scaled: i32)
    ensures
        scaled == saturating_product(length as int, factor as int),
{
    assert(-0x4000_0000_0000_0000 <= length * factor <= 0x4000_0000_0000_0000) by (nonlinear_arith)
        requires
            -0x8000_0000 <= length <= 0x7fff_ffff,
            -0x8000_0000 <= factor <= 0x7fff_ffff,
    ;
    let wide: i64 = length as i64 * factor as i64;
    if wide > i32::MAX as i64 {
        i32::MAX
    } else if wide < i32::MIN as i64 {
        i32::MIN
    } else {
        wide as i32
    }
}

impl Mul<i32> for Size {
    type Output = Size;

    /// Scales both dimensions by an integer factor.
    fn mul(self, factor: i32) -> (scaled: Size) {
        Size {
            width: scale_length(self.width, factor),
            height: scale_length(self.height, factor),
        }
    }
}

impl MulSpecImpl<i32> for Size {
    open spec fn obeys_mul_spec() -> bool {
        true
    }

    open spec fn mul_req(self, factor: i32) -> bool {
        true
    }

    open spec fn mul_spec(self, factor: i32) -> Size {
        Size {
            width: saturating_product(self.width as int, factor as int) as i32,
            height: saturating_product(self.height as int, factor as int) as i32,
        }
    }
}

} // verus!
