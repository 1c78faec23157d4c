use vstd::prelude::*;

use crate::component::primitive::{Point, Size};
use crate::component::primitive::limits::lemma_dimension_max;
use crate::component::primitive::point::valid_coords;
use crate::error::OutOfBoundsError;

verus! {

/// Error returned by the gaussian blur of this module.
#[derive(Debug, PartialEq, Eq, Structural, Clone, Copy)]
pub enum Error {
    RadiusTooBig,
    InvalidSigma,
}

pub type Result<T> = core::result::Result<T, Error>;

/// The absolute value of `v`.
pub open spec fn abs(v: int) -> int {
    if v < 0 {
        -v
    } else {
        v
    }
}

/// Whether `offset` lies within a square kernel of the given radius centred on its
/// middle point.
pub open spec fn offset_within(offset: (i32, i32), radius: int) -> bool {
    abs(offset.0 as int) <= radius && abs(offset.1 as int) <= radius
}

/// Convert an offset from the middle of a square kernel of the given radius into a point
/// of the kernel, whose top left corner is `(0, 0)`.
///
/// The radius is taken as an `i32`, truncated as `as` does. Fails with
/// `OutOfBoundsError` when the offset lies outside the kernel or the point cannot be
/// represented.
pub fn offset_to_point(offset: (i32, i32), radius: usize) -> (r: core::result::Result<Point, OutOfBoundsError>)
    requires
        offset.0 > i32::MIN,
        offset.1 > i32::MIN,
        offset_within(offset, (radius as i32) as int) ==> offset.0 + (radius as i32) <= i32::MAX
            && offset.1 + (radius as i32) <= i32::MAX,
    ensures
        r is Ok <==> offset_within(offset, (radius as i32) as int) && valid_coords(
            offset.0 + (radius as i32),
            offset.1 + (radius as i32),
        ),
        r matches Ok(p) ==> p@ == (offset.0 + (radius as i32), offset.1 + (radius as i32)),
        r is Err ==> r == Err::<Point, OutOfBoundsError>(OutOfBoundsError),
{
    let radius_i32 = radius as i32;
    let ax: i32 = if offset.0 < 0 { -offset.0 } else { offset.0 };
    let ay: i32 = if offset.1 < 0 { -offset.1 } else { offset.1 };
    if ax > radius_i32 || ay > radius_i32 {
        return Err(OutOfBoundsError);
    }
    let x = offset.0 + radius_i32;
    let y = offset.1 + radius_i32;
    proof {
        lemma_dimension_max();
    }
    match Point::new(x as usize, y as usize) {
        Ok(point) => Ok(point),
        Err(_) => Err(OutOfBoundsError),
    }
}

/// Check that a square window of the given radius fits in an image of `size`: fails
/// with `RadiusTooBig` when `2 * radius + 1` exceeds its width or height.
pub fn validate_radius(size: Size, radius: usize) -> (r: Result<()>)
    ensures
        r is Err <==> size@.0 < 2 * radius + 1 || size@.1 < 2 * radius + 1,
        r is Err ==> r == Err::<(), Error>(Error::RadiusTooBig),
{
    let (width, height) = (size.width(), size.height());
    if radius > (width - 1) / 2 || radius > (height - 1) / 2 {
        return Err(Error::RadiusTooBig);
    }
    Ok(())
}

} // verus!
