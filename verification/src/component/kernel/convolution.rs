use vstd::prelude::*;

use crate::component::primitive::limits::{DIMENSION_MAX, lemma_dimension_max};
use crate::component::kernel::within_margin;
use crate::component::primitive::{Margin, Offset, Point, Size, SizeCreationError};
use crate::component::primitive::point::shifted;
use crate::component::primitive::size::{shrink_result, valid_dims};
use crate::error::{IndexError, IndexResult};
use crate::image::{lemma_point_at, point_at};
use crate::component::primitive::size::{extend_result, size_result_view};

verus! {

/// Error returned when a convolution kernel cannot be created.
#[derive(Debug, PartialEq, Eq, Structural, Clone, Copy)]
pub enum ConvolutionKernelCreationError {
    BufferLenMissmatch,
    MarginWidthTooBig,
    MarginHeightTooBig,
}

/// What [`convolution_kernel_size`] returns, in dimensions: one point extended by
/// `margin`, which must hold `buffer_len` weights.
pub open spec fn convolution_size_result(margin: (int, int, int, int), buffer_len: int) -> Result<(int, int), ConvolutionKernelCreationError> {
    match extend_result((1, 1), margin) {
        Ok(dims) => if buffer_len == dims.0 * dims.1 {
            Ok(dims)
        } else {
            Err(ConvolutionKernelCreationError::BufferLenMissmatch)
        },
        Err(SizeCreationError::WidthTooBig) => Err(ConvolutionKernelCreationError::MarginWidthTooBig),
        Err(_) => Err(ConvolutionKernelCreationError::MarginHeightTooBig),
    }
}

/// The size of a convolution kernel reading `margin` around each point: one point
/// extended by the margin.
///
/// Fails with `MarginWidthTooBig` or `MarginHeightTooBig` when that size cannot be
/// represented, and with `BufferLenMissmatch` when `buffer_len` is not its area.
pub fn convolution_kernel_size(margin: Margin, buffer_len: usize) -> (r: Result<Size, ConvolutionKernelCreationError>)
    ensures
        match convolution_size_result(margin@, buffer_len as int) {
            Ok(dims) => r is Ok && r->Ok_0@ == dims,
            Err(e) => r == Err::<Size, ConvolutionKernelCreationError>(e),
        },
{
    proof {
        lemma_dimension_max();
    }
    let unit = Size::new(1, 1).unwrap();
    let size = match unit.extend_by_margin(margin) {
        Ok(size) => size,
        Err(SizeCreationError::WidthTooBig) => return Err(ConvolutionKernelCreationError::MarginWidthTooBig),
        Err(_) => return Err(ConvolutionKernelCreationError::MarginHeightTooBig),
    };
    if buffer_len != size.area() {
        return Err(ConvolutionKernelCreationError::BufferLenMissmatch);
    }
    Ok(size)
}

/// The source point that weight `index`, row by row, of a convolution kernel of `size`
/// reading `margin` multiplies when the kernel is evaluated at `point`: the kernel is
/// flipped over the window of the margin around the point, so the weight at `(kx, ky)`
/// weighs the element at `(x + margin.right - kx, y + margin.bottom - ky)`. With an equal
/// margin on each side that is the point moved by the kernel's centre less the weight's
/// position.
pub open spec fn convolution_source(margin: Margin, size: Size, point: Point, index: int) -> Point {
    let kernel_point = point_at(size, index);
    shifted(point, margin@.1 - kernel_point@.0, margin@.2 - kernel_point@.1)
}

/// The source points, one per weight of a convolution kernel of `size` reading `margin`,
/// that the kernel multiplies when evaluated at `point` of a lens of `lens_size`.
///
/// Fails with `OutOfBounds` unless `point` lies at least the margin away from each border
/// of the lens.
pub fn convolution_points(margin: Margin, size: Size, lens_size: Size, point: Point) -> (r: IndexResult<Vec<Point>>)
    requires
        size@ == (1 + margin@.3 + margin@.1, 1 + margin@.0 + margin@.2),
    ensures
        !within_margin(lens_size, margin, point) ==> r == Err::<Vec<Point>, IndexError>(IndexError::OutOfBounds),
        within_margin(lens_size, margin, point) ==> {
            &&& r is Ok
            &&& r->Ok_0@.len() == size.spec_area()
            &&& forall|i: int| 0 <= i < size.spec_area() ==> #[trigger] r->Ok_0@[i] == convolution_source(margin, size, point, i)
            &&& forall|i: int| 0 <= i < size.spec_area() ==> lens_size.spec_contains(#[trigger] r->Ok_0@[i])
        },
{
    let (top, right, bottom, left) = (margin.top(), margin.right(), margin.bottom(), margin.left());
    let (width, height) = (lens_size.width(), lens_size.height());
    let (x, y) = (point.x(), point.y());
    let _ = (size.width(), size.height());
    proof {
        lemma_dimension_max();
        margin.lemma_view_nonneg();
        point.lemma_view_nonneg();
    }
    if !(left <= x && top <= y && x + right < width && y + bottom < height) {
        return Err(IndexError::OutOfBounds);
    }
    let corner = Point::new(right, bottom).unwrap();
    let area = size.area();
    let mut points: Vec<Point> = Vec::new();
    let mut i: usize = 0;
    while i < area
        invariant
            area == size.spec_area(),
            valid_dims(size@.0, size@.1),
            size@ == (1 + margin@.3 + margin@.1, 1 + margin@.0 + margin@.2),
            corner@ == (margin@.1, margin@.2),
            0 <= margin@.0 && 0 <= margin@.1 && 0 <= margin@.2 && 0 <= margin@.3,
            within_margin(lens_size, margin, point),
            lens_size@.0 <= DIMENSION_MAX,
            lens_size@.1 <= DIMENSION_MAX,
            i <= area,
            points@.len() == i,
            forall|j: int| 0 <= j < i ==> #[trigger] points@[j] == convolution_source(margin, size, point, j),
            forall|j: int| 0 <= j < i ==> lens_size.spec_contains(#[trigger] points@[j]),
        decreases area - i,
    {
        let kernel_point = Point::from_index(i, size).unwrap();
        proof {
            let k = lemma_point_at(size, i as int);
            Point::lemma_view_eq(kernel_point, k);
            Offset::lemma_with_components(corner@.0 - kernel_point@.0, corner@.1 - kernel_point@.1);
        }
        let offset = corner - kernel_point;
        let moved = point.translate(offset).unwrap();
        proof {
            let sx = point@.0 + margin@.1 - kernel_point@.0;
            let sy = point@.1 + margin@.2 - kernel_point@.1;
            Point::lemma_with_coords(sx, sy);
            Point::lemma_view_eq(moved, Point::with_coords(sx, sy));
        }
        points.push(moved);
        i = i + 1;
    }
    Ok(points)
}

} // verus!
