use vstd::prelude::*;

use crate::component::kernel::convolution::ConvolutionKernelCreationError;
use crate::component::primitive::{Margin, Offset, Point, Size, SizeCreationError};
use crate::component::primitive::limits::{DIMENSION_MAX, lemma_dimension_max};
use crate::component::primitive::size::{extend_result, valid_dims};
use crate::image::{lemma_point_at, point_at};

verus! {

/// Error returned when a gaussian kernel cannot be created.
#[derive(Debug, PartialEq, Eq, Structural, Clone, Copy)]
pub enum GaussianKernelCreationError {
    InvalidSigma,
    ConvolutionKernelError(ConvolutionKernelCreationError),
    MarginWidthTooBig,
    MarginHeightTooBig,
}

impl core::convert::From<ConvolutionKernelCreationError> for GaussianKernelCreationError {
    fn from(value: ConvolutionKernelCreationError) -> (r: GaussianKernelCreationError) {
        GaussianKernelCreationError::ConvolutionKernelError(value)
    }
}

impl vstd::std_specs::convert::FromSpecImpl<ConvolutionKernelCreationError> for GaussianKernelCreationError {
    open spec fn obeys_from_spec() -> bool {
        true
    }

    open spec fn from_spec(v: ConvolutionKernelCreationError) -> GaussianKernelCreationError {
        GaussianKernelCreationError::ConvolutionKernelError(v)
    }
}

/// The size of a gaussian kernel reading `margin` around each point: one point extended
/// by the margin.
///
/// Fails with `MarginWidthTooBig` or `MarginHeightTooBig` when that size cannot be
/// represented.
pub fn gaussian_kernel_size(margin: Margin) -> (r: Result<Size, GaussianKernelCreationError>)
    ensures
        match extend_result((1, 1), margin@) {
            Ok(dims) => r is Ok && r->Ok_0@ == dims,
            Err(SizeCreationError::WidthTooBig) => r == Err::<Size, GaussianKernelCreationError>(GaussianKernelCreationError::MarginWidthTooBig),
            Err(_) => r == Err::<Size, GaussianKernelCreationError>(GaussianKernelCreationError::MarginHeightTooBig),
        },
{
    proof {
        lemma_dimension_max();
    }
    let unit = Size::new(1, 1).unwrap();
    match unit.extend_by_margin(margin) {
        Ok(size) => Ok(size),
        Err(SizeCreationError::WidthTooBig) => Err(GaussianKernelCreationError::MarginWidthTooBig),
        Err(_) => Err(GaussianKernelCreationError::MarginHeightTooBig),
    }
}

/// For each weight of a gaussian kernel of `size` reading `margin`, row by row, the
/// offset of its point from the kernel's centre `(margin.left, margin.top)`; the weight
/// is the gaussian function of that offset.
pub fn gaussian_offsets(margin: Margin, size: Size) -> (r: Vec<Offset>)
    requires
        size@ == (1 + margin@.3 + margin@.1, 1 + margin@.0 + margin@.2),
    ensures
        r@.len() == size.spec_area(),
        forall|i: int| 0 <= i < r@.len() ==> (#[trigger] r@[i])@ == (i % size@.0 - margin@.3, i / size@.0 - margin@.0),
{
    let area = size.area();
    let _ = (size.width(), size.height(), margin.left(), margin.top());
    proof {
        lemma_dimension_max();
        margin.lemma_view_nonneg();
    }
    let center = Point::new(margin.left(), margin.top()).unwrap();
    let mut offsets: Vec<Offset> = Vec::new();
    let mut i: usize = 0;
    while i < area
        invariant
            area == size.spec_area(),
            valid_dims(size@.0, size@.1),
            center@ == (margin@.3, margin@.0),
            0 <= margin@.3 < DIMENSION_MAX,
            0 <= margin@.0 < DIMENSION_MAX,
            i <= area,
            offsets@.len() == i,
            forall|j: int| 0 <= j < i ==> (#[trigger] offsets@[j])@ == (j % size@.0 - margin@.3, j / size@.0 - margin@.0),
        decreases area - i,
    {
        let point = Point::from_index(i, size).unwrap();
        proof {
            let p = lemma_point_at(size, i as int);
            Point::lemma_view_eq(point, p);
            Offset::lemma_with_components(point@.0 - center@.0, point@.1 - center@.1);
        }
        offsets.push(point - center);
        i = i + 1;
    }
    offsets
}

} // verus!
