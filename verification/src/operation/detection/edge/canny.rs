use vstd::prelude::*;

use crate::component::kernel::gaussian::GaussianKernelCreationError;
use crate::component::lens::border::{bordered_value, value_border};
use crate::component::primitive::{DIMENSION_MAX, Margin, Point};
use crate::component::primitive::size::extend_result;
use crate::lens::Lens;
use crate::lens::kernel::KernelLensCreationError;
use crate::lens::overlay::OverlayLens;
use crate::lens::value::ValueLens;
use crate::pixel::Pixel;

verus! {

/// Error returned when a canny edge detection cannot be set up.
#[derive(Debug, PartialEq, Eq, Structural, Clone, Copy)]
pub enum CannyCreationError {
    IntermediateLensTooBig,
    GaussianRadiusTooBig,
    GaussianKernelCreation(GaussianKernelCreationError),
    KernelLensCreation(KernelLensCreationError),
}

pub type CannyCreationResult<T> = Result<T, CannyCreationError>;

impl core::convert::From<GaussianKernelCreationError> for CannyCreationError {
    fn from(value: GaussianKernelCreationError) -> (r: CannyCreationError) {
        CannyCreationError::GaussianKernelCreation(value)
    }
}

impl vstd::std_specs::convert::FromSpecImpl<GaussianKernelCreationError> for CannyCreationError {
    open spec fn obeys_from_spec() -> bool {
        true
    }

    open spec fn from_spec(v: GaussianKernelCreationError) -> CannyCreationError {
        CannyCreationError::GaussianKernelCreation(v)
    }
}

impl core::convert::From<KernelLensCreationError> for CannyCreationError {
    fn from(value: KernelLensCreationError) -> (r: CannyCreationError) {
        CannyCreationError::KernelLensCreation(value)
    }
}

impl vstd::std_specs::convert::FromSpecImpl<KernelLensCreationError> for CannyCreationError {
    open spec fn obeys_from_spec() -> bool {
        true
    }

    open spec fn from_spec(v: KernelLensCreationError) -> CannyCreationError {
        CannyCreationError::KernelLensCreation(v)
    }
}

/// The first stage of canny edge detection: the margin of the gaussian blur and `source`
/// surrounded by a border of that margin filled with [`Pixel::zero`].
///
/// Fails with `GaussianRadiusTooBig` when `gaussian_radius` exceeds `DIMENSION_MAX`, and
/// with `IntermediateLensTooBig` when the bordered size would.
pub fn canny_border<S: Lens<Item = Pixel>>(source: S, gaussian_radius: usize) -> (r: CannyCreationResult<(Margin, OverlayLens<ValueLens<Pixel>, S>)>)
    ensures
        gaussian_radius > DIMENSION_MAX ==> r == Err::<(Margin, OverlayLens<ValueLens<Pixel>, S>), CannyCreationError>(CannyCreationError::GaussianRadiusTooBig),
        gaussian_radius <= DIMENSION_MAX ==> match extend_result(
            source.spec_size()@,
            (gaussian_radius as int, gaussian_radius as int, gaussian_radius as int, gaussian_radius as int),
        ) {
            Ok(dims) => {
                &&& r is Ok
                &&& r->Ok_0.0@ == (gaussian_radius as int, gaussian_radius as int, gaussian_radius as int, gaussian_radius as int)
                &&& r->Ok_0.1.spec_size()@ == dims
                &&& forall|p: Point| #[trigger] r->Ok_0.1.spec_look(p) == bordered_value(source, r->Ok_0.0, Pixel::with_channels((0u8, 0u8, 0u8, 0u8)), p)
            },
            Err(_) => r == Err::<(Margin, OverlayLens<ValueLens<Pixel>, S>), CannyCreationError>(CannyCreationError::IntermediateLensTooBig),
        },
{
    let margin = match Margin::unified(gaussian_radius) {
        Ok(margin) => margin,
        Err(_) => return Err(CannyCreationError::GaussianRadiusTooBig),
    };
    let zero = Pixel::zero();
    proof {
        Pixel::lemma_with_channels((0u8, 0u8, 0u8, 0u8));
        Pixel::lemma_view_eq(zero, Pixel::with_channels((0u8, 0u8, 0u8, 0u8)));
    }
    match value_border(source, margin, zero) {
        Ok(lens) => Ok((margin, lens)),
        Err(_) => Err(CannyCreationError::IntermediateLensTooBig),
    }
}

} // verus!
