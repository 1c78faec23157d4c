use vstd::prelude::*;

use crate::component::kernel::gaussian::GaussianKernelCreationError;
use crate::component::primitive::MarginCreationError;
use crate::lens::kernel::KernelLensCreationError;

verus! {

/// Error returned when a gaussian blur cannot be set up.
#[derive(Debug, PartialEq, Eq, Structural, Clone, Copy)]
pub enum GaussianBlurCreationError {
    Kernel(GaussianKernelCreationError),
    KernelLens(KernelLensCreationError),
    Size(MarginCreationError),
}

pub type GaussianBlurCreationResult<T> = Result<T, GaussianBlurCreationError>;

impl core::convert::From<GaussianKernelCreationError> for GaussianBlurCreationError {
    fn from(value: GaussianKernelCreationError) -> (r: GaussianBlurCreationError) {
        GaussianBlurCreationError::Kernel(value)
    }
}

impl vstd::std_specs::convert::FromSpecImpl<GaussianKernelCreationError> for GaussianBlurCreationError {
    open spec fn obeys_from_spec() -> bool {
        true
    }

    open spec fn from_spec(v: GaussianKernelCreationError) -> GaussianBlurCreationError {
        GaussianBlurCreationError::Kernel(v)
    }
}

impl core::convert::From<KernelLensCreationError> for GaussianBlurCreationError {
    fn from(value: KernelLensCreationError) -> (r: GaussianBlurCreationError) {
        GaussianBlurCreationError::KernelLens(value)
    }
}

impl vstd::std_specs::convert::FromSpecImpl<KernelLensCreationError> for GaussianBlurCreationError {
    open spec fn obeys_from_spec() -> bool {
        true
    }

    open spec fn from_spec(v: KernelLensCreationError) -> GaussianBlurCreationError {
        GaussianBlurCreationError::KernelLens(v)
    }
}

impl core::convert::From<MarginCreationError> for GaussianBlurCreationError {
    fn from(value: MarginCreationError) -> (r: GaussianBlurCreationError) {
        GaussianBlurCreationError::Size(value)
    }
}

impl vstd::std_specs::convert::FromSpecImpl<MarginCreationError> for GaussianBlurCreationError {
    open spec fn obeys_from_spec() -> bool {
        true
    }

    open spec fn from_spec(v: MarginCreationError) -> GaussianBlurCreationError {
        GaussianBlurCreationError::Size(v)
    }
}

} // verus!
