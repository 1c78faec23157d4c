use vstd::prelude::*;

use crate::component::kernel::mean::MeanKernelCreationError;
use crate::component::primitive::SizeCreationError;
use crate::lens::kernel::KernelLensCreationError;

verus! {

/// Error returned when a mean blur cannot be set up.
#[derive(Debug, PartialEq, Eq, Structural, Clone, Copy)]
pub enum MeanCreationError {
    Kernel(MeanKernelCreationError),
    KernelLens(KernelLensCreationError),
    Size(SizeCreationError),
}

pub type MeanCreationResult<T> = Result<T, MeanCreationError>;

impl core::convert::From<MeanKernelCreationError> for MeanCreationError {
    fn from(value: MeanKernelCreationError) -> (r: MeanCreationError) {
        MeanCreationError::Kernel(value)
    }
}

impl vstd::std_specs::convert::FromSpecImpl<MeanKernelCreationError> for MeanCreationError {
    open spec fn obeys_from_spec() -> bool {
        true
    }

    open spec fn from_spec(v: MeanKernelCreationError) -> MeanCreationError {
        MeanCreationError::Kernel(v)
    }
}

impl core::convert::From<KernelLensCreationError> for MeanCreationError {
    fn from(value: KernelLensCreationError) -> (r: MeanCreationError) {
        MeanCreationError::KernelLens(value)
    }
}

impl vstd::std_specs::convert::FromSpecImpl<KernelLensCreationError> for MeanCreationError {
    open spec fn obeys_from_spec() -> bool {
        true
    }

    open spec fn from_spec(v: KernelLensCreationError) -> MeanCreationError {
        MeanCreationError::KernelLens(v)
    }
}

impl core::convert::From<SizeCreationError> for MeanCreationError {
    fn from(value: SizeCreationError) -> (r: MeanCreationError) {
        MeanCreationError::Size(value)
    }
}

impl vstd::std_specs::convert::FromSpecImpl<SizeCreationError> for MeanCreationError {
    open spec fn obeys_from_spec() -> bool {
        true
    }

    open spec fn from_spec(v: SizeCreationError) -> MeanCreationError {
        MeanCreationError::Size(v)
    }
}

} // verus!
