use vstd::prelude::*;

use crate::component::kernel::convolution::ConvolutionKernelCreationError;
use crate::component::primitive::limits::lemma_dimension_max;
use crate::component::primitive::{Margin, Size, SizeCreationError};
use crate::component::primitive::size::extend_result;

verus! {

/// Error returned when a mean kernel cannot be created.
#[derive(Debug, PartialEq, Eq, Structural, Clone, Copy)]
pub enum MeanKernelCreationError {
    ConvolutionKernelError(ConvolutionKernelCreationError),
    MarginWidthTooBig,
    MarginHeightTooBig,
}

impl core::convert::From<ConvolutionKernelCreationError> for MeanKernelCreationError {
    fn from(value: ConvolutionKernelCreationError) -> (r: MeanKernelCreationError) {
        MeanKernelCreationError::ConvolutionKernelError(value)
    }
}

impl vstd::std_specs::convert::FromSpecImpl<ConvolutionKernelCreationError> for MeanKernelCreationError {
    open spec fn obeys_from_spec() -> bool {
        true
    }

    open spec fn from_spec(v: ConvolutionKernelCreationError) -> MeanKernelCreationError {
        MeanKernelCreationError::ConvolutionKernelError(v)
    }
}

/// The size of a mean kernel reading `margin` around each point: one point extended by
/// the margin; its weights are all one over its area.
///
/// Fails with `MarginWidthTooBig` or `MarginHeightTooBig` when that size cannot be
/// represented.
pub fn mean_kernel_size(margin: Margin) -> (r: Result<Size, MeanKernelCreationError>)
    ensures
        match extend_result((1, 1), margin@) {
            Ok(dims) => r is Ok && r->Ok_0@ == dims,
            Err(SizeCreationError::WidthTooBig) => r == Err::<Size, MeanKernelCreationError>(MeanKernelCreationError::MarginWidthTooBig),
            Err(_) => r == Err::<Size, MeanKernelCreationError>(MeanKernelCreationError::MarginHeightTooBig),
        },
{
    proof {
        lemma_dimension_max();
    }
    let unit = Size::new(1, 1).unwrap();
    match unit.extend_by_margin(margin) {
        Ok(size) => Ok(size),
        Err(SizeCreationError::WidthTooBig) => Err(MeanKernelCreationError::MarginWidthTooBig),
        Err(_) => Err(MeanKernelCreationError::MarginHeightTooBig),
    }
}

} // verus!
