use vstd::prelude::*;

use crate::component::primitive::SizeCreationError;

verus! {

/// Error returned when a resize cannot be set up.
#[derive(Debug, PartialEq, Eq, Structural, Clone, Copy)]
pub enum ResizeCreationError {
    NewSizeInvalid(SizeCreationError),
}

pub type ResizeCreationResult<T> = Result<T, ResizeCreationError>;

impl core::convert::From<SizeCreationError> for ResizeCreationError {
    fn from(value: SizeCreationError) -> (r: ResizeCreationError) {
        ResizeCreationError::NewSizeInvalid(value)
    }
}

impl vstd::std_specs::convert::FromSpecImpl<SizeCreationError> for ResizeCreationError {
    open spec fn obeys_from_spec() -> bool {
        true
    }

    open spec fn from_spec(v: SizeCreationError) -> ResizeCreationError {
        ResizeCreationError::NewSizeInvalid(v)
    }
}

} // verus!
