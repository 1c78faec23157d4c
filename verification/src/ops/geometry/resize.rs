use vstd::prelude::*;

use crate::component::primitive::SizeCreationError;

verus! {

/// Error returned by the resize of this module.
#[derive(Debug, PartialEq, Eq, Structural, Clone, Copy)]
pub enum Error {
    NewSizeInvalid(SizeCreationError),
}

pub type Result<T> = core::result::Result<T, Error>;

impl core::convert::From<SizeCreationError> for Error {
    fn from(value: SizeCreationError) -> (r: Error) {
        Error::NewSizeInvalid(value)
    }
}

impl vstd::std_specs::convert::FromSpecImpl<SizeCreationError> for Error {
    open spec fn obeys_from_spec() -> bool {
        true
    }

    open spec fn from_spec(v: SizeCreationError) -> Error {
        Error::NewSizeInvalid(v)
    }
}

} // verus!
