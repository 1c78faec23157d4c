use vstd::prelude::*;

verus! {

/// Out of bounds error, may occur when trying to access a pixel or a lens element by a
/// point outside its size.
#[derive(Debug, PartialEq, Eq, Structural, Clone, Copy)]
pub struct OutOfBoundsError;

/// Error returned when an index or a point lies outside the structure it addresses.
#[derive(Debug, PartialEq, Eq, Structural, Clone, Copy)]
pub enum IndexError {
    OutOfBounds,
}

pub type IndexResult<T> = Result<T, IndexError>;

/// Error occurring when the length of a buffer does not match the size it should hold.
#[derive(Debug, PartialEq, Eq, Structural, Clone, Copy)]
pub struct BufferLengthMismatchError;

pub type BufferLengthMismatchResult<T> = Result<T, BufferLengthMismatchError>;

impl core::convert::From<OutOfBoundsError> for IndexError {
    fn from(value: OutOfBoundsError) -> (r: IndexError) {
        IndexError::OutOfBounds
    }
}

impl vstd::std_specs::convert::FromSpecImpl<OutOfBoundsError> for IndexError {
    open spec fn obeys_from_spec() -> bool {
        true
    }

    open spec fn from_spec(v: OutOfBoundsError) -> IndexError {
        IndexError::OutOfBounds
    }
}

} // verus!
