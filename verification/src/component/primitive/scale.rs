use vstd::prelude::*;

verus! {

/// Error returned when a scale factor lies outside its valid range.
#[derive(Debug, PartialEq, Eq, Structural, Clone, Copy)]
pub enum ScaleCreationError {
    ScaleXInvalid,
    ScaleYInvalid,
}

pub type ScaleCreationResult<T> = Result<T, ScaleCreationError>;

} // verus!
