use vstd::prelude::*;

use crate::component::primitive::{Point, Size};
use crate::error::{IndexError, IndexResult};
use crate::lens::Lens;

verus! {

/// A [`Lens`] with the same value at every point of its size.
#[derive(Clone, Copy)]
pub struct ValueLens<T> {
    value: T,
    size: Size,
}

impl<T: Copy> ValueLens<T> {
    /// Create a lens of the given `size` holding `value` everywhere.
    pub fn new(value: T, size: Size) -> (r: ValueLens<T>)
        ensures
            r.spec_size() == size,
            forall|p: Point| #[trigger] r.spec_look(p) == value,
    {
        ValueLens { value, size }
    }
}

impl<T: Copy> Lens for ValueLens<T> {
    type Item = T;

    closed spec fn spec_size(&self) -> Size {
        self.size
    }

    closed spec fn spec_look(&self, point: Point) -> T {
        self.value
    }

    fn look(&self, point: Point) -> (r: IndexResult<T>) {
        if self.size.contains(&point) {
            return Ok(self.value);
        }
        Err(IndexError::OutOfBounds)
    }

    fn size(&self) -> (r: Size) {
        self.size
    }
}

} // verus!
