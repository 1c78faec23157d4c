use vstd::prelude::*;

use crate::component::primitive::{Point, Size};
use crate::error::{IndexError, IndexResult};
use crate::lens::Lens;

verus! {

/// A [`Lens`] that copies the values that `source` lends out.
pub struct ClonedLens<S, T> {
    source: S,
    _phantom_data: core::marker::PhantomData<T>,
}

impl<'a, S: Lens<Item = &'a T>, T: Copy + 'a> ClonedLens<S, T> {
    /// Create a lens with the size of `source` holding copies of its values.
    pub fn new(source: S) -> (r: ClonedLens<S, T>)
        ensures
            r.spec_size() == source.spec_size(),
            forall|p: Point| #[trigger] r.spec_look(p) == *source.spec_look(p),
    {
        ClonedLens { source, _phantom_data: core::marker::PhantomData }
    }
}

impl<'a, S: Lens<Item = &'a T>, T: Copy + 'a> Lens for ClonedLens<S, T> {
    type Item = T;

    closed spec fn spec_size(&self) -> Size {
        self.source.spec_size()
    }

    closed spec fn spec_look(&self, point: Point) -> T {
        *self.source.spec_look(point)
    }

    fn look(&self, point: Point) -> (r: IndexResult<T>) {
        match self.source.look(point) {
            Ok(value) => Ok(*value),
            Err(e) => Err(e),
        }
    }

    fn size(&self) -> (r: Size) {
        self.source.size()
    }
}

impl<S: Copy, T> Clone for ClonedLens<S, T> {
    fn clone(&self) -> (r: ClonedLens<S, T>)
        ensures
            r == *self,
    {
        *self
    }
}

impl<S: Copy, T> Copy for ClonedLens<S, T> {
}

} // verus!
