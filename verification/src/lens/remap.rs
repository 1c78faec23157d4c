use vstd::prelude::*;

use crate::component::primitive::{Point, Size};
use crate::error::{IndexError, IndexResult};
use crate::lens::Lens;

verus! {

/// A function that computes the value of a [`RemapLens`] at a point from its source.
///
/// Its spec functions have unspecified defaults; an implementation defines them, and the
/// contracts of this library speak of its values only through them.
pub trait Remapping<S: Lens> {
    type Output;

    /// Whether the function can be evaluated at `point` of `source`.
    open spec fn spec_defined(&self, source: S, point: Point) -> bool {
        vstd::pervasive::arbitrary()
    }

    /// The value the function computes at `point` of `source`.
    open spec fn spec_remap(&self, source: S, point: Point) -> Self::Output {
        vstd::pervasive::arbitrary()
    }

    /// Compute the value at `point` of `source`.
    fn remap(&self, source: &S, point: Point) -> (r: Self::Output)
        requires
            self.spec_defined(*source, point),
        ensures
            r == self.spec_remap(*source, point),
    ;
}

/// A [`Lens`] of a given size whose values `f` computes from `source`.
pub struct RemapLens<S: Lens, F: Remapping<S>> {
    source: S,
    f: F,
    size: Size,
}

impl<S: Lens, F: Remapping<S>> RemapLens<S, F> {
    #[verifier::type_invariant]
    spec fn inv(self) -> bool {
        forall|p: Point| self.size.spec_contains(p) ==> #[trigger] self.f.spec_defined(self.source, p)
    }

    /// Create a lens of the given `size` whose value at each point is `f` evaluated at
    /// that point of `source`; `f` must be defined at every point within `size`.
    pub fn new(source: S, f: F, size: Size) -> (r: RemapLens<S, F>)
        requires
            forall|p: Point| size.spec_contains(p) ==> #[trigger] f.spec_defined(source, p),
        ensures
            r.spec_size() == size,
            forall|p: Point| #[trigger] r.spec_look(p) == f.spec_remap(source, p),
    {
        RemapLens { source, f, size }
    }
}

impl<S: Lens, F: Remapping<S>> Lens for RemapLens<S, F> {
    type Item = F::Output;

    closed spec fn spec_size(&self) -> Size {
        self.size
    }

    closed spec fn spec_look(&self, point: Point) -> F::Output {
        self.f.spec_remap(self.source, point)
    }

    fn look(&self, point: Point) -> (r: IndexResult<F::Output>) {
        proof {
            use_type_invariant(self);
        }
        if !self.size.contains(&point) {
            return Err(IndexError::OutOfBounds);
        }
        Ok(self.f.remap(&self.source, point))
    }

    fn size(&self) -> (r: Size) {
        self.size
    }
}

} // verus!
