use vstd::prelude::*;

use crate::component::primitive::{Margin, Point, Size};
use crate::error::{IndexError, IndexResult};
use crate::lens::Lens;

pub mod convolution;
pub mod gaussian;
pub mod identity;
pub mod mean;
pub mod sobel;

verus! {

/// Whether `point` lies at least `margin` away from each border of `size`.
pub open spec fn within_margin(size: Size, margin: Margin, point: Point) -> bool {
    &&& margin@.3 <= point@.0 < size@.0 - margin@.1
    &&& margin@.0 <= point@.1 < size@.1 - margin@.2
}

/// A trait describing how to evaluate a value for a [`Point`] of a source lens of type
/// `S` from the elements around it within a certain margin.
///
/// Its spec functions have unspecified defaults; an implementation defines them, and the
/// contracts of this library speak of its values only through them.
pub trait Kernel<S: Lens, Out> {
    /// The margin the kernel reads around a point.
    open spec fn spec_margin(&self) -> Margin {
        vstd::pervasive::arbitrary()
    }

    /// The value the kernel computes for `point` of `source`.
    open spec fn spec_evaluate(&self, source: S, point: Point) -> Out {
        vstd::pervasive::arbitrary()
    }

    /// Whether the kernel may be evaluated at `point` of `source` beyond the points at
    /// least its margin away from each border: those where it fails with `OutOfBounds`
    /// instead of reading outside `source`.
    open spec fn spec_admits(&self, source: S, point: Point) -> bool {
        false
    }

    /// Evaluate the value for `point`: the kernel's value where `point` lies at least the
    /// kernel's margin away from each border of `source`, `OutOfBounds` elsewhere. Points
    /// other than those are evaluated only where the kernel admits them.
    fn evaluate(&self, source: &S, point: Point) -> (r: IndexResult<Out>)
        requires
            within_margin(source.spec_size(), self.spec_margin(), point) || self.spec_admits(*source, point),
        ensures
            within_margin(source.spec_size(), self.spec_margin(), point) ==> r == Ok::<Out, IndexError>(
                self.spec_evaluate(*source, point),
            ),
            !within_margin(source.spec_size(), self.spec_margin(), point) ==> r == Err::<Out, IndexError>(
                IndexError::OutOfBounds,
            ),
    ;

    /// Get the margin that is used for computation.
    fn margin(&self) -> (r: Margin)
        ensures
            r == self.spec_margin(),
    ;
}

} // verus!
