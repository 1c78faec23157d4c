use vstd::prelude::*;

use crate::component::kernel::Kernel;
use crate::component::primitive::{Margin, Point};
use crate::component::primitive::point::{shifted, valid_coords};
use crate::error::IndexResult;
use crate::lens::{Lens, look_result};

verus! {

/// A [`Kernel`] that returns the source's own value at each point.
#[derive(Debug, Clone, Copy, Default)]
pub struct IdentityKernel;

impl IdentityKernel {
    /// Create an [`IdentityKernel`].
    pub fn new() -> (r: IdentityKernel) {
        IdentityKernel
    }
}

impl<S: Lens> Kernel<S, S::Item> for IdentityKernel {
    open spec fn spec_margin(&self) -> Margin {
        Margin::zero_spec()
    }

    open spec fn spec_evaluate(&self, source: S, point: Point) -> S::Item {
        source.spec_look(point)
    }

    open spec fn spec_admits(&self, source: S, point: Point) -> bool {
        true
    }

    /// The source's own value at `point`, `OutOfBounds` outside the source, just as
    /// looking at the source gives.
    fn evaluate(&self, source: &S, point: Point) -> (r: IndexResult<S::Item>)
        ensures
            r == look_result(source.spec_size(), point, source.spec_look(point)),
    {
        proof {
            Margin::lemma_zero_spec();
            point.lemma_view_nonneg();
        }
        source.look(point)
    }

    fn margin(&self) -> (r: Margin) {
        Margin::zero()
    }
}


/// Applying the identity kernel keeps every value: a [`KernelLens`](crate::lens::kernel::KernelLens)
/// with it reads each point of the source unmoved.
pub proof fn law_identity_keeps_values<S: Lens>(source: S, point: Point)
    requires
        valid_coords(point@.0, point@.1),
    ensures
        <IdentityKernel as Kernel<S, S::Item>>::spec_evaluate(
            &IdentityKernel,
            source,
            shifted(point, Margin::zero_spec()@.3, Margin::zero_spec()@.0),
        ) == source.spec_look(point),
{
    Margin::lemma_zero_spec();
    Point::lemma_with_coords(point@.0, point@.1);
    Point::lemma_view_eq(shifted(point, 0, 0), point);
}

} // verus!
