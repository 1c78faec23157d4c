use vstd::prelude::*;

use core::marker::PhantomData;

use crate::component::kernel::{Kernel, within_margin};
use crate::component::primitive::{Area, Offset, Point, Size, SizeCreationError};
use crate::component::primitive::limits::lemma_dimension_max;
use crate::component::primitive::point::shifted;
use crate::component::primitive::size::{shrink_result, valid_dims};
use crate::error::{IndexError, IndexResult};
use crate::lens::Lens;

verus! {

/// Error returned when a [`KernelLens`] cannot be created.
#[derive(Debug, PartialEq, Eq, Structural, Clone, Copy)]
pub enum KernelLensCreationError {
    KernelWidthTooBig,
    KernelHeightTooBig,
}

pub type KernelLensCreationResult<T> = Result<T, KernelLensCreationError>;

/// A [`Lens`] that applies a [`Kernel`] onto `source`. Its size is the source's size
/// shrunk by the kernel's margin, and its point `p` holds the kernel's value at the
/// source point `p + (margin.left, margin.top)`.
pub struct KernelLens<S: Lens, K: Kernel<S, T>, T> {
    source: S,
    kernel: K,
    working_area: Area,
    _phantom_data: PhantomData<T>,
}

/// What [`KernelLens::new`] reports where the kernel does not fit in the source.
pub open spec fn kernel_lens_error(source: Size, margin: (int, int, int, int)) -> Option<KernelLensCreationError> {
    match shrink_result(source@, margin) {
        Ok(_) => None,
        Err(SizeCreationError::WidthZero) => Some(KernelLensCreationError::KernelWidthTooBig),
        Err(_) => Some(KernelLensCreationError::KernelHeightTooBig),
    }
}

/// What [`KernelLens::new`] returns for `source` and `kernel`: the error that
/// [`kernel_lens_error`] gives, or a lens of the source's size shrunk by the kernel's
/// margin whose point `p` holds the kernel's value at `p + (margin.left, margin.top)`.
pub open spec fn kernel_lens_result<S: Lens, K: Kernel<S, T>, T>(
    r: KernelLensCreationResult<KernelLens<S, K, T>>,
    source: S,
    kernel: K,
) -> bool {
    match kernel_lens_error(source.spec_size(), kernel.spec_margin()@) {
        Some(e) => r == Err::<KernelLens<S, K, T>, KernelLensCreationError>(e),
        None => {
            &&& r is Ok
            &&& shrink_result(source.spec_size()@, kernel.spec_margin()@) == Ok::<(int, int), SizeCreationError>(r->Ok_0.spec_size()@)
            &&& forall|p: Point| #[trigger] r->Ok_0.spec_look(p) == kernel.spec_evaluate(
                source,
                shifted(p, kernel.spec_margin()@.3, kernel.spec_margin()@.0),
            )
        },
    }
}

impl<S: Lens, K: Kernel<S, T>, T> KernelLens<S, K, T> {
    #[verifier::type_invariant]
    spec fn inv(self) -> bool {
        let size = self.source.spec_size();
        let margin = self.kernel.spec_margin();
        &&& valid_dims(size@.0, size@.1)
        &&& shrink_result(size@, margin@) == Ok::<(int, int), SizeCreationError>(self.working_area@.0@)
        &&& self.working_area@.1@ == (margin@.3, margin@.0)
    }

    /// Create a [`KernelLens`] that applies `kernel` onto `source`.
    ///
    /// Fails with `KernelWidthTooBig` if `source` is not wider than the kernel's left and
    /// right margins together, otherwise with `KernelHeightTooBig` if it is not taller than
    /// its top and bottom margins together.
    pub fn new(source: S, kernel: K) -> (r: KernelLensCreationResult<KernelLens<S, K, T>>)
        ensures
            kernel_lens_result(r, source, kernel),
    {
        let margin = kernel.margin();
        let source_size = source.size();
        let _ = (source_size.width(), source_size.height());
        let size = match source_size.shrink_by_margin(margin) {
            Ok(size) => size,
            Err(SizeCreationError::WidthZero) => return Err(KernelLensCreationError::KernelWidthTooBig),
            Err(_) => return Err(KernelLensCreationError::KernelHeightTooBig),
        };
        let (top, right, bottom, left) = (margin.top(), margin.right(), margin.bottom(), margin.left());
        proof {
            lemma_dimension_max();
        }
        let top_left = Point::new(left, top).unwrap();
        let working_area = Area::new(size, top_left);
        Ok(KernelLens { source, kernel, working_area, _phantom_data: PhantomData })
    }
}

impl<S: Lens, K: Kernel<S, T>, T> Lens for KernelLens<S, K, T> {
    type Item = T;

    closed spec fn spec_size(&self) -> Size {
        self.working_area@.0
    }

    closed spec fn spec_look(&self, point: Point) -> T {
        self.kernel.spec_evaluate(self.source, shifted(point, self.working_area@.1@.0, self.working_area@.1@.1))
    }

    fn look(&self, point: Point) -> (r: IndexResult<T>) {
        proof {
            use_type_invariant(self);
            lemma_dimension_max();
            self.kernel.spec_margin().lemma_view_nonneg();
        }
        let size = self.working_area.size();
        let _ = (size.width(), size.height(), point.x(), point.y());
        if !size.contains(&point) {
            return Err(IndexError::OutOfBounds);
        }
        let top_left = self.working_area.top_left();
        let _ = (top_left.x(), top_left.y());
        let offset = Offset::new(top_left.x() as isize, top_left.y() as isize).unwrap();
        let source_point = point.translate(offset).unwrap();
        proof {
            Point::lemma_with_coords(point@.0 + top_left@.0, point@.1 + top_left@.1);
            Point::lemma_view_eq(source_point, shifted(point, top_left@.0, top_left@.1));
        }
        self.kernel.evaluate(&self.source, source_point)
    }

    fn size(&self) -> (r: Size) {
        self.working_area.size()
    }
}

} // verus!
