use vstd::prelude::*;

use crate::component::primitive::{Point, Size};
use crate::component::primitive::size::valid_dims;
use crate::error::{IndexError, IndexResult};
use crate::lens::Lens;
use crate::lens::split::{LensFactory, min_dims, min_size};

verus! {

/// A [`Lens`] pairing the values of two lenses that its factories build from its source
/// each time it is looked at. Its size is the smallest of theirs in each dimension.
pub struct QuickSplitLens<S: Lens + Copy, F1: LensFactory<S>, F2: LensFactory<S>> {
    source: S,
    left_factory: F1,
    right_factory: F2,
}

/// The dimensions of the lenses that `f1` and `f2` build from `source`, the smaller of
/// each.
pub open spec fn quick_split_dims<S: Lens + Copy, F1: LensFactory<S>, F2: LensFactory<S>>(source: S, f1: F1, f2: F2) -> (int, int) {
    min_dims(f1.spec_build(source).spec_size()@, f2.spec_build(source).spec_size()@)
}

impl<S: Lens + Copy, F1: LensFactory<S>, F2: LensFactory<S>> QuickSplitLens<S, F1, F2> {
    /// Create a lens pairing the lenses that `left_factory` and `right_factory` build from
    /// copies of `source`.
    pub fn new(source: S, left_factory: F1, right_factory: F2) -> (r: QuickSplitLens<S, F1, F2>)
        ensures
            valid_dims(quick_split_dims(source, left_factory, right_factory).0, quick_split_dims(source, left_factory, right_factory).1) ==> r.spec_size()@ == quick_split_dims(source, left_factory, right_factory),
            forall|p: Point| #[trigger] r.spec_look(p) == (
                left_factory.spec_build(source).spec_look(p),
                right_factory.spec_build(source).spec_look(p),
            ),
    {
        proof {
            let dims = quick_split_dims(source, left_factory, right_factory);
            if valid_dims(dims.0, dims.1) {
                Size::lemma_with_dims(dims.0, dims.1);
            }
        }
        QuickSplitLens { source, left_factory, right_factory }
    }
}

impl<S: Lens + Copy, F1: LensFactory<S>, F2: LensFactory<S>> Lens for QuickSplitLens<S, F1, F2> {
    type Item = (<F1::Output as Lens>::Item, <F2::Output as Lens>::Item);

    closed spec fn spec_size(&self) -> Size {
        let dims = quick_split_dims(self.source, self.left_factory, self.right_factory);
        Size::with_dims(dims.0, dims.1)
    }

    closed spec fn spec_look(&self, point: Point) -> (<F1::Output as Lens>::Item, <F2::Output as Lens>::Item) {
        (self.left_factory.spec_build(self.source).spec_look(point), self.right_factory.spec_build(self.source).spec_look(point))
    }

    fn look(&self, point: Point) -> (r: IndexResult<(<F1::Output as Lens>::Item, <F2::Output as Lens>::Item)>) {
        let left = self.left_factory.build(self.source);
        let right = self.right_factory.build(self.source);
        let sizes = min_size(left.size(), right.size());
        let _ = (sizes.width(), sizes.height());
        proof {
            Size::lemma_with_dims(sizes@.0, sizes@.1);
            Size::lemma_view_eq(sizes, self.spec_size());
        }
        let l = match left.look(point) {
            Ok(v) => v,
            Err(e) => return Err(e),
        };
        let r = match right.look(point) {
            Ok(v) => v,
            Err(e) => return Err(e),
        };
        Ok((l, r))
    }

    fn size(&self) -> (r: Size) {
        let left = self.left_factory.build(self.source);
        let right = self.right_factory.build(self.source);
        let size = min_size(left.size(), right.size());
        let _ = (size.width(), size.height());
        proof {
            Size::lemma_with_dims(size@.0, size@.1);
            Size::lemma_view_eq(size, self.spec_size());
        }
        size
    }
}

} // verus!
