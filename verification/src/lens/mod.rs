use vstd::prelude::*;

use crate::component::primitive::{Point, Size};
use crate::error::{IndexError, IndexResult};
use crate::lens::cloned::ClonedLens;
use crate::component::kernel::Kernel;
use crate::lens::iter::{Elements, Rows};
use crate::lens::kernel::{KernelLens, KernelLensCreationResult, kernel_lens_result};
use crate::lens::overlay::{OverlayLens, OverlayLensCreationError, OverlayLensCreationResult, overlay_error, overlay_value};
use crate::lens::map::MapLens;
use crate::lens::materialize::MaterializeLens;
use crate::lens::remap::{RemapLens, Remapping};
use crate::lens::split::{LensFactory, SplitLens2, SplitLens3, SplitLens4, min_dims};

pub mod border;
pub mod cloned;
pub mod image;
pub mod iter;
pub mod kernel;
pub mod map;
pub mod materialize;
pub mod overlay;
pub mod quick_split;
pub mod remap;
pub mod split;
pub mod value;

verus! {

/// What looking at `point` in a lens of the given size, whose value there is `value`,
/// returns: the value inside the size, `OutOfBounds` outside.
pub open spec fn look_result<T>(size: Size, point: Point, value: T) -> IndexResult<T> {
    if size.spec_contains(point) {
        Ok(value)
    } else {
        Err(IndexError::OutOfBounds)
    }
}

/// A trait for chaining operations on 2D structures.
///
/// This is the main way of applying transformations to an `Image`. A lens has a size and
/// a value at every point within it; looking at a point returns that value inside the
/// size and `OutOfBounds` outside it. Every implementation is held to this.
///
/// Its spec functions have unspecified defaults; an implementation defines them, and the
/// contracts of this library speak of its values only through them.
pub trait Lens: Sized {
    /// Type of individual items within the underlying 2D structure.
    type Item;

    /// Size of the lens's output.
    open spec fn spec_size(&self) -> Size {
        vstd::pervasive::arbitrary()
    }

    /// Value of the lens at `point`; meaningful within `spec_size()`.
    open spec fn spec_look(&self, point: Point) -> Self::Item {
        vstd::pervasive::arbitrary()
    }

    /// Look at the value for the given `point`.
    ///
    /// Returns the value if `point` is within `size()`, `OutOfBounds` otherwise.
    fn look(&self, point: Point) -> (r: IndexResult<Self::Item>)
        ensures
            r == look_result(self.spec_size(), point, self.spec_look(point)),
    ;

    /// Get the size of the lens's output.
    fn size(&self) -> (r: Size)
        ensures
            r == self.spec_size(),
    ;
}

/// The combinators of the [`Lens`] API, available on every lens.
pub trait LensExt: Lens {
    /// Walk over the rows of the lens.
    fn rows(&self) -> (r: Rows<'_, Self>)
        ensures
            r.spec_source() == *self,
            r.spec_current() == 0,
    ;

    /// Walk over all values of the lens, row by row.
    fn elements(&self) -> (r: Elements<'_, Self>)
        ensures
            r.spec_source() == *self,
            r.spec_current() == 0,
    ;

    /// Map every value of the lens with `f`.
    fn map<F: Mapping<Self::Item>>(self, f: F) -> (r: MapLens<Self, F>)
        ensures
            r.spec_size() == self.spec_size(),
            forall|p: Point| #[trigger] r.spec_look(p) == f.spec_apply(self.spec_look(p)),
    ;

    /// A lens of `size` whose values `f` computes from this lens; `f` must be defined at
    /// every point within `size`.
    fn remap<F: Remapping<Self>>(self, f: F, size: Size) -> (r: RemapLens<Self, F>)
        requires
            forall|p: Point| size.spec_contains(p) ==> #[trigger] f.spec_defined(self, p),
        ensures
            r.spec_size() == size,
            forall|p: Point| #[trigger] r.spec_look(p) == f.spec_remap(self, p),
    ;

    /// Copy the values that the lens lends out.
    fn cloned<'a, T: Copy + 'a>(self) -> (r: ClonedLens<Self, T>)
        where
            Self: Lens<Item = &'a T>,
        ensures
            r.spec_size() == self.spec_size(),
            forall|p: Point| #[trigger] r.spec_look(p) == *self.spec_look(p),
    ;

    /// Apply `kernel` onto the lens, as [`KernelLens::new`] does.
    fn kernel<K: Kernel<Self, T>, T>(self, kernel: K) -> (r: KernelLensCreationResult<KernelLens<Self, K, T>>)
        ensures
            kernel_lens_result(r, self, kernel),
    ;

    /// Compute every value of the lens once and hold them.
    fn materialize(self) -> (r: MaterializeLens<Self::Item>)
        where
            Self::Item: Copy,
        ensures
            r.spec_size() == self.spec_size(),
            forall|p: Point| #[trigger] self.spec_size().spec_contains(p) ==> r.spec_look(p) == self.spec_look(p),
    ;

    /// Pair the lenses that two factories build from copies of this lens.
    fn split2<F1: LensFactory<Self>, F2: LensFactory<Self>>(self, factory1: F1, factory2: F2) -> (r: SplitLens2<F1::Output, F2::Output>)
        where
            Self: Copy,
        ensures
            r.spec_size()@ == min_dims(factory1.spec_build(self).spec_size()@, factory2.spec_build(self).spec_size()@),
            forall|p: Point| #[trigger] r.spec_look(p) == (factory1.spec_build(self).spec_look(p), factory2.spec_build(self).spec_look(p)),
    ;

    /// Combine the lenses that three factories build from copies of this lens.
    fn split3<F1: LensFactory<Self>, F2: LensFactory<Self>, F3: LensFactory<Self>>(
        self,
        factory1: F1,
        factory2: F2,
        factory3: F3,
    ) -> (r: SplitLens3<F1::Output, F2::Output, F3::Output>)
        where
            Self: Copy,
        ensures
            r.spec_size()@ == min_dims(
                min_dims(factory1.spec_build(self).spec_size()@, factory2.spec_build(self).spec_size()@),
                factory3.spec_build(self).spec_size()@,
            ),
            forall|p: Point| #[trigger] r.spec_look(p) == (
                factory1.spec_build(self).spec_look(p),
                factory2.spec_build(self).spec_look(p),
                factory3.spec_build(self).spec_look(p),
            ),
    ;

    /// Combine the lenses that four factories build from copies of this lens.
    fn split4<F1: LensFactory<Self>, F2: LensFactory<Self>, F3: LensFactory<Self>, F4: LensFactory<Self>>(
        self,
        factory1: F1,
        factory2: F2,
        factory3: F3,
        factory4: F4,
    ) -> (r: SplitLens4<F1::Output, F2::Output, F3::Output, F4::Output>)
        where
            Self: Copy,
        ensures
            r.spec_size()@ == min_dims(
                min_dims(
                    min_dims(factory1.spec_build(self).spec_size()@, factory2.spec_build(self).spec_size()@),
                    factory3.spec_build(self).spec_size()@,
                ),
                factory4.spec_build(self).spec_size()@,
            ),
            forall|p: Point| #[trigger] r.spec_look(p) == (
                factory1.spec_build(self).spec_look(p),
                factory2.spec_build(self).spec_look(p),
                factory3.spec_build(self).spec_look(p),
                factory4.spec_build(self).spec_look(p),
            ),
    ;

    /// Place `overlay` over the lens with its top left point at `overlay_start`, as
    /// [`OverlayLens::new`] does.
    fn overlay<S: Lens<Item = Self::Item>>(self, overlay: S, overlay_start: Point) -> (r: OverlayLensCreationResult<OverlayLens<Self, S>>)
        ensures
            match overlay_error(self.spec_size(), overlay.spec_size(), overlay_start) {
                Some(e) => r == Err::<OverlayLens<Self, S>, OverlayLensCreationError>(e),
                None => r is Ok && r->Ok_0.spec_size() == self.spec_size() && forall|p: Point|
                    #[trigger] r->Ok_0.spec_look(p) == overlay_value(self, overlay, overlay_start, p),
            },
    ;
}

impl<L: Lens> LensExt for L {
    fn rows(&self) -> (r: Rows<'_, Self>) {
        Rows::new(self)
    }

    fn elements(&self) -> (r: Elements<'_, Self>) {
        Elements::new(self)
    }

    fn map<F: Mapping<Self::Item>>(self, f: F) -> (r: MapLens<Self, F>) {
        MapLens::new(self, f)
    }

    fn remap<F: Remapping<Self>>(self, f: F, size: Size) -> (r: RemapLens<Self, F>) {
        RemapLens::new(self, f, size)
    }

    fn cloned<'a, T: Copy + 'a>(self) -> (r: ClonedLens<Self, T>)
        where
            Self: Lens<Item = &'a T>,
    {
        ClonedLens::new(self)
    }

    fn kernel<K: Kernel<Self, T>, T>(self, kernel: K) -> (r: KernelLensCreationResult<KernelLens<Self, K, T>>) {
        KernelLens::new(self, kernel)
    }

    fn materialize(self) -> (r: MaterializeLens<Self::Item>)
        where
            Self::Item: Copy,
    {
        MaterializeLens::new(self)
    }

    fn split2<F1: LensFactory<Self>, F2: LensFactory<Self>>(self, factory1: F1, factory2: F2) -> (r: SplitLens2<F1::Output, F2::Output>)
        where
            Self: Copy,
    {
        SplitLens2::new(self, factory1, factory2)
    }

    fn split3<F1: LensFactory<Self>, F2: LensFactory<Self>, F3: LensFactory<Self>>(
        self,
        factory1: F1,
        factory2: F2,
        factory3: F3,
    ) -> (r: SplitLens3<F1::Output, F2::Output, F3::Output>)
        where
            Self: Copy,
    {
        SplitLens3::new(self, factory1, factory2, factory3)
    }

    fn split4<F1: LensFactory<Self>, F2: LensFactory<Self>, F3: LensFactory<Self>, F4: LensFactory<Self>>(
        self,
        factory1: F1,
        factory2: F2,
        factory3: F3,
        factory4: F4,
    ) -> (r: SplitLens4<F1::Output, F2::Output, F3::Output, F4::Output>)
        where
            Self: Copy,
    {
        SplitLens4::new(self, factory1, factory2, factory3, factory4)
    }

    fn overlay<S: Lens<Item = Self::Item>>(self, overlay: S, overlay_start: Point) -> (r: OverlayLensCreationResult<OverlayLens<Self, S>>) {
        OverlayLens::new(self, overlay, overlay_start)
    }
}

/// A function applied to each value of a lens by [`MapLens`](map::MapLens).
///
/// Its spec functions have unspecified defaults; an implementation defines them, and the
/// contracts of this library speak of its values only through them.
pub trait Mapping<In> {
    type Output;

    /// The result of applying the function to `value`.
    open spec fn spec_apply(&self, value: In) -> Self::Output {
        vstd::pervasive::arbitrary()
    }

    /// Apply the function to `value`.
    fn apply(&self, value: In) -> (r: Self::Output)
        ensures
            r == self.spec_apply(value),
    ;
}

/// Collect a [`Lens`] into a structure.
pub trait FromLens<T>: Sized {
    /// Build `Self` from the values of `source`.
    fn from_lens<S: Lens<Item = T>>(source: S) -> Self;
}

} // verus!
