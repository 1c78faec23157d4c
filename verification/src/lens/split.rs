use vstd::prelude::*;

use crate::component::primitive::{Point, Size};
use crate::component::primitive::size::lemma_min_size;
use crate::error::{IndexError, IndexResult};
use crate::lens::Lens;

verus! {

/// A function that builds a [`Lens`] from a source lens.
///
/// Its spec functions have unspecified defaults; an implementation defines them, and the
/// contracts of this library speak of its values only through them.
pub trait LensFactory<S> {
    type Output: Lens;

    /// The lens built from `source`.
    open spec fn spec_build(&self, source: S) -> Self::Output {
        vstd::pervasive::arbitrary()
    }

    /// Build the lens from `source`.
    fn build(&self, source: S) -> (r: Self::Output)
        ensures
            r == self.spec_build(source),
    ;
}

/// The size whose dimensions are the smaller of those of `a` and `b`.
pub open spec fn min_dims(a: (int, int), b: (int, int)) -> (int, int) {
    (if a.0 <= b.0 { a.0 } else { b.0 }, if a.1 <= b.1 { a.1 } else { b.1 })
}

/// A [`Lens`] pairing the values of two lenses built from one source. Its size is the
/// smallest of theirs in each dimension.
pub struct SplitLens2<L1: Lens, L2: Lens> {
    lens1: L1,
    lens2: L2,
    size: Size,
}

impl<L1: Lens, L2: Lens> SplitLens2<L1, L2> {
    #[verifier::type_invariant]
    spec fn inv(self) -> bool {
        self.size@ == min_dims(self.lens1.spec_size()@, self.lens2.spec_size()@)
    }

    /// Create a lens pairing the lenses that `factory1` and `factory2` build from copies
    /// of `source`.
    pub fn new<S: Lens + Copy, F1: LensFactory<S, Output = L1>, F2: LensFactory<S, Output = L2>>(
        source: S,
        factory1: F1,
        factory2: F2,
    ) -> (r: SplitLens2<L1, L2>)
        ensures
            r.spec_size()@ == min_dims(factory1.spec_build(source).spec_size()@, factory2.spec_build(source).spec_size()@),
            forall|p: Point| #[trigger] r.spec_look(p) == (factory1.spec_build(source).spec_look(p), factory2.spec_build(source).spec_look(p)),
    {
        let lens1 = factory1.build(source);
        let lens2 = factory2.build(source);
        let size = min_size(lens1.size(), lens2.size());
        SplitLens2 { lens1, lens2, size }
    }
}

/// The size whose dimensions are the smaller of those of `a` and `b`.
pub fn min_size(a: Size, b: Size) -> (r: Size)
    ensures
        r@ == min_dims(a@, b@),
{
    let (aw, ah, bw, bh) = (a.width(), a.height(), b.width(), b.height());
    let w = if aw <= bw { aw } else { bw };
    let h = if ah <= bh { ah } else { bh };
    proof {
        lemma_min_size(w as int, h as int);
    }
    Size::new(w, h).unwrap()
}

impl<L1: Lens, L2: Lens> Lens for SplitLens2<L1, L2> {
    type Item = (L1::Item, L2::Item);

    closed spec fn spec_size(&self) -> Size {
        self.size
    }

    closed spec fn spec_look(&self, point: Point) -> (L1::Item, L2::Item) {
        (self.lens1.spec_look(point), self.lens2.spec_look(point))
    }

    fn look(&self, point: Point) -> (r: IndexResult<(L1::Item, L2::Item)>) {
        proof {
            use_type_invariant(self);
        }
        let v1 = match self.lens1.look(point) {
            Ok(v) => v,
            Err(e) => return Err(e),
        };
        let v2 = match self.lens2.look(point) {
            Ok(v) => v,
            Err(e) => return Err(e),
        };
        Ok((v1, v2))
    }

    fn size(&self) -> (r: Size) {
        self.size
    }
}

/// A [`Lens`] combining the values of three lenses built from one source. Its size is
/// the smallest of theirs in each dimension.
pub struct SplitLens3<L1: Lens, L2: Lens, L3: Lens> {
    lens1: L1,
    lens2: L2,
    lens3: L3,
    size: Size,
}

impl<L1: Lens, L2: Lens, L3: Lens> SplitLens3<L1, L2, L3> {
    #[verifier::type_invariant]
    spec fn inv(self) -> bool {
        self.size@ == min_dims(min_dims(self.lens1.spec_size()@, self.lens2.spec_size()@), self.lens3.spec_size()@)
    }

    /// Create a lens combining the lenses that the three factories build from copies of
    /// `source`.
    pub fn new<S: Lens + Copy, F1: LensFactory<S, Output = L1>, F2: LensFactory<S, Output = L2>, F3: LensFactory<S, Output = L3>>(
        source: S,
        factory1: F1,
        factory2: F2,
        factory3: F3,
    ) -> (r: SplitLens3<L1, L2, L3>)
        ensures
            r.spec_size()@ == min_dims(
                min_dims(factory1.spec_build(source).spec_size()@, factory2.spec_build(source).spec_size()@),
                factory3.spec_build(source).spec_size()@,
            ),
            forall|p: Point| #[trigger] r.spec_look(p) == (
                factory1.spec_build(source).spec_look(p),
                factory2.spec_build(source).spec_look(p),
                factory3.spec_build(source).spec_look(p),
            ),
    {
        let lens1 = factory1.build(source);
        let lens2 = factory2.build(source);
        let lens3 = factory3.build(source);
        let size = min_size(min_size(lens1.size(), lens2.size()), lens3.size());
        SplitLens3 { lens1, lens2, lens3, size }
    }
}

impl<L1: Lens, L2: Lens, L3: Lens> Lens for SplitLens3<L1, L2, L3> {
    type Item = (L1::Item, L2::Item, L3::Item);

    closed spec fn spec_size(&self) -> Size {
        self.size
    }

    closed spec fn spec_look(&self, point: Point) -> (L1::Item, L2::Item, L3::Item) {
        (self.lens1.spec_look(point), self.lens2.spec_look(point), self.lens3.spec_look(point))
    }

    fn look(&self, point: Point) -> (r: IndexResult<(L1::Item, L2::Item, L3::Item)>) {
        proof {
            use_type_invariant(self);
        }
        let v1 = match self.lens1.look(point) {
            Ok(v) => v,
            Err(e) => return Err(e),
        };
        let v2 = match self.lens2.look(point) {
            Ok(v) => v,
            Err(e) => return Err(e),
        };
        let v3 = match self.lens3.look(point) {
            Ok(v) => v,
            Err(e) => return Err(e),
        };
        Ok((v1, v2, v3))
    }

    fn size(&self) -> (r: Size) {
        self.size
    }
}

/// A [`Lens`] combining the values of four lenses built from one source. Its size is
/// the smallest of theirs in each dimension.
pub struct SplitLens4<L1: Lens, L2: Lens, L3: Lens, L4: Lens> {
    lens1: L1,
    lens2: L2,
    lens3: L3,
    lens4: L4,
    size: Size,
}

impl<L1: Lens, L2: Lens, L3: Lens, L4: Lens> SplitLens4<L1, L2, L3, L4> {
    #[verifier::type_invariant]
    spec fn inv(self) -> bool {
        self.size@ == min_dims(
            min_dims(min_dims(self.lens1.spec_size()@, self.lens2.spec_size()@), self.lens3.spec_size()@),
            self.lens4.spec_size()@,
        )
    }

    /// Create a lens combining the lenses that the four factories build from copies of
    /// `source`.
    pub fn new<
        S: Lens + Copy,
        F1: LensFactory<S, Output = L1>,
        F2: LensFactory<S, Output = L2>,
        F3: LensFactory<S, Output = L3>,
        F4: LensFactory<S, Output = L4>,
    >(source: S, factory1: F1, factory2: F2, factory3: F3, factory4: F4) -> (r: SplitLens4<L1, L2, L3, L4>)
        ensures
            r.spec_size()@ == min_dims(
                min_dims(
                    min_dims(factory1.spec_build(source).spec_size()@, factory2.spec_build(source).spec_size()@),
                    factory3.spec_build(source).spec_size()@,
                ),
                factory4.spec_build(source).spec_size()@,
            ),
            forall|p: Point| #[trigger] r.spec_look(p) == (
                factory1.spec_build(source).spec_look(p),
                factory2.spec_build(source).spec_look(p),
                factory3.spec_build(source).spec_look(p),
                factory4.spec_build(source).spec_look(p),
            ),
    {
        let lens1 = factory1.build(source);
        let lens2 = factory2.build(source);
        let lens3 = factory3.build(source);
        let lens4 = factory4.build(source);
        let size = min_size(min_size(min_size(lens1.size(), lens2.size()), lens3.size()), lens4.size());
        SplitLens4 { lens1, lens2, lens3, lens4, size }
    }
}

impl<L1: Lens, L2: Lens, L3: Lens, L4: Lens> Lens for SplitLens4<L1, L2, L3, L4> {
    type Item = (L1::Item, L2::Item, L3::Item, L4::Item);

    closed spec fn spec_size(&self) -> Size {
        self.size
    }

    closed spec fn spec_look(&self, point: Point) -> (L1::Item, L2::Item, L3::Item, L4::Item) {
        (self.lens1.spec_look(point), self.lens2.spec_look(point), self.lens3.spec_look(point), self.lens4.spec_look(point))
    }

    fn look(&self, point: Point) -> (r: IndexResult<(L1::Item, L2::Item, L3::Item, L4::Item)>) {
        proof {
            use_type_invariant(self);
        }
        let v1 = match self.lens1.look(point) {
            Ok(v) => v,
            Err(e) => return Err(e),
        };
        let v2 = match self.lens2.look(point) {
            Ok(v) => v,
            Err(e) => return Err(e),
        };
        let v3 = match self.lens3.look(point) {
            Ok(v) => v,
            Err(e) => return Err(e),
        };
        let v4 = match self.lens4.look(point) {
            Ok(v) => v,
            Err(e) => return Err(e),
        };
        Ok((v1, v2, v3, v4))
    }

    fn size(&self) -> (r: Size) {
        self.size
    }
}

} // verus!
