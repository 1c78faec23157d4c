use vstd::prelude::*;

use crate::component::primitive::{Point, Size};
use crate::error::{IndexError, IndexResult};
use crate::lens::{Lens, Mapping};

verus! {

/// A [`Lens`] that maps the values of `source` with `f`.
pub struct MapLens<S: Lens, F: Mapping<S::Item>> {
    source: S,
    f: F,
}

impl<S: Lens, F: Mapping<S::Item>> MapLens<S, F> {
    /// Create a lens with the size of `source` whose value at each point is `f` applied to
    /// the value of `source` there.
    pub fn new(source: S, f: F) -> (r: MapLens<S, F>)
        ensures
            r.spec_size() == source.spec_size(),
            forall|p: Point| #[trigger] r.spec_look(p) == f.spec_apply(source.spec_look(p)),
    {
        MapLens { source, f }
    }
}

impl<S: Lens, F: Mapping<S::Item>> Lens for MapLens<S, F> {
    type Item = F::Output;

    closed spec fn spec_size(&self) -> Size {
        self.source.spec_size()
    }

    closed spec fn spec_look(&self, point: Point) -> F::Output {
        self.f.spec_apply(self.source.spec_look(point))
    }

    fn look(&self, point: Point) -> (r: IndexResult<F::Output>) {
        match self.source.look(point) {
            Ok(value) => Ok(self.f.apply(value)),
            Err(e) => Err(e),
        }
    }

    fn size(&self) -> (r: Size) {
        self.source.size()
    }
}

} // verus!
