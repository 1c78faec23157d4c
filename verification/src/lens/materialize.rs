use vstd::prelude::*;

use crate::component::primitive::{Point, Size};
use crate::component::primitive::size::valid_dims;
use crate::error::{IndexError, IndexResult};
use crate::image::{index_of, lemma_index_point, lemma_point_at, point_at};
use crate::lens::{FromLens, Lens};

verus! {

/// A [`Lens`] holding the values of another lens, computed once, row by row.
pub struct MaterializeLens<T: Copy> {
    values: Vec<T>,
    size: Size,
}

impl<T: Copy> MaterializeLens<T> {
    #[verifier::type_invariant]
    spec fn inv(self) -> bool {
        self.values@.len() == self.size.spec_area()
    }
}

impl<T: Copy> MaterializeLens<T> {
    /// Compute every value of `source` and hold them in a lens of its size.
    pub fn new<S: Lens<Item = T>>(source: S) -> (r: MaterializeLens<T>)
        ensures
            r.spec_size() == source.spec_size(),
            forall|p: Point| #[trigger] source.spec_size().spec_contains(p) ==> r.spec_look(p) == source.spec_look(p),
    {
        let size = source.size();
        let area = size.area();
        let _ = (size.width(), size.height());
        let mut values: Vec<T> = Vec::new();
        let mut i: usize = 0;
        while i < area
            invariant
                size == source.spec_size(),
                valid_dims(size@.0, size@.1),
                area == size.spec_area(),
                i <= area,
                values@.len() == i,
                forall|j: int| 0 <= j < i ==> #[trigger] values@[j] == source.spec_look(point_at(size, j)),
            decreases area - i,
        {
            let point = Point::from_index(i, size).unwrap();
            proof {
                let _ = lemma_point_at(size, i as int);
                Point::lemma_view_eq(point, point_at(size, i as int));
            }
            let value = source.look(point).unwrap();
            values.push(value);
            i = i + 1;
        }
        proof {
            assert forall|p: Point| #[trigger] size.spec_contains(p) implies values@[index_of(size, p)] == source.spec_look(p) by {
                lemma_index_point(size, p);
            }
        }
        MaterializeLens { values, size }
    }
}

impl<T: Copy> Lens for MaterializeLens<T> {
    type Item = T;

    closed spec fn spec_size(&self) -> Size {
        self.size
    }

    closed spec fn spec_look(&self, point: Point) -> T {
        self.values@[index_of(self.size, point)]
    }

    fn look(&self, point: Point) -> (r: IndexResult<T>) {
        proof {
            use_type_invariant(self);
        }
        let index = match point.index(self.size) {
            Ok(index) => index,
            Err(e) => return Err(e),
        };
        Ok(self.values[index])
    }

    fn size(&self) -> (r: Size) {
        self.size
    }
}

impl<T: Copy> Clone for MaterializeLens<T> {
    fn clone(&self) -> (r: MaterializeLens<T>)
        ensures
            r.spec_size() == self.spec_size(),
            forall|p: Point| #[trigger] r.spec_look(p) == self.spec_look(p),
    {
        proof {
            use_type_invariant(self);
        }
        let mut values: Vec<T> = Vec::new();
        let n = self.values.len();
        let mut i: usize = 0;
        while i < n
            invariant
                n == self.values@.len(),
                i <= n,
                values@ == self.values@.subrange(0, i as int),
            decreases n - i,
        {
            values.push(self.values[i]);
            i = i + 1;
        }
        assert(values@ =~= self.values@);
        MaterializeLens { values, size: self.size }
    }
}

impl<T: Copy> FromLens<T> for MaterializeLens<T> {
    /// Materialize `source`.
    fn from_lens<S: Lens<Item = T>>(source: S) -> (r: MaterializeLens<T>)
        ensures
            r.spec_size() == source.spec_size(),
            forall|p: Point| #[trigger] source.spec_size().spec_contains(p) ==> r.spec_look(p) == source.spec_look(p),
    {
        MaterializeLens::new(source)
    }
}

impl<T: Copy> MaterializeLens<T> {
    /// A lens of `size` holding `values`, row by row, or `None` unless there are exactly
    /// `size.area()` of them.
    pub fn from_values(size: Size, values: Vec<T>) -> (r: Option<MaterializeLens<T>>)
        ensures
            r is Some <==> values@.len() == size.spec_area(),
            r matches Some(m) ==> m.spec_size() == size && forall|p: Point| #[trigger] size.spec_contains(p) ==> m.spec_look(p) == values@[index_of(size, p)],
    {
        if values.len() != size.area() {
            return None;
        }
        Some(MaterializeLens { values, size })
    }
}

/// The values of row `y` of `source`, left to right.
pub fn materialize_row<S: Lens>(source: &S, y: usize) -> (r: Vec<S::Item>)
    requires
        y < source.spec_size()@.1,
    ensures
        r@.len() == source.spec_size()@.0,
        forall|x: int| 0 <= x < r@.len() ==> #[trigger] r@[x] == source.spec_look(Point::with_coords(x, y as int)),
{
    let size = source.size();
    let width = size.width();
    let _ = size.height();
    proof {
        crate::component::primitive::limits::lemma_dimension_max();
    }
    let mut row: Vec<S::Item> = Vec::new();
    let mut x: usize = 0;
    while x < width
        invariant
            size == source.spec_size(),
            width == size@.0,
            width <= crate::component::primitive::DIMENSION_MAX,
            y < size@.1,
            size@.1 <= crate::component::primitive::DIMENSION_MAX,
            x <= width,
            row@.len() == x,
            forall|k: int| 0 <= k < x ==> #[trigger] row@[k] == source.spec_look(Point::with_coords(k, y as int)),
        decreases width - x,
    {
        let point = Point::new(x, y).unwrap();
        proof {
            Point::lemma_with_coords(x as int, y as int);
            Point::lemma_view_eq(point, Point::with_coords(x as int, y as int));
        }
        row.push(source.look(point).unwrap());
        x = x + 1;
    }
    row
}

} // verus!
