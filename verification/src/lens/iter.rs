use vstd::prelude::*;

use crate::component::primitive::{Point, Size};
use crate::component::primitive::limits::lemma_dimension_max;
use crate::component::primitive::size::valid_dims;
use crate::image::{lemma_point_at, point_at};
use crate::lens::Lens;

verus! {

/// Walks over the rows of a lens, top to bottom, each as a [`RowElements`].
pub struct Rows<'a, S: Lens> {
    source: &'a S,
    current: usize,
}

impl<'a, S: Lens> Rows<'a, S> {
    #[verifier::type_invariant]
    spec fn inv(self) -> bool {
        &&& valid_dims(self.source.spec_size()@.0, self.source.spec_size()@.1)
        &&& self.current <= self.source.spec_size()@.1
    }

    /// The lens walked over.
    pub closed spec fn spec_source(self) -> S {
        *self.source
    }

    /// The index of the next row.
    pub closed spec fn spec_current(self) -> int {
        self.current as int
    }

    /// Start walking over the rows of `source` from the top.
    pub fn new(source: &'a S) -> (r: Rows<'a, S>)
        ensures
            r.spec_source() == *source,
            r.spec_current() == 0,
    {
        let size = source.size();
        let _ = (size.width(), size.height());
        Rows { source, current: 0 }
    }

    /// The next row, or `None` after the last one.
    pub fn next(&mut self) -> (r: Option<RowElements<'a, S>>)
        ensures
            final(self).spec_source() == old(self).spec_source(),
            old(self).spec_current() < old(self).spec_source().spec_size()@.1 ==> {
                &&& final(self).spec_current() == old(self).spec_current() + 1
                &&& r is Some
                &&& r->Some_0.spec_source() == old(self).spec_source()
                &&& r->Some_0.spec_current() == Some(Point::with_coords(0, old(self).spec_current()))
            },
            old(self).spec_current() >= old(self).spec_source().spec_size()@.1 ==> {
                &&& final(self).spec_current() == old(self).spec_current()
                &&& r is None
            },
    {
        proof {
            use_type_invariant(&*self);
        }
        let height = self.source.size().height();
        if self.current == height {
            return None;
        }
        self.current = self.current + 1;
        let elements = RowElements::new(self.source, self.current - 1);
        Some(elements)
    }
}

/// Walks over the values of one row of a lens, left to right.
pub struct RowElements<'a, S: Lens> {
    source: &'a S,
    current: Option<Point>,
}

impl<'a, S: Lens> RowElements<'a, S> {
    #[verifier::type_invariant]
    spec fn inv(self) -> bool {
        &&& valid_dims(self.source.spec_size()@.0, self.source.spec_size()@.1)
        &&& self.current matches Some(p) ==> self.source.spec_size().spec_contains(p)
    }

    /// The lens walked over.
    pub closed spec fn spec_source(self) -> S {
        *self.source
    }

    /// The point of the next value, or `None` after the end of the row.
    pub closed spec fn spec_current(self) -> Option<Point> {
        self.current
    }

    /// Start walking over row `row` of `source`, which lies within it.
    pub fn new(source: &'a S, row: usize) -> (r: RowElements<'a, S>)
        requires
            row < source.spec_size()@.1,
            valid_dims(source.spec_size()@.0, source.spec_size()@.1),
        ensures
            r.spec_source() == *source,
            r.spec_current() == Some(Point::with_coords(0, row as int)),
    {
        proof {
            lemma_dimension_max();
        }
        let point = Point::new(0, row).unwrap();
        proof {
            Point::lemma_with_coords(0, row as int);
            Point::lemma_view_eq(point, Point::with_coords(0, row as int));
        }
        RowElements { source, current: Some(point) }
    }

    /// The next value of the row, or `None` after its end.
    pub fn next(&mut self) -> (r: Option<S::Item>)
        ensures
            final(self).spec_source() == old(self).spec_source(),
            match old(self).spec_current() {
                Some(p) => {
                    &&& r == Some(old(self).spec_source().spec_look(p))
                    &&& final(self).spec_current() == if p@.0 + 1 == old(self).spec_source().spec_size()@.0 {
                        None
                    } else {
                        Some(Point::with_coords(p@.0 + 1, p@.1))
                    }
                },
                None => r is None && final(self).spec_current() is None,
            },
    {
        proof {
            use_type_invariant(&*self);
        }
        match self.current {
            Some(current) => {
                let value = self.source.look(current).unwrap();
                let width = self.source.size().width();
                let (x, y) = (current.x(), current.y());
                if x + 1 == width {
                    self.current = None;
                } else {
                    let next = Point::new(x + 1, y).unwrap();
                    proof {
                        Point::lemma_with_coords(x + 1, y as int);
                        Point::lemma_view_eq(next, Point::with_coords(x + 1, y as int));
                    }
                    self.current = Some(next);
                }
                Some(value)
            },
            None => None,
        }
    }
}

/// Walks over all values of a lens, row by row.
pub struct Elements<'a, S: Lens> {
    lens: &'a S,
    current: usize,
}

impl<'a, S: Lens> Elements<'a, S> {
    /// The lens walked over.
    pub closed spec fn spec_source(self) -> S {
        *self.lens
    }

    /// The row-major position of the next value.
    pub closed spec fn spec_current(self) -> int {
        self.current as int
    }

    /// The values not handed out yet, in row-major order.
    pub open spec fn spec_remaining(self) -> Seq<S::Item> {
        let source = self.spec_source();
        let size = source.spec_size();
        let left = if self.spec_current() < size.spec_area() { size.spec_area() - self.spec_current() } else { 0 };
        Seq::new(left as nat, |k: int| source.spec_look(point_at(size, self.spec_current() + k)))
    }

    /// Start walking over all values of `lens` from its top left point.
    pub fn new(lens: &'a S) -> (r: Elements<'a, S>)
        ensures
            r.spec_source() == *lens,
            r.spec_current() == 0,
            r.spec_remaining() == Seq::new(
                lens.spec_size().spec_area() as nat,
                |k: int| lens.spec_look(point_at(lens.spec_size(), k)),
            ),
    {
        let size = lens.size();
        let _ = (size.width(), size.height());
        let r = Elements { lens, current: 0 };
        proof {
            assert(size.spec_area() >= 0) by (nonlinear_arith)
                requires size@.0 >= 0, size@.1 >= 0, size.spec_area() == size@.0 * size@.1;
            assert(r.spec_remaining() =~= Seq::new(
                lens.spec_size().spec_area() as nat,
                |k: int| lens.spec_look(point_at(lens.spec_size(), k)),
            ));
        }
        r
    }

    /// The next value, or `None` after the last one.
    pub fn next(&mut self) -> (r: Option<S::Item>)
        ensures
            final(self).spec_source() == old(self).spec_source(),
            old(self).spec_current() < old(self).spec_source().spec_size().spec_area() ==> {
                &&& r == Some(old(self).spec_source().spec_look(point_at(old(self).spec_source().spec_size(), old(self).spec_current())))
                &&& final(self).spec_current() == old(self).spec_current() + 1
            },
            old(self).spec_current() >= old(self).spec_source().spec_size().spec_area() ==> {
                &&& r is None
                &&& final(self).spec_current() == old(self).spec_current()
            },
            old(self).spec_remaining().len() == 0 ==> r is None && final(self).spec_remaining() == old(self).spec_remaining(),
            old(self).spec_remaining().len() > 0 ==> {
                &&& r == Some(old(self).spec_remaining()[0])
                &&& final(self).spec_remaining() == old(self).spec_remaining().drop_first()
            },
    {
        let size = self.lens.size();
        let _ = (size.width(), size.height());
        let area = size.area();
        let point = match Point::from_index(self.current, size) {
            Ok(point) => point,
            Err(_) => return None,
        };
        proof {
            let _ = lemma_point_at(size, self.current as int);
            Point::lemma_view_eq(point, point_at(size, self.current as int));
        }
        let value = self.lens.look(point).unwrap();
        let ghost before = self.spec_remaining();
        self.current = self.current + 1;
        proof {
            assert(self.spec_remaining() =~= before.drop_first());
        }
        Some(value)
    }
}

} // verus!
