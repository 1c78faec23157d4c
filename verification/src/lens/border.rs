use vstd::prelude::*;

use crate::component::primitive::{Area, Margin, Offset, Point, Size};
use crate::component::primitive::limits::lemma_dimension_max;
use crate::component::primitive::point::shifted;
use crate::component::primitive::size::{extend_result, valid_dims};
use crate::error::{IndexError, IndexResult};
use crate::lens::Lens;
use core::ops::Neg;

verus! {

/// How a [`BorderLens`] fills the points of its border.
#[derive(Debug, Clone, Copy, PartialEq, Eq, Structural)]
pub enum BorderFill {
    /// Repeat the source's value at its top left point.
    PickZero,
}

/// A [`Lens`] that surrounds `source` with a border of `margin`, filled as `fill` says.
pub struct BorderLens<S: Lens> {
    source: S,
    margin: Margin,
    fill: BorderFill,
    size: Size,
}

/// The value at `p` of `source` surrounded by a border of `margin` filled with the value
/// of its top left point.
pub open spec fn border_value<S: Lens>(source: S, margin: Margin, p: Point) -> S::Item {
    if margin@.3 <= p@.0 < margin@.3 + source.spec_size()@.0 && margin@.0 <= p@.1 < margin@.0 + source.spec_size()@.1 {
        source.spec_look(shifted(p, -margin@.3, -margin@.0))
    } else {
        source.spec_look(Point::with_coords(0, 0))
    }
}

impl<S: Lens> BorderLens<S> {
    #[verifier::type_invariant]
    spec fn inv(self) -> bool {
        &&& valid_dims(self.source.spec_size()@.0, self.source.spec_size()@.1)
        &&& extend_result(self.source.spec_size()@, self.margin@) == Ok::<(int, int), crate::component::primitive::SizeCreationError>(self.size@)
    }

    /// Create a lens surrounding `source` with a border of `margin`; the bordered size
    /// must not exceed `DIMENSION_MAX`.
    pub fn new(source: S, margin: Margin, fill: BorderFill) -> (r: BorderLens<S>)
        requires
            extend_result(source.spec_size()@, margin@) is Ok,
        ensures
            extend_result(source.spec_size()@, margin@) == Ok::<(int, int), crate::component::primitive::SizeCreationError>(r.spec_size()@),
            forall|p: Point| #[trigger] r.spec_look(p) == border_value(source, margin, p),
    {
        let source_size = source.size();
        let _ = (source_size.width(), source_size.height());
        let size = source_size.extend_by_margin(margin).unwrap();
        BorderLens { source, margin, fill, size }
    }
}

impl<S: Lens> Lens for BorderLens<S> {
    type Item = S::Item;

    closed spec fn spec_size(&self) -> Size {
        self.size
    }

    closed spec fn spec_look(&self, point: Point) -> S::Item {
        border_value(self.source, self.margin, point)
    }

    fn look(&self, point: Point) -> (r: IndexResult<S::Item>) {
        proof {
            use_type_invariant(self);
            lemma_dimension_max();
            self.margin.lemma_view_nonneg();
        }
        let source_area = Area::from_cropped_size(self.size, self.margin).unwrap();
        let _ = (self.size.width(), self.size.height(), point.x(), point.y());
        let _ = (self.margin.top(), self.margin.right(), self.margin.bottom(), self.margin.left());
        if source_area.contains(&point) {
            let start = source_area.top_left();
            let _ = (start.x(), start.y());
            let offset = Offset::from(start);
            proof {
                Offset::lemma_with_components(start@.0, start@.1);
                Offset::lemma_with_components(-start@.0, -start@.1);
            }
            let moved = point.translate(offset.neg()).unwrap();
            proof {
                Point::lemma_with_coords(point@.0 - start@.0, point@.1 - start@.1);
                Point::lemma_view_eq(moved, shifted(point, -start@.0, -start@.1));
            }
            self.source.look(moved)
        } else if self.size.contains(&point) {
            match self.fill {
                BorderFill::PickZero => {
                    let zero = Point::zero();
                    proof {
                        Point::lemma_with_coords(0, 0);
                        Point::lemma_view_eq(zero, Point::with_coords(0, 0));
                    }
                    self.source.look(zero)
                },
            }
        } else {
            Err(IndexError::OutOfBounds)
        }
    }

    fn size(&self) -> (r: Size) {
        self.size
    }
}

} // verus!
