use vstd::prelude::*;

use super::limits::lemma_dimension_max;
use super::margin::Margin;
use super::offset::Offset;
use super::point::{Point, PointCreationError, valid_coords};
use super::size::{CreationError as SizeCreationError, Size, shrink_result};

verus! {

/// Error returned when an [`Area`] cannot be created.
#[derive(Debug, PartialEq, Eq, Structural, Clone, Copy)]
pub enum CreationError {
    SizeInvalid(SizeCreationError),
}

pub type CreationResult<T> = Result<T, CreationError>;

/// Represents a 2D area defined by its size and its top left point.
#[derive(Debug, Clone, Copy)]
pub struct Area {
    size: Size,
    top_left: Point,
}

impl View for Area {
    /// `(size, top_left)`.
    type V = (Size, Point);

    closed spec fn view(&self) -> (Size, Point) {
        (self.size, self.top_left)
    }
}

impl Area {
    /// Whether `point` lies within this area.
    pub open spec fn spec_contains(self, point: Point) -> bool {
        &&& self@.1@.0 <= point@.0 < self@.1@.0 + self@.0@.0
        &&& self@.1@.1 <= point@.1 < self@.1@.1 + self@.0@.1
    }

    /// Create an [`Area`] from the specified size and top left point.
    pub fn new(size: Size, top_left: Point) -> (r: Area)
        ensures
            r@ == (size, top_left),
    {
        Area { size, top_left }
    }

    /// Create the [`Area`] left of `size` inside `margin`: its size is `size` shrunk by
    /// `margin` and its top left point is `(margin.left, margin.top)`.
    ///
    /// Fails with `SizeInvalid` carrying the error of [`Size::shrink_by_margin`] when the
    /// resulting size is invalid.
    pub fn from_cropped_size(size: Size, margin: Margin) -> (r: CreationResult<Area>)
        ensures
            match shrink_result(size@, margin@) {
                Ok(dims) => r is Ok && r->Ok_0@.0@ == dims && r->Ok_0@.1@ == (margin@.3, margin@.0),
                Err(e) => r == Err::<Area, CreationError>(CreationError::SizeInvalid(e)),
            },
    {
        let cropped = match size.shrink_by_margin(margin) {
            Ok(cropped) => cropped,
            Err(e) => return Err(CreationError::SizeInvalid(e)),
        };
        let width = size.width();
        let height = size.height();
        let (top, right, bottom, left) = (margin.top(), margin.right(), margin.bottom(), margin.left());
        let top_left = match Point::new(left, top) {
            Ok(p) => p,
            Err(_) => {
                proof {
                    assert(false);
                }
                return Err(CreationError::SizeInvalid(SizeCreationError::WidthZero));
            },
        };
        Ok(Area { size: cropped, top_left })
    }

    /// Returns [`Area`]'s size.
    pub fn size(&self) -> (r: Size)
        ensures
            r == self@.0,
    {
        self.size
    }

    /// Returns [`Area`]'s top left point.
    pub fn top_left(&self) -> (r: Point)
        ensures
            r == self@.1,
    {
        self.top_left
    }

    /// Returns the point just right of [`Area`]'s top right corner: `(x + width, y)`.
    pub fn top_right(&self) -> (r: Point)
        requires
            valid_coords(self@.1@.0 + self@.0@.0, self@.1@.1),
        ensures
            r@ == (self@.1@.0 + self@.0@.0, self@.1@.1),
    {
        let width = self.size.width();
        let _ = (self.top_left.x(), self.top_left.y());
        proof {
            lemma_dimension_max();
        }
        let offset = Offset::new(width as isize, 0).unwrap();
        self.top_left.translate(offset).unwrap()
    }

    /// Returns the point just below [`Area`]'s bottom left corner: `(x, y + height)`.
    pub fn bottom_left(&self) -> (r: Point)
        requires
            valid_coords(self@.1@.0, self@.1@.1 + self@.0@.1),
        ensures
            r@ == (self@.1@.0, self@.1@.1 + self@.0@.1),
    {
        let height = self.size.height();
        let _ = (self.top_left.x(), self.top_left.y());
        proof {
            lemma_dimension_max();
        }
        let offset = Offset::new(0, height as isize).unwrap();
        self.top_left.translate(offset).unwrap()
    }

    /// Returns the point diagonally past [`Area`]'s bottom right corner:
    /// `(x + width, y + height)`.
    pub fn bottom_right(&self) -> (r: Point)
        requires
            valid_coords(self@.1@.0 + self@.0@.0, self@.1@.1 + self@.0@.1),
        ensures
            r@ == (self@.1@.0 + self@.0@.0, self@.1@.1 + self@.0@.1),
    {
        let width = self.size.width();
        let height = self.size.height();
        let _ = (self.top_left.x(), self.top_left.y());
        proof {
            lemma_dimension_max();
        }
        let offset = Offset::new(width as isize, height as isize).unwrap();
        self.top_left.translate(offset).unwrap()
    }

    /// Checks if `point` is contained within [`Area`].
    pub fn contains(&self, point: &Point) -> (r: bool)
        ensures
            r == self.spec_contains(*point),
    {
        let (px, py) = (point.x(), point.y());
        let (tx, ty) = (self.top_left.x(), self.top_left.y());
        let _ = (self.size.width(), self.size.height());
        if px < tx || py < ty {
            return false;
        }
        proof {
            lemma_dimension_max();
        }
        let relative = Point::new(px - tx, py - ty).unwrap();
        self.size.contains(&relative)
    }
}

} // verus!
