use vstd::prelude::*;

use super::limits::{DIMENSION_MAX, lemma_dimension_max};
use super::margin::Margin;
use super::point::{Point, PointCreationResult};

verus! {

/// Error returned when a [`Size`] cannot be created.
#[derive(Debug, PartialEq, Eq, Structural, Clone, Copy)]
pub enum CreationError {
    WidthZero,
    HeightZero,
    WidthTooBig,
    HeightTooBig,
}

pub type CreationResult<T> = Result<T, CreationError>;

/// Represents a 2D size. Both dimensions lie between 1 and [`DIMENSION_MAX`].
#[derive(Debug, Clone, Copy, PartialEq, Eq, Structural)]
pub struct Size {
    width: usize,
    height: usize,
}

impl View for Size {
    type V = (int, int);

    closed spec fn view(&self) -> (int, int) {
        (self.width as int, self.height as int)
    }
}

/// Whether `(width, height)` are valid dimensions of a [`Size`].
pub open spec fn valid_dims(width: int, height: int) -> bool {
    1 <= width <= DIMENSION_MAX && 1 <= height <= DIMENSION_MAX
}

/// What [`Size::new`] returns for the given dimensions.
pub open spec fn size_new_result(width: int, height: int) -> Result<(int, int), CreationError> {
    if width > DIMENSION_MAX {
        Err(CreationError::WidthTooBig)
    } else if width == 0 {
        Err(CreationError::WidthZero)
    } else if height > DIMENSION_MAX {
        Err(CreationError::HeightTooBig)
    } else if height == 0 {
        Err(CreationError::HeightZero)
    } else {
        Ok((width, height))
    }
}

/// What [`Size::shrink_by_margin`] returns, in dimensions.
pub open spec fn shrink_result(s: (int, int), m: (int, int, int, int)) -> Result<(int, int), CreationError> {
    if m.3 + m.1 >= s.0 {
        Err(CreationError::WidthZero)
    } else if m.0 + m.2 >= s.1 {
        Err(CreationError::HeightZero)
    } else {
        Ok((s.0 - m.3 - m.1, s.1 - m.0 - m.2))
    }
}

/// What [`Size::extend_by_margin`] returns, in dimensions.
pub open spec fn extend_result(s: (int, int), m: (int, int, int, int)) -> Result<(int, int), CreationError> {
    if m.3 + m.1 + s.0 > DIMENSION_MAX {
        Err(CreationError::WidthTooBig)
    } else if m.0 + m.2 + s.1 > DIMENSION_MAX {
        Err(CreationError::HeightTooBig)
    } else {
        Ok((s.0 + m.3 + m.1, s.1 + m.0 + m.2))
    }
}

/// The view of a size result.
pub open spec fn size_result_view(r: Result<Size, CreationError>) -> Result<(int, int), CreationError> {
    match r {
        Ok(s) => Ok(s@),
        Err(e) => Err(e),
    }
}

impl Size {
    #[verifier::type_invariant]
    spec fn inv(self) -> bool {
        valid_dims(self.width as int, self.height as int)
    }

    /// Whether `point` lies within this size.
    pub open spec fn spec_contains(self, point: Point) -> bool {
        point@.0 < self@.0 && point@.1 < self@.1
    }

    /// The number of points within this size.
    pub open spec fn spec_area(self) -> int {
        self@.0 * self@.1
    }

    /// The size with the given dimensions; meaningful where they are valid.
    pub closed spec fn with_dims(width: int, height: int) -> Size {
        Size { width: width as usize, height: height as usize }
    }

    /// Sizes are equal exactly when their dimensions are.
    pub broadcast proof fn lemma_view_eq(p: Size, q: Size)
        ensures
            #[trigger] (p@) == #[trigger] (q@) <==> p == q,
    {
    }

    /// The dimensions of [`Size::with_dims`].
    pub broadcast proof fn lemma_with_dims(width: int, height: int)
        requires
            valid_dims(width, height),
        ensures
            #[trigger] Size::with_dims(width, height)@ == (width, height),
    {
    }

    /// Create a new [`Size`] with specified `width` and `height`.
    ///
    /// Fails, checking in this order, with `WidthTooBig` if `width > DIMENSION_MAX`,
    /// `WidthZero` if `width == 0`, `HeightTooBig` if `height > DIMENSION_MAX` and
    /// `HeightZero` if `height == 0`.
    pub fn new(width: usize, height: usize) -> (r: CreationResult<Size>)
        ensures
            size_result_view(r) == size_new_result(width as int, height as int),
    {
        if width > DIMENSION_MAX {
            return Err(CreationError::WidthTooBig);
        }
        if width == 0 {
            return Err(CreationError::WidthZero);
        }
        if height > DIMENSION_MAX {
            return Err(CreationError::HeightTooBig);
        }
        if height == 0 {
            return Err(CreationError::HeightZero);
        }
        Ok(Size { width, height })
    }

    /// Create a new square [`Size`] with side `2 * radius + 1`: the distance between its
    /// central point and any border is `radius`.
    ///
    /// Fails with `WidthTooBig` if `radius > DIMENSION_MAX / 2`.
    pub fn from_radius(radius: usize) -> (r: CreationResult<Size>)
        ensures
            radius > DIMENSION_MAX / 2 ==> r == Err::<Size, CreationError>(CreationError::WidthTooBig),
            radius <= DIMENSION_MAX / 2 ==> r is Ok && r->Ok_0@ == (2 * radius + 1, 2 * radius + 1),
    {
        proof {
            lemma_dimension_max();
        }
        if radius > DIMENSION_MAX / 2 {
            return Err(CreationError::WidthTooBig);
        }
        let diameter = 2 * radius + 1;
        Size::new(diameter, diameter)
    }

    /// Get [`Size`]'s width.
    pub fn width(&self) -> (r: usize)
        ensures
            r == self@.0,
            1 <= r <= DIMENSION_MAX,
    {
        proof {
            use_type_invariant(self);
        }
        self.width
    }

    /// Get [`Size`]'s height.
    pub fn height(&self) -> (r: usize)
        ensures
            r == self@.1,
            1 <= r <= DIMENSION_MAX,
    {
        proof {
            use_type_invariant(self);
        }
        self.height
    }

    /// Calculate [`Size`]'s area (width * height), which is never 0.
    pub fn area(&self) -> (r: usize)
        ensures
            r == self.spec_area(),
            r > 0,
    {
        proof {
            use_type_invariant(self);
            lemma_area_bound(self.width as int, self.height as int);
        }
        self.width * self.height
    }

    /// Get the middle point, rounded up where a dimension is even.
    pub fn middle(&self) -> (r: PointCreationResult<Point>)
        ensures
            r is Ok,
            r->Ok_0@ == (self@.0 / 2, self@.1 / 2),
    {
        proof {
            use_type_invariant(self);
        }
        Point::new(self.width / 2, self.height / 2)
    }

    /// Checks if `point` is within [`Size`] bounds.
    pub fn contains(&self, point: &Point) -> (r: bool)
        ensures
            r == self.spec_contains(*point),
    {
        point.x() < self.width && point.y() < self.height
    }

    /// Shrink [`Size`] by [`Margin`]: the result is reduced by the margin on each side.
    ///
    /// Fails with `WidthZero` if `left + right >= width`, otherwise with `HeightZero` if
    /// `top + bottom >= height`.
    pub fn shrink_by_margin(&self, margin: Margin) -> (r: CreationResult<Size>)
        ensures
            size_result_view(r) == shrink_result(self@, margin@),
    {
        proof {
            use_type_invariant(self);
            lemma_dimension_max();
        }
        let (top, right, bottom, left) = (margin.top(), margin.right(), margin.bottom(), margin.left());
        if left + right >= self.width {
            return Err(CreationError::WidthZero);
        }
        if top + bottom >= self.height {
            return Err(CreationError::HeightZero);
        }
        let width = self.width - left - right;
        let height = self.height - top - bottom;
        Size::new(width, height)
    }

    /// Extend [`Size`] by [`Margin`]: the result is increased by the margin on each side.
    ///
    /// Fails with `WidthTooBig` if the width would exceed [`DIMENSION_MAX`], otherwise with
    /// `HeightTooBig` if the height would.
    pub fn extend_by_margin(&self, margin: Margin) -> (r: CreationResult<Size>)
        ensures
            size_result_view(r) == extend_result(self@, margin@),
    {
        proof {
            use_type_invariant(self);
            lemma_dimension_max();
        }
        let (top, right, bottom, left) = (margin.top(), margin.right(), margin.bottom(), margin.left());
        if left + right + self.width > DIMENSION_MAX {
            return Err(CreationError::WidthTooBig);
        }
        if top + bottom + self.height > DIMENSION_MAX {
            return Err(CreationError::HeightTooBig);
        }
        let width = self.width + left + right;
        let height = self.height + top + bottom;
        Size::new(width, height)
    }
}

/// Dimensions taken from valid sizes are valid.
pub proof fn lemma_min_size(width: int, height: int)
    requires
        1 <= width <= DIMENSION_MAX,
        1 <= height <= DIMENSION_MAX,
    ensures
        size_new_result(width, height) == Ok::<(int, int), CreationError>((width, height)),
{
}

/// The area of valid dimensions is positive and fits in `usize`.
pub proof fn lemma_area_bound(width: int, height: int)
    requires
        valid_dims(width, height),
    ensures
        0 < width * height < usize::MAX,
{
    lemma_dimension_max();
    assert(0 < width * height <= DIMENSION_MAX * DIMENSION_MAX) by (nonlinear_arith)
        requires 1 <= width <= DIMENSION_MAX, 1 <= height <= DIMENSION_MAX;
}


/// Extending a size by the margin it was shrunk by gives it back.
pub proof fn law_shrink_then_extend(size: (int, int), margin: (int, int, int, int))
    requires
        valid_dims(size.0, size.1),
        0 <= margin.0 && 0 <= margin.1 && 0 <= margin.2 && 0 <= margin.3,
        shrink_result(size, margin) is Ok,
    ensures
        extend_result(shrink_result(size, margin)->Ok_0, margin) == Ok::<(int, int), CreationError>(size),
{
}

/// Shrinking a size by the margin it was extended by gives it back.
pub proof fn law_extend_then_shrink(size: (int, int), margin: (int, int, int, int))
    requires
        valid_dims(size.0, size.1),
        0 <= margin.0 && 0 <= margin.1 && 0 <= margin.2 && 0 <= margin.3,
        extend_result(size, margin) is Ok,
    ensures
        shrink_result(extend_result(size, margin)->Ok_0, margin) == Ok::<(int, int), CreationError>(size),
{
}

} // verus!
