use vstd::prelude::*;
use vstd::std_specs::convert::{FromSpec, TryFromSpec};
use vstd::std_specs::ops::SubSpec;

use super::limits::{DIMENSION_MAX, lemma_dimension_max};
use super::offset::Offset;
use super::size::{Size, lemma_area_bound};
use crate::error::{IndexError, IndexResult};

verus! {

/// Error returned when a [`Point`] cannot be created.
#[derive(Debug, PartialEq, Eq, Structural, Clone, Copy)]
pub enum PointCreationError {
    XTooBig,
    YTooBig,
    XNegative,
    YNegative,
}

pub type PointCreationResult<T> = Result<T, PointCreationError>;

/// Represents point on a 2D structure. Both coordinates are non-negative integers
/// smaller than [`DIMENSION_MAX`].
#[derive(Debug, Clone, Copy, PartialEq, Eq, Structural)]
pub struct Point {
    x: usize,
    y: usize,
}

impl View for Point {
    type V = (int, int);

    closed spec fn view(&self) -> (int, int) {
        (self.x as int, self.y as int)
    }
}

/// Whether `(x, y)` are valid coordinates of a [`Point`].
pub open spec fn valid_coords(x: int, y: int) -> bool {
    0 <= x < DIMENSION_MAX && 0 <= y < DIMENSION_MAX
}

/// What [`Point::new`] returns for the given coordinates.
pub open spec fn point_new_result(x: int, y: int) -> Result<(int, int), PointCreationError> {
    if x >= DIMENSION_MAX {
        Err(PointCreationError::XTooBig)
    } else if y >= DIMENSION_MAX {
        Err(PointCreationError::YTooBig)
    } else {
        Ok((x, y))
    }
}

/// What [`Point::translate`] returns, in coordinates, for a point at `(x, y)` moved by
/// `(dx, dy)`.
pub open spec fn translate_result(x: int, y: int, dx: int, dy: int) -> Result<(int, int), PointCreationError> {
    if x + dx < 0 {
        Err(PointCreationError::XNegative)
    } else if y + dy < 0 {
        Err(PointCreationError::YNegative)
    } else {
        point_new_result(x + dx, y + dy)
    }
}

/// The point `(x + dx, y + dy)`; meaningful where those coordinates are valid.
pub open spec fn shifted(p: Point, dx: int, dy: int) -> Point {
    Point::with_coords(p@.0 + dx, p@.1 + dy)
}

/// The view of a point result.
pub open spec fn point_result_view(r: Result<Point, PointCreationError>) -> Result<(int, int), PointCreationError> {
    match r {
        Ok(p) => Ok(p@),
        Err(e) => Err(e),
    }
}

impl Point {
    #[verifier::type_invariant]
    spec fn inv(self) -> bool {
        self.x < DIMENSION_MAX && self.y < DIMENSION_MAX
    }

    /// The point with the given coordinates; meaningful where they are valid.
    pub closed spec fn with_coords(x: int, y: int) -> Point {
        Point { x: x as usize, y: y as usize }
    }

    /// Coordinates are never negative.
    pub proof fn lemma_view_nonneg(self)
        ensures
            0 <= self@.0,
            0 <= self@.1,
    {
    }

    /// Points are equal exactly when their coordinates are.
    pub broadcast proof fn lemma_view_eq(p: Point, q: Point)
        ensures
            #[trigger] (p@) == #[trigger] (q@) <==> p == q,
    {
    }

    /// The coordinates of [`Point::with_coords`].
    pub broadcast proof fn lemma_with_coords(x: int, y: int)
        requires
            valid_coords(x, y),
        ensures
            #[trigger] Point::with_coords(x, y)@ == (x, y),
    {
    }

    /// Create a new [`Point`] with the specified `x` and `y`.
    ///
    /// Fails with `XTooBig` when `x >= DIMENSION_MAX`, otherwise with `YTooBig` when
    /// `y >= DIMENSION_MAX`.
    pub fn new(x: usize, y: usize) -> (r: PointCreationResult<Point>)
        ensures
            point_result_view(r) == point_new_result(x as int, y as int),
    {
        if x >= DIMENSION_MAX {
            return Err(PointCreationError::XTooBig);
        }
        if y >= DIMENSION_MAX {
            return Err(PointCreationError::YTooBig);
        }
        Ok(Point { x, y })
    }

    /// Create a new [`Point`] with both coordinates equal to 0.
    pub fn zero() -> (r: Point)
        ensures
            r@ == (0int, 0int),
    {
        proof {
            lemma_dimension_max();
        }
        Point { x: 0, y: 0 }
    }

    /// Creates [`Point`] from a 1D `index` into a 2D structure of the given [`Size`] laid
    /// out row by row.
    ///
    /// Returns the point if `index < size.area()`, `IndexError::OutOfBounds` otherwise.
    pub fn from_index(index: usize, size: Size) -> (r: IndexResult<Point>)
        ensures
            r is Ok <==> index < size@.0 * size@.1,
            r is Ok ==> r->Ok_0@ == (index as int % size@.0, index as int / size@.0),
            r is Err ==> r == Err::<Point, IndexError>(IndexError::OutOfBounds),
    {
        let width = size.width();
        let height = size.height();
        proof {
            lemma_dimension_max();
            lemma_index_split(index as int, width as int, height as int);
        }
        let point = match Point::new(index % width, index / width) {
            Ok(point) => point,
            Err(_) => return Err(IndexError::OutOfBounds),
        };
        if !size.contains(&point) {
            return Err(IndexError::OutOfBounds);
        }
        Ok(point)
    }

    /// Returns [`Point`]'s x.
    pub fn x(&self) -> (r: usize)
        ensures
            r == self@.0,
            r < DIMENSION_MAX,
    {
        proof {
            use_type_invariant(self);
        }
        self.x
    }

    /// Returns [`Point`]'s y.
    pub fn y(&self) -> (r: usize)
        ensures
            r == self@.1,
            r < DIMENSION_MAX,
    {
        proof {
            use_type_invariant(self);
        }
        self.y
    }

    /// Create 1D index of the [`Point`] in a 2D structure of the given [`Size`] laid out
    /// row by row.
    ///
    /// Returns `y * width + x` if the point is within `size`, `IndexError::OutOfBounds`
    /// otherwise.
    pub fn index(&self, size: Size) -> (r: IndexResult<usize>)
        ensures
            r is Ok <==> size.spec_contains(*self),
            r is Ok ==> r->Ok_0 == self@.1 * size@.0 + self@.0,
            r is Ok ==> r->Ok_0 < size@.0 * size@.1,
            r is Err ==> r == Err::<usize, IndexError>(IndexError::OutOfBounds),
    {
        if !size.contains(self) {
            return Err(IndexError::OutOfBounds);
        }
        let width = size.width();
        let height = size.height();
        proof {
            use_type_invariant(self);
            lemma_dimension_max();
            lemma_area_bound(width as int, height as int);
            lemma_index_bound(self.x as int, self.y as int, width as int, height as int);
        }
        Ok(self.y * width + self.x)
    }

    /// Translate [`Point`] by given [`Offset`].
    ///
    /// Fails with `XNegative` or `YNegative` (checked in that order) when a coordinate
    /// would be negative, then as [`Point::new`] does.
    pub fn translate(self, offset: Offset) -> (r: PointCreationResult<Point>)
        ensures
            point_result_view(r) == translate_result(self@.0, self@.1, offset@.0, offset@.1),
    {
        proof {
            use_type_invariant(self);
            lemma_dimension_max();
        }
        let dx = offset.x();
        let dy = offset.y();
        let x: isize = self.x as isize + dx;
        let y: isize = self.y as isize + dy;
        if x < 0 {
            return Err(PointCreationError::XNegative);
        }
        if y < 0 {
            return Err(PointCreationError::YNegative);
        }
        Point::new(x as usize, y as usize)
    }
}

impl core::ops::Sub for Point {
    type Output = Offset;

    /// The [`Offset`] that leads from `rhs` to `self`.
    fn sub(self, rhs: Point) -> (r: Offset) {
        proof {
            use_type_invariant(self);
            use_type_invariant(rhs);
            lemma_dimension_max();
            Offset::lemma_with_components(self@.0 - rhs@.0, self@.1 - rhs@.1);
        }
        let x: isize = self.x as isize - rhs.x as isize;
        let y: isize = self.y as isize - rhs.y as isize;
        match Offset::new(x, y) {
            Ok(offset) => {
                proof {
                    Offset::lemma_view_eq(offset, Offset::with_components(self@.0 - rhs@.0, self@.1 - rhs@.1));
                }
                offset
            },
            Err(_) => {
                proof {
                    assert(false);
                }
                Offset::new(0, 0).unwrap()
            },
        }
    }
}

impl vstd::std_specs::ops::SubSpecImpl for Point {
    open spec fn obeys_sub_spec() -> bool {
        true
    }

    open spec fn sub_req(self, rhs: Point) -> bool {
        true
    }

    open spec fn sub_spec(self, rhs: Point) -> Offset {
        Offset::with_components(self@.0 - rhs@.0, self@.1 - rhs@.1)
    }
}

/// What converting an offset with components `(x, y)` into a [`Point`] gives.
pub open spec fn point_from_offset_result(x: int, y: int) -> Result<(int, int), PointCreationError> {
    if x < 0 {
        Err(PointCreationError::XNegative)
    } else if y < 0 {
        Err(PointCreationError::YNegative)
    } else {
        point_new_result(x, y)
    }
}

/// The point result with the given view.
pub open spec fn point_result_of(r: Result<(int, int), PointCreationError>) -> Result<Point, PointCreationError> {
    match r {
        Ok(v) => Ok(Point::with_coords(v.0, v.1)),
        Err(e) => Err(e),
    }
}

impl core::convert::TryFrom<Offset> for Point {
    type Error = PointCreationError;

    /// The point at `value` from the origin: fails with `XNegative` or `YNegative`
    /// (checked in that order) when a component is negative.
    fn try_from(value: Offset) -> (r: PointCreationResult<Point>) {
        let x = value.x();
        let y = value.y();
        if x < 0 {
            return Err(PointCreationError::XNegative);
        }
        if y < 0 {
            return Err(PointCreationError::YNegative);
        }
        proof {
            lemma_dimension_max();
        }
        let r = Point::new(x as usize, y as usize);
        proof {
            if let Ok(p) = r {
                Point::lemma_view_eq(p, Point::with_coords(x as int, y as int));
            }
        }
        r
    }
}

impl vstd::std_specs::convert::TryFromSpecImpl<Offset> for Point {
    open spec fn obeys_try_from_spec() -> bool {
        true
    }

    open spec fn try_from_spec(v: Offset) -> Result<Point, PointCreationError> {
        point_result_of(point_from_offset_result(v@.0, v@.1))
    }
}

/// The row-major position of `(x, y)` lies before `width * height`.
pub proof fn lemma_index_bound(x: int, y: int, width: int, height: int)
    requires
        0 <= x < width,
        0 <= y < height,
    ensures
        0 <= y * width + x < width * height,
{
    assert(y * width + x < width * height) by (nonlinear_arith)
        requires 0 <= x < width, 0 <= y < height;
    assert(0 <= y * width) by (nonlinear_arith)
        requires 0 <= y, 0 <= width;
}

/// Splitting a row-major position into column and row.
pub proof fn lemma_index_split(index: int, width: int, height: int)
    requires
        0 <= index,
        0 < width,
        0 < height,
    ensures
        0 <= index % width < width,
        index / width >= 0,
        index < width * height <==> index / width < height,
        (index / width) * width + index % width == index,
{
    assert(index == width * (index / width) + index % width) by (nonlinear_arith)
        requires 0 < width;
    assert(0 <= index % width < width) by (nonlinear_arith)
        requires 0 < width;
    assert(index / width >= 0) by (nonlinear_arith)
        requires 0 < width, 0 <= index;
    assert(index < width * height <==> index / width < height) by (nonlinear_arith)
        requires 0 < width, 0 <= index, index == width * (index / width) + index % width, 0 <= index % width < width;
    assert((index / width) * width == width * (index / width)) by (nonlinear_arith);
}


/// The row-major position of a point within a size, split again into column and row,
/// gives the point back: [`Point::from_index`] undoes [`Point::index`].
pub proof fn law_index_roundtrip(point: Point, size: Size)
    requires
        crate::component::primitive::size::valid_dims(size@.0, size@.1),
        valid_coords(point@.0, point@.1),
        size.spec_contains(point),
    ensures
        (point@.1 * size@.0 + point@.0) % size@.0 == point@.0,
        (point@.1 * size@.0 + point@.0) / size@.0 == point@.1,
        point@.1 * size@.0 + point@.0 < size@.0 * size@.1,
{
    lemma_index_bound(point@.0, point@.1, size@.0, size@.1);
    vstd::arithmetic::div_mod::lemma_fundamental_div_mod_converse(point@.1 * size@.0 + point@.0, size@.0, point@.1, point@.0);
}

/// Translating a point by an offset and then by the negated offset gives the point back,
/// whenever the first translation succeeds.
pub proof fn law_translate_back(point: Point, offset: Offset)
    requires
        valid_coords(point@.0, point@.1),
        translate_result(point@.0, point@.1, offset@.0, offset@.1) is Ok,
    ensures
        ({
            let moved = translate_result(point@.0, point@.1, offset@.0, offset@.1)->Ok_0;
            translate_result(moved.0, moved.1, -offset@.0, -offset@.1) == Ok::<(int, int), PointCreationError>(point@)
        }),
{
}

/// Translating `from` by `to - from` gives `to`.
pub proof fn law_translate_by_difference(from: Point, to: Point)
    requires
        valid_coords(from@.0, from@.1),
        valid_coords(to@.0, to@.1),
    ensures
        SubSpec::sub_spec(to, from)@ == (to@.0 - from@.0, to@.1 - from@.1),
        translate_result(from@.0, from@.1, SubSpec::sub_spec(to, from)@.0, SubSpec::sub_spec(to, from)@.1) == Ok::<(int, int), PointCreationError>(to@),
{
    lemma_dimension_max();
    Offset::lemma_with_components(to@.0 - from@.0, to@.1 - from@.1);
}

/// `p - q` is the negation of `q - p`.
pub proof fn law_sub_antisymmetric(p: Point, q: Point)
    requires
        valid_coords(p@.0, p@.1),
        valid_coords(q@.0, q@.1),
    ensures
        SubSpec::sub_spec(p, q)@ == (-SubSpec::sub_spec(q, p)@.0, -SubSpec::sub_spec(q, p)@.1),
{
    lemma_dimension_max();
    Offset::lemma_with_components(p@.0 - q@.0, p@.1 - q@.1);
    Offset::lemma_with_components(q@.0 - p@.0, q@.1 - p@.1);
}

/// Converting a point into an [`Offset`] and back gives the point again.
pub proof fn law_offset_roundtrip(point: Point)
    requires
        valid_coords(point@.0, point@.1),
    ensures
        <Offset as FromSpec<Point>>::from_spec(point)@ == point@,
        <Point as TryFromSpec<Offset>>::try_from_spec(<Offset as FromSpec<Point>>::from_spec(point)) == Ok::<Point, PointCreationError>(point),
{
    lemma_dimension_max();
    Offset::lemma_with_components(point@.0, point@.1);
    Point::lemma_with_coords(point@.0, point@.1);
    Point::lemma_view_eq(Point::with_coords(point@.0, point@.1), point);
}

} // verus!
